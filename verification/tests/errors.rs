use audio_devices::error::DeviceError;

#[test]
fn empty_diagnostic_reports_success() {
    assert!(DeviceError::outcome(String::new()).is_ok());
}

#[test]
fn diagnostic_text_is_carried_by_the_error() {
    let error = DeviceError::outcome("sample rate not supported".to_string()).unwrap_err();
    assert_eq!(error.diagnostic(), "sample rate not supported");
    assert!(!error.diagnostic().is_empty());
}

#[test]
fn a_blank_is_a_diagnostic() {
    let error = DeviceError::outcome(" ".to_string()).unwrap_err();
    assert_eq!(error.diagnostic(), " ");
}

#[test]
fn success_is_reported_as_the_empty_diagnostic() {
    assert_eq!(DeviceError::diagnostic_of(Ok(())), "");
}

#[test]
fn an_error_is_reported_as_its_diagnostic() {
    let outcome = DeviceError::outcome("device busy".to_string());
    assert_eq!(DeviceError::diagnostic_of(outcome), "device busy");
}

#[test]
fn outcome_and_diagnostic_round_trip() {
    for text in ["", "device busy", "hardware removed"] {
        let outcome = DeviceError::outcome(text.to_string());
        assert_eq!(outcome.is_ok(), text.is_empty());
        assert_eq!(DeviceError::diagnostic_of(outcome), text);
    }
}

#[test]
fn a_new_error_carries_its_diagnostic() {
    assert_eq!(DeviceError::new("device busy").diagnostic(), "device busy");
}

#[test]
fn a_new_error_without_a_reason_says_so() {
    let error = DeviceError::new("");
    assert_eq!(error.diagnostic(), "no reason was given");
    assert!(!error.diagnostic().is_empty());
}

#[test]
fn errors_compare_by_their_diagnostic() {
    assert_eq!(DeviceError::new("a"), DeviceError::outcome("a".to_string()).unwrap_err());
    assert_ne!(DeviceError::new("a"), DeviceError::new("b"));
}
