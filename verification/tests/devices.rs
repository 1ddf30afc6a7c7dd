use audio_devices::device::{
    device_available_buffer_sizes, device_available_sample_rates, device_buffer_size, device_close,
    device_name, device_open, device_sample_rate, device_type_name, AudioIODevice,
    BoxedAudioIODevice, DeviceHandle,
};
use audio_devices::error::DeviceError;
use audio_devices::setup::SampleRate;

fn rate(hertz: f64) -> SampleRate {
    SampleRate::from_bits(hertz.to_bits())
}

struct MockDevice {
    rate: SampleRate,
    size: usize,
    open: bool,
    closed: usize,
}

impl MockDevice {
    fn new() -> Self {
        MockDevice { rate: rate(44100.0), size: 256, open: false, closed: 0 }
    }
}

impl AudioIODevice for MockDevice {
    fn name(&self) -> &str {
        "Mock Output"
    }

    fn device_type_name(&self) -> &str {
        "Mock"
    }

    fn sample_rate(&mut self) -> SampleRate {
        self.rate
    }

    fn buffer_size(&mut self) -> usize {
        self.size
    }

    fn available_sample_rates(&mut self) -> Vec<SampleRate> {
        vec![rate(44100.0), rate(48000.0)]
    }

    fn available_buffer_sizes(&mut self) -> Vec<usize> {
        vec![256, 512]
    }

    fn open(&mut self, sample_rate: SampleRate, buffer_size: usize) -> Result<(), DeviceError> {
        if !self.available_sample_rates().contains(&sample_rate) {
            return DeviceError::outcome("sample rate not supported".to_string());
        }
        if !self.available_buffer_sizes().contains(&buffer_size) {
            return DeviceError::outcome("buffer size not supported".to_string());
        }
        self.rate = sample_rate;
        self.size = buffer_size;
        self.open = true;
        Ok(())
    }

    fn close(&mut self) {
        self.open = false;
        self.closed += 1;
    }
}

#[test]
fn absent_device_has_no_name() {
    let handle: DeviceHandle<MockDevice> = DeviceHandle::new(None);
    assert_eq!(handle.name(), "");
    assert_eq!(handle.device_type_name(), "");
}

#[test]
fn absent_device_answers_with_defaults() {
    let mut handle: DeviceHandle<MockDevice> = DeviceHandle::new(None);
    assert_eq!(handle.sample_rate().to_bits(), 0.0_f64.to_bits());
    assert_eq!(handle.buffer_size(), 0);
    assert!(handle.available_sample_rates().is_empty());
    assert!(handle.available_buffer_sizes().is_empty());
}

#[test]
fn absent_device_accepts_open_and_close() {
    let mut handle: DeviceHandle<MockDevice> = DeviceHandle::new(None);
    assert!(handle.open(rate(48000.0), 512).is_ok());
    assert!(handle.open(rate(-1.0), 0).is_ok());
    handle.close();
    handle.close();
    assert!(handle.into_inner().is_none());
}

#[test]
fn handle_over_a_device_answers_as_the_device() {
    let mut handle = DeviceHandle::new(Some(MockDevice::new()));
    assert_eq!(handle.name(), "Mock Output");
    assert_eq!(handle.device_type_name(), "Mock");
    assert_eq!(handle.sample_rate(), rate(44100.0));
    assert_eq!(handle.buffer_size(), 256);
    assert_eq!(handle.available_sample_rates(), vec![rate(44100.0), rate(48000.0)]);
    assert_eq!(handle.available_buffer_sizes(), vec![256, 512]);
}

#[test]
fn handle_opens_and_closes_its_device() {
    let mut handle = DeviceHandle::new(Some(MockDevice::new()));
    assert!(handle.open(rate(48000.0), 512).is_ok());
    assert_eq!(handle.sample_rate(), rate(48000.0));
    assert_eq!(handle.buffer_size(), 512);
    handle.close();
    let device = handle.into_inner().unwrap();
    assert!(!device.open);
    assert_eq!(device.closed, 1);
}

#[test]
fn open_with_an_invalid_rate_fails_and_changes_nothing() {
    let mut handle = DeviceHandle::new(Some(MockDevice::new()));
    let error = handle.open(rate(12345.0), 512).unwrap_err();
    assert!(!error.diagnostic().is_empty());
    assert_eq!(error.diagnostic(), "sample rate not supported");
    assert_eq!(handle.sample_rate(), rate(44100.0));
    assert_eq!(handle.buffer_size(), 256);
}

#[test]
fn open_with_an_invalid_size_fails_and_changes_nothing() {
    let mut handle = DeviceHandle::new(Some(MockDevice::new()));
    let error = handle.open(rate(48000.0), 7).unwrap_err();
    assert!(!error.diagnostic().is_empty());
    assert_eq!(error.diagnostic(), "buffer size not supported");
    assert_eq!(handle.sample_rate(), rate(44100.0));
    assert_eq!(handle.buffer_size(), 256);
}

#[test]
fn owned_and_borrowed_devices_behave_alike() {
    let mut lent = MockDevice::new();
    let mut owned = DeviceHandle::new(Some(MockDevice::new()));
    let mut borrowed = DeviceHandle::new(Some(&mut lent));
    assert_eq!(owned.name(), borrowed.name());
    assert_eq!(owned.device_type_name(), borrowed.device_type_name());
    assert_eq!(owned.sample_rate(), borrowed.sample_rate());
    assert_eq!(owned.buffer_size(), borrowed.buffer_size());
    assert_eq!(owned.available_sample_rates(), borrowed.available_sample_rates());
    assert_eq!(owned.available_buffer_sizes(), borrowed.available_buffer_sizes());
    assert_eq!(owned.open(rate(1.0), 512), borrowed.open(rate(1.0), 512));
    assert_eq!(owned.open(rate(48000.0), 512), borrowed.open(rate(48000.0), 512));
    assert_eq!(owned.sample_rate(), borrowed.sample_rate());
    assert_eq!(owned.buffer_size(), borrowed.buffer_size());
    owned.close();
    borrowed.close();
}

#[test]
fn absent_owned_and_borrowed_devices_behave_alike() {
    let mut owned: DeviceHandle<MockDevice> = DeviceHandle::new(None);
    let mut borrowed: DeviceHandle<&mut MockDevice> = DeviceHandle::new(None);
    assert_eq!(owned.name(), borrowed.name());
    assert_eq!(owned.device_type_name(), borrowed.device_type_name());
    assert_eq!(owned.sample_rate(), borrowed.sample_rate());
    assert_eq!(owned.buffer_size(), borrowed.buffer_size());
    assert_eq!(owned.available_sample_rates(), borrowed.available_sample_rates());
    assert_eq!(owned.available_buffer_sizes(), borrowed.available_buffer_sizes());
    assert_eq!(owned.open(rate(1.0), 1), borrowed.open(rate(1.0), 1));
}

#[test]
fn a_borrowed_device_is_changed_through_its_handle() {
    let mut lent = MockDevice::new();
    {
        let mut borrowed = DeviceHandle::new(Some(&mut lent));
        assert!(borrowed.open(rate(48000.0), 512).is_ok());
        borrowed.close();
    }
    assert_eq!(lent.rate, rate(48000.0));
    assert_eq!(lent.size, 512);
    assert_eq!(lent.closed, 1);
}

#[test]
fn a_boxed_device_is_a_device() {
    let boxed: BoxedAudioIODevice = Box::new(MockDevice::new());
    let mut handle = DeviceHandle::new(Some(boxed));
    assert_eq!(handle.name(), "Mock Output");
    assert!(handle.open(rate(48000.0), 256).is_ok());
    assert_eq!(handle.sample_rate(), rate(48000.0));
    assert_eq!(handle.buffer_size(), 256);
}

#[test]
fn engine_reads_the_names_of_a_device() {
    let device: BoxedAudioIODevice = Box::new(MockDevice::new());
    assert_eq!(device_name(&device), "Mock Output");
    assert_eq!(device_type_name(&device), "Mock");
}

#[test]
fn engine_reads_the_settings_of_a_device() {
    let mut device: BoxedAudioIODevice = Box::new(MockDevice::new());
    assert_eq!(device_sample_rate(&mut device), rate(44100.0));
    assert_eq!(device_buffer_size(&mut device), 256);
    assert_eq!(device_available_sample_rates(&mut device), vec![rate(44100.0), rate(48000.0)]);
    assert_eq!(device_available_buffer_sizes(&mut device), vec![256, 512]);
}

#[test]
fn engine_open_reports_success_as_the_empty_diagnostic() {
    let mut device: BoxedAudioIODevice = Box::new(MockDevice::new());
    assert_eq!(device_open(&mut device, rate(48000.0), 512), "");
    assert_eq!(device_sample_rate(&mut device), rate(48000.0));
    assert_eq!(device_buffer_size(&mut device), 512);
}

#[test]
fn engine_open_reports_an_error_as_its_diagnostic() {
    let mut device: BoxedAudioIODevice = Box::new(MockDevice::new());
    assert_eq!(device_open(&mut device, rate(8000.0), 512), "sample rate not supported");
    assert_eq!(device_open(&mut device, rate(48000.0), 64), "buffer size not supported");
    assert_eq!(device_sample_rate(&mut device), rate(44100.0));
    assert_eq!(device_buffer_size(&mut device), 256);
}

#[test]
fn engine_closes_a_device() {
    let mut lent = MockDevice::new();
    {
        let mut device: Box<dyn AudioIODevice + '_> = Box::new(&mut lent);
        assert_eq!(device.open(rate(48000.0), 512), Ok(()));
        device.close();
    }
    assert!(!lent.open);
    assert_eq!(lent.closed, 1);
    let mut device: BoxedAudioIODevice = Box::new(MockDevice::new());
    device_close(&mut device);
    device_close(&mut device);
    assert_eq!(device_buffer_size(&mut device), 256);
}
