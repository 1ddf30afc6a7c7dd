//! The error a device reports when a configuration is rejected.

use vstd::prelude::*;

verus! {

/// The diagnostic that reports `outcome`: empty for success, else the text of
/// the error.
pub open spec fn diagnostic_text(outcome: Result<(), DeviceError>) -> Seq<char> {
    match outcome {
        Ok(_) => Seq::empty(),
        Err(error) => error@,
    }
}

/// The text of an error made from `diagnostic`: the diagnostic itself, or a
/// fixed text in place of an empty one.
pub open spec fn explained(diagnostic: Seq<char>) -> Seq<char> {
    if diagnostic.len() == 0 {
        "no reason was given"@
    } else {
        diagnostic
    }
}

/// A configuration was rejected: the device could not be opened, or the
/// requested setup could not be applied. The error carries the diagnostic
/// text of whoever rejected it, which is never empty.
#[derive(Debug, PartialEq, Eq)]
pub struct DeviceError {
    diagnostic: String,
}

impl DeviceError {
    #[verifier::type_invariant]
    spec fn well_formed(self) -> bool {
        self.diagnostic@.len() > 0
    }

    /// The diagnostic text.
    pub closed spec fn view(&self) -> Seq<char> {
        self.diagnostic@
    }

    /// The error that carries `diagnostic`; where that text is empty, the
    /// error says that no reason was given.
    pub fn new(diagnostic: &str) -> (error: DeviceError)
        ensures
            error@ == explained(diagnostic@),
    {
        if diagnostic.is_empty() {
            proof {
                reveal_strlit("no reason was given");
            }
            DeviceError { diagnostic: "no reason was given".to_owned() }
        } else {
            DeviceError { diagnostic: diagnostic.to_owned() }
        }
    }

    /// Reads a diagnostic as an outcome: an empty text reports success, any
    /// other text is the error that carries it.
    pub fn outcome(diagnostic: String) -> (outcome: Result<(), DeviceError>)
        ensures
            outcome is Ok <==> diagnostic@.len() == 0,
            outcome matches Err(error) ==> error@ == diagnostic@,
    {
        if diagnostic.as_str().is_empty() {
            Ok(())
        } else {
            Err(DeviceError { diagnostic })
        }
    }

    /// Reports an outcome as a diagnostic: the empty text for success, else
    /// the text of the error, which is not empty. [`DeviceError::outcome`]
    /// reads the diagnostic back into the outcome.
    pub fn diagnostic_of(outcome: Result<(), DeviceError>) -> (diagnostic: String)
        ensures
            diagnostic@ == diagnostic_text(outcome),
            diagnostic@.len() == 0 <==> outcome is Ok,
    {
        match outcome {
            Ok(()) => String::new(),
            Err(error) => error.diagnostic().to_owned(),
        }
    }

    /// The diagnostic text: why the configuration was rejected.
    pub fn diagnostic(&self) -> (text: &str)
        ensures
            text@ == self@,
            text@.len() > 0,
    {
        proof {
            use_type_invariant(self);
        }
        self.diagnostic.as_str()
    }
}

} // verus!
