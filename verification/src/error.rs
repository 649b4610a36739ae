//! Errors of the configuration layer.
use vstd::prelude::*;
use vstd::std_specs::convert::FromSpecImpl;

verus! {

/// `std::io::Error`, carried through as it is.
#[verifier::external_type_specification]
#[verifier::external_body]
pub struct ExIoError(std::io::Error);

/// Custom error types.
#[derive(Debug)]
pub enum TideError {
    /// The configuration is missing or cannot be used.
    Config(String),
    /// Reading or writing failed.
    Io(std::io::Error),
}

/// The words of an I/O error: `std::io::Error`'s `to_string`. They come
/// from the operating system, so nothing is promised of them.
#[verifier::external_body]
fn io_error_text(error: &std::io::Error) -> String {
    error.to_string()
}

impl From<std::io::Error> for TideError {
    fn from(error: std::io::Error) -> (e: TideError) {
        TideError::Io(error)
    }
}

impl FromSpecImpl<std::io::Error> for TideError {
    open spec fn obeys_from_spec() -> bool {
        true
    }

    open spec fn from_spec(error: std::io::Error) -> TideError {
        TideError::Io(error)
    }
}

impl TideError {
    /// The error in words: what kind it is, then what went wrong.
    pub fn message(&self) -> (s: String)
        ensures
            match *self {
                TideError::Config(reason) => s@ == "Configuration error: "@ + reason@,
                TideError::Io(_) => "IO error: "@.is_prefix_of(s@),
            },
    {
        match self {
            TideError::Config(reason) => {
                let mut s = "Configuration error: ".to_owned();
                s.append(reason.as_str());
                s
            },
            TideError::Io(error) => {
                let mut s = "IO error: ".to_owned();
                s.append(io_error_text(error).as_str());
                s
            },
        }
    }
}

} // verus!
