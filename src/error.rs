//! The error a client reports.
use vstd::prelude::*;
use vstd::string::to_string_from_display_ensures;

verus! {

/// Relies on `std::io::Error` as an opaque value: errors of the sockets are
/// carried, never inspected.
#[verifier::external_type_specification]
#[verifier::external_body]
pub struct ExIoError(std::io::Error);

/// This type represents the possible errors that can occur while
/// sending DogstatsD metrics.
#[derive(Debug)]
pub enum DogstatsdError {
    /// Chained IO errors.
    IoError(std::io::Error),
}

/// A type alias for returning a unit type or an error
pub type DogstatsdResult = Result<(), DogstatsdError>;

impl From<std::io::Error> for DogstatsdError {
    fn from(e: std::io::Error) -> (r: Self) {
        DogstatsdError::IoError(e)
    }
}

impl vstd::std_specs::convert::FromSpecImpl<std::io::Error> for DogstatsdError {
    open spec fn obeys_from_spec() -> bool {
        true
    }

    open spec fn from_spec(e: std::io::Error) -> Self {
        DogstatsdError::IoError(e)
    }
}

impl DogstatsdError {
    /// The message of the underlying error.
    pub fn to_string(&self) -> (r: String)
        ensures
            match self {
                DogstatsdError::IoError(error) => to_string_from_display_ensures::<std::io::Error>(
                    error,
                    r,
                ),
            },
    {
        match self {
            DogstatsdError::IoError(error) => error.to_string(),
        }
    }
}

} // verus!
