//! What can go wrong, as far as the library itself finds it out.
use vstd::prelude::*;

use crate::opal::StatusCode;

verus! {

/// Failure of a method call as the response shows it.
#[derive(Debug, Copy, Clone)]
pub enum OpalError {
    /// The drive answered with a status other than success.
    Status(StatusCode),
    /// The response does not end in a method status list.
    NoMethodStatus,
}

/// Failures that the library reports to its caller.
#[derive(Debug, Clone)]
pub enum Error {
    /// A method call failed.
    Opal(OpalError),
    /// The discovery record carries a version other than 1.
    IncompatibleVersion,
    /// The drive offers neither the Enterprise nor the Opal 2 feature.
    Unsupported,
    /// There is no configuration file.
    ConfigMissing,
    /// The configuration file is not UTF-8.
    ConfigNonUtf8,
    /// The arguments of the next image cannot be written in UCS-2.
    ConfigArgsBadUtf16,
    /// A verb that must occur does not.
    ConfigVerbMissing(&'static str),
    /// No EFI system partition was found.
    NoBootPartitions,
    /// More than one EFI system partition was found.
    MultipleBootPartitions,
    /// The next image is not on the boot partition.
    ImageNotFound(String),
    /// The next image does not start with the PE/COFF magic.
    ImageNotPeCoff,
}

/// What the functions of the library that can fail return.
pub type Result<T = ()> = core::result::Result<T, Error>;

impl From<OpalError> for Error {
    /// Wraps the failure of a method call.
    fn from(error: OpalError) -> (e: Error) {
        Error::Opal(error)
    }
}

impl vstd::std_specs::convert::FromSpecImpl<OpalError> for Error {
    open spec fn obeys_from_spec() -> bool {
        true
    }

    open spec fn from_spec(error: OpalError) -> Error {
        Error::Opal(error)
    }
}

impl From<StatusCode> for Error {
    /// Wraps a status that the drive reported.
    fn from(status: StatusCode) -> (e: Error) {
        Error::Opal(OpalError::Status(status))
    }
}

impl vstd::std_specs::convert::FromSpecImpl<StatusCode> for Error {
    open spec fn obeys_from_spec() -> bool {
        true
    }

    open spec fn from_spec(status: StatusCode) -> Error {
        Error::Opal(OpalError::Status(status))
    }
}

} // verus!
