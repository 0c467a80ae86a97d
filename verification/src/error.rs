//! The closed error taxonomy, and its collapse to the integer status codes
//! that the foreign-function boundary reports.

use hound::Error as HoundError;
use std::io::Error as IoError;
use std::str::Utf8Error;
use vstd::prelude::*;

verus! {

#[verifier::external_type_specification]
#[verifier::external_body]
pub struct ExUtf8Error(Utf8Error);

#[verifier::external_type_specification]
#[verifier::external_body]
pub struct ExIoError(IoError);

#[verifier::external_type_specification]
#[verifier::external_body]
pub struct ExHoundError(HoundError);

/// Everything that can go wrong while zero-filling a file. The taxonomy is
/// closed: callers across the foreign-function boundary see one status code
/// per variant, nothing more.
#[derive(Debug)]
pub enum Error {
    /// The path argument at the foreign-function boundary was not valid text.
    CStrConv(std::str::Utf8Error),
    /// Reserved for path-shape problems; no operation produces it today.
    Filename,
    /// A filesystem-level failure, carried verbatim.
    IO(std::io::Error),
    /// The WAV codec rejected the file, or refused to encode the replacement.
    Wav(hound::Error),
}

impl From<IoError> for Error {
    /// A filesystem failure becomes the I/O error kind.
    fn from(e: IoError) -> (r: Error) {
        Error::IO(e)
    }
}

impl vstd::std_specs::convert::FromSpecImpl<IoError> for Error {
    open spec fn obeys_from_spec() -> bool {
        true
    }

    open spec fn from_spec(e: IoError) -> Error {
        Error::IO(e)
    }
}

impl From<HoundError> for Error {
    /// A codec failure becomes the WAV error kind.
    fn from(e: HoundError) -> (r: Error) {
        Error::Wav(e)
    }
}

impl vstd::std_specs::convert::FromSpecImpl<HoundError> for Error {
    open spec fn obeys_from_spec() -> bool {
        true
    }

    open spec fn from_spec(e: HoundError) -> Error {
        Error::Wav(e)
    }
}

pub const ZERO_FILL_OK: i32 = 0;

pub const ZERO_FILL_C_STR_CONV: i32 = 1;

pub const ZERO_FILL_FILENAME: i32 = 2;

pub const ZERO_FILL_IO: i32 = 3;

pub const ZERO_FILL_WAV: i32 = 4;

/// The status code that the foreign-function boundary reports for an outcome.
pub open spec fn spec_status_code(res: Result<(), Error>) -> i32 {
    match res {
        Ok(_) => ZERO_FILL_OK,
        Err(Error::CStrConv(_)) => ZERO_FILL_C_STR_CONV,
        Err(Error::Filename) => ZERO_FILL_FILENAME,
        Err(Error::IO(_)) => ZERO_FILL_IO,
        Err(Error::Wav(_)) => ZERO_FILL_WAV,
    }
}

/// Collapses an outcome to its status code, one code per error kind.
pub fn status_code(res: &Result<(), Error>) -> (code: i32)
    ensures
        code == spec_status_code(*res),
{
    match res {
        Ok(_) => ZERO_FILL_OK,
        Err(Error::CStrConv(_)) => ZERO_FILL_C_STR_CONV,
        Err(Error::Filename) => ZERO_FILL_FILENAME,
        Err(Error::IO(_)) => ZERO_FILL_IO,
        Err(Error::Wav(_)) => ZERO_FILL_WAV,
    }
}

} // verus!
