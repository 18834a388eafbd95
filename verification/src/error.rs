//! Error taxonomy of the codec, with the numeric wire code and the
//! error-specific data that a failure report carries for each variant.

use vstd::prelude::*;

verus! {

/// Number of error codes that a failure notice may carry on the wire:
/// an error code is valid exactly when it is below this bound.
pub const ERR_CODE_COUNT: usize = 13;

/// Every failure that decoding, construction or command execution can
/// report. Each variant maps to a numeric wire error code
/// (`spec_err_code`); `InvalidFuncId` carries the offending identifier.
#[derive(Debug)]
pub enum Error {
    UnsupportedRequest,
    InvalidPacket,
    CorruptData,
    InvalidPacketName,
    InvalidVersionNo,
    InvalidApid,
    InvalidFuncId(crate::FuncId),
    PeripheralError,
    BorrowMutError,
    NoneError,
    UnitType,
    InvalidArg,
    CapacityError,
}

/// The numeric wire code of an error, as written into a failure notice.
pub open spec fn spec_err_code(e: Error) -> u8 {
    match e {
        Error::UnsupportedRequest => 0,
        Error::InvalidPacket => 1,
        Error::InvalidPacketName => 2,
        Error::InvalidVersionNo => 3,
        Error::CorruptData => 4,
        Error::InvalidApid => 5,
        Error::InvalidFuncId(_) => 6,
        Error::PeripheralError => 7,
        Error::BorrowMutError => 8,
        Error::NoneError => 9,
        Error::UnitType => 10,
        Error::InvalidArg => 11,
        Error::CapacityError => 12,
    }
}

/// The error-specific data bytes of an error: the offending function
/// identifier for `InvalidFuncId`, empty for every other variant.
pub open spec fn spec_err_data(e: Error) -> Seq<u8> {
    match e {
        Error::InvalidFuncId(f) => f@,
        _ => Seq::empty(),
    }
}

/// Maps an error to the numeric wire code and the error-specific data
/// bytes that a failure report carries for it.
pub fn get_err_code_n_data(err: Error) -> (r: (u8, Vec<u8>))
    ensures
        r.0 == spec_err_code(err),
        r.1@ == spec_err_data(err),
        r.0 < ERR_CODE_COUNT,
{
    match err {
        Error::UnsupportedRequest => (0, Vec::new()),
        Error::InvalidPacket => (1, Vec::new()),
        Error::InvalidPacketName => (2, Vec::new()),
        Error::InvalidVersionNo => (3, Vec::new()),
        Error::CorruptData => (4, Vec::new()),
        Error::InvalidApid => (5, Vec::new()),
        Error::InvalidFuncId(f_id) => (6, f_id),
        Error::PeripheralError => (7, Vec::new()),
        Error::BorrowMutError => (8, Vec::new()),
        Error::NoneError => (9, Vec::new()),
        Error::UnitType => (10, Vec::new()),
        Error::InvalidArg => (11, Vec::new()),
        Error::CapacityError => (12, Vec::new()),
    }
}

impl From<()> for Error {
    /// A unit error carries no information: it maps to `UnitType`.
    fn from(item: ()) -> (r: Self)
        ensures
            r == Error::UnitType,
    {
        Error::UnitType
    }
}

impl vstd::std_specs::convert::FromSpecImpl<()> for Error {
    open spec fn obeys_from_spec() -> bool {
        true
    }

    open spec fn from_spec(item: ()) -> Error {
        Error::UnitType
    }
}

/// Extra data bytes that a failure notice owes for a given error code.
/// No code carries extra data in this revision of the protocol.
pub open spec fn spec_err_code_data_len(code: u8) -> nat {
    0
}

/// Per-code length of the error-specific data in a failure notice.
pub fn err_code_data_len(code: u8) -> (r: usize)
    requires
        code < ERR_CODE_COUNT,
    ensures
        r == spec_err_code_data_len(code),
{
    0
}

} // verus!
