//! Codec and command-dispatch layer for the ECSS Packet Utilisation Standard
//! (PUS) over CCSDS Space Packets.
//!
//! The crate covers the bit-exact encoding and decoding of the CCSDS primary
//! header and the PUS secondary headers, the per-service packet structures
//! (function execution, housekeeping report management, verification
//! reports), the function-dispatch table that maps an incoming command to a
//! registered handler, and the housekeeping report registry consulted by
//! one-shot and periodic report generation.

use vstd::prelude::*;

pub mod bits;
pub mod error;
pub mod packets;
pub mod server;
pub mod sp;

verus! {

/// Wire width of a function identifier: a fixed 16-byte ASCII field,
/// padded with NUL bytes.
pub const FUNC_ID_LEN: usize = 16;

/// A function identifier as carried on the wire: exactly `FUNC_ID_LEN`
/// ASCII bytes (see `spec_func_id_wf`).
pub type FuncId = Vec<u8>;

/// Well-formedness of a function identifier: 16 bytes, all ASCII.
pub open spec fn spec_func_id_wf(f: Seq<u8>) -> bool {
    f.len() == FUNC_ID_LEN && forall|i: int| 0 <= i < f.len() ==> f[i] < 128
}

} // verus!
