//! Housekeeping messages: service type 3. One module per message
//! subtype this codec supports.

use vstd::prelude::*;

pub mod service_3_1;
pub mod service_3_25;
pub mod service_3_27;
pub mod service_3_5x6;

verus! {

/// Service type of every housekeeping message.
pub const SERVICE_TYPE: u8 = 3;

} // verus!
