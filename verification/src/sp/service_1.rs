//! Request verification reports: service type 1. Field structures shared
//! by every TM[1,x] packet, and the report data types.

use crate::bits::{lemma_pack_unpack, spec_u16_from_be, spec_u16_hi, spec_u16_lo, u16_from_be, u16_to_be};
use crate::error::{Error, ERR_CODE_COUNT};
use crate::sp::bit;
use crate::sp::tm::TmData;
use vstd::prelude::*;

pub mod service_fail;
pub mod service_fail_step;
pub mod service_success;
pub mod service_success_step;

verus! {

/// Service type of every request verification report.
pub const SERVICE_TYPE: u8 = 1;

/// Wire length of a request identifier.
pub const REQ_ID_LEN: usize = 4;

/// Wire length of a step identifier.
pub const STEP_ID_LEN: usize = 2;

/// Identifies the telecommand that a verification report answers:
/// the identification and sequence fields of the command's primary
/// header, packed into 4 bytes.
#[derive(Debug, Clone, Copy, PartialEq, Eq)]
pub struct RequestId {
    /// Packet version number of the command; a 3-bit field.
    pub ver_no: u8,
    /// Packet type flag of the command.
    pub packet_type: bool,
    /// Secondary header flag of the command.
    pub sec_header_flag: bool,
    /// Application process identifier of the command; an 11-bit field.
    pub apid: u16,
    /// Sequence flags of the command.
    pub seq_flags: (bool, bool),
    /// Packet sequence count of the command; a 14-bit field.
    pub packet_seq_count: u16,
}

impl RequestId {
    /// Field bounds that the packed wire layout forces.
    pub open spec fn wf(self) -> bool {
        self.ver_no < 8 && self.apid < 2048 && self.packet_seq_count < 16384
    }

    /// The 4 wire bytes of a request identifier.
    pub open spec fn spec_to_bytes(self) -> Seq<u8> {
        seq![
            ((((self.ver_no * 2 + bit(self.packet_type)) * 2 + bit(self.sec_header_flag)) * 8) + self.apid as int / 256) as u8,
            (self.apid as int % 256) as u8,
            ((bit(self.seq_flags.0) * 2 + bit(self.seq_flags.1)) * 64 + self.packet_seq_count as int / 256) as u8,
            (self.packet_seq_count as int % 256) as u8,
        ]
    }

    /// The request identifier that 4 wire bytes denote.
    pub open spec fn spec_parse(b: Seq<u8>) -> RequestId {
        RequestId {
            ver_no: (b[0] as int / 32) as u8,
            packet_type: (b[0] as int / 16) % 2 == 1,
            sec_header_flag: (b[0] as int / 8) % 2 == 1,
            apid: ((b[0] as int % 8) * 256 + b[1]) as u16,
            seq_flags: ((b[2] as int / 128) % 2 == 1, (b[2] as int / 64) % 2 == 1),
            packet_seq_count: ((b[2] as int % 64) * 256 + b[3]) as u16,
        }
    }

    /// Serializes the request identifier to its 4 wire bytes.
    pub fn to_bytes(&self) -> (r: Vec<u8>)
        requires
            self.wf(),
        ensures
            r@ == self.spec_to_bytes(),
    {
        let mut b0: u8 = self.ver_no * 2;
        if self.packet_type {
            b0 = b0 + 1;
        }
        b0 = b0 * 2;
        if self.sec_header_flag {
            b0 = b0 + 1;
        }
        b0 = b0 * 8 + (self.apid / 256) as u8;
        let b1: u8 = (self.apid % 256) as u8;
        let mut b2: u8 = 0;
        if self.seq_flags.0 {
            b2 = b2 + 1;
        }
        b2 = b2 * 2;
        if self.seq_flags.1 {
            b2 = b2 + 1;
        }
        b2 = b2 * 64 + (self.packet_seq_count / 256) as u8;
        let b3: u8 = (self.packet_seq_count % 256) as u8;
        let mut r: Vec<u8> = Vec::new();
        r.push(b0);
        r.push(b1);
        r.push(b2);
        r.push(b3);
        proof {
            assert(r@ =~= self.spec_to_bytes());
        }
        r
    }

    /// Parses a request identifier from its 4 wire bytes; rejects a
    /// slice of any other length.
    pub fn from_bytes(buffer: &[u8]) -> (r: Result<Self, Error>)
        ensures
            r is Ok <==> buffer@.len() == REQ_ID_LEN,
            r matches Ok(id) ==> id == Self::spec_parse(buffer@) && id.wf(),
            r is Err ==> r == Err::<Self, Error>(Error::InvalidPacket),
    {
        if buffer.len() != REQ_ID_LEN {
            return Err(Error::InvalidPacket);
        }
        let b0 = *vstd::slice::slice_index_get(buffer, 0);
        let b1 = *vstd::slice::slice_index_get(buffer, 1);
        let b2 = *vstd::slice::slice_index_get(buffer, 2);
        let b3 = *vstd::slice::slice_index_get(buffer, 3);
        Ok(
            RequestId {
                ver_no: b0 / 32,
                packet_type: (b0 / 16) % 2 == 1,
                sec_header_flag: (b0 / 8) % 2 == 1,
                apid: (b0 % 8) as u16 * 256 + b1 as u16,
                seq_flags: ((b2 / 128) % 2 == 1, (b2 / 64) % 2 == 1),
                packet_seq_count: (b2 % 64) as u16 * 256 + b3 as u16,
            },
        )
    }
}

/// Decoding the 4 wire bytes of a well-formed request identifier gives
/// the identifier back: the round-trip law for request identifiers.
pub proof fn lemma_request_id_round_trip(id: RequestId)
    requires
        id.wf(),
    ensures
        RequestId::spec_parse(id.spec_to_bytes()) == id,
{
    let b = id.spec_to_bytes();
    let v = id.ver_no as int;
    let t = bit(id.packet_type);
    let s = bit(id.sec_header_flag);
    let ah = id.apid as int / 256;
    let al = id.apid as int % 256;
    vstd::arithmetic::div_mod::lemma_fundamental_div_mod(id.apid as int, 256);
    assert(0 <= ah < 8) by (nonlinear_arith)
        requires
            0 <= id.apid < 2048,
            ah == id.apid as int / 256,
    ;
    lemma_pack_unpack(((v * 2 + t) * 2 + s), ah, 8);
    lemma_pack_unpack((v * 2 + t), s, 2);
    lemma_pack_unpack(v, t, 2);
    assert(b[0] as int / 16 == (b[0] as int / 8) / 2) by (nonlinear_arith);
    assert(b[0] as int / 32 == ((b[0] as int / 8) / 2) / 2) by (nonlinear_arith);
    lemma_pack_unpack(ah, al, 256);
    let f0 = bit(id.seq_flags.0);
    let f1 = bit(id.seq_flags.1);
    let nh = id.packet_seq_count as int / 256;
    let nl = id.packet_seq_count as int % 256;
    vstd::arithmetic::div_mod::lemma_fundamental_div_mod(id.packet_seq_count as int, 256);
    assert(0 <= nh < 64) by (nonlinear_arith)
        requires
            0 <= id.packet_seq_count < 16384,
            nh == id.packet_seq_count as int / 256,
    ;
    lemma_pack_unpack(f0 * 2 + f1, nh, 64);
    lemma_pack_unpack(f0, f1, 2);
    assert(b[2] as int / 128 == (b[2] as int / 64) / 2) by (nonlinear_arith);
    lemma_pack_unpack(nh, nl, 256);
    assert(RequestId::spec_parse(b) == id);
}

/// Failure notice carried by every failed verification report: a numeric
/// error code and its error-specific data.
#[derive(Debug)]
pub struct FailureNotice {
    /// Numeric wire error code; below `ERR_CODE_COUNT`.
    pub err_code: u8,
    /// Error-specific data for the code.
    pub err_data: Vec<u8>,
}

impl FailureNotice {
    /// A valid notice carries a known error code.
    pub open spec fn wf(self) -> bool {
        self.err_code < ERR_CODE_COUNT
    }

    /// The wire bytes of a failure notice: the code, then its data.
    pub open spec fn spec_to_bytes(self) -> Seq<u8> {
        seq![self.err_code] + self.err_data@
    }

    /// Creates a failure notice; rejects an error code outside the
    /// known range.
    pub fn new(err_code: u8, err_data: Vec<u8>) -> (r: Result<Self, Error>)
        ensures
            r is Ok <==> err_code < ERR_CODE_COUNT,
            r matches Ok(n) ==> n.err_code == err_code && n.err_data@ == err_data@ && n.wf(),
            r is Err ==> r == Err::<Self, Error>(Error::InvalidPacket),
    {
        if err_code as usize >= ERR_CODE_COUNT {
            return Err(Error::InvalidPacket);
        }
        Ok(FailureNotice { err_code, err_data })
    }

    /// Parses a failure notice; rejects an empty slice and an unknown
    /// error code.
    pub fn from_bytes(buffer: &[u8]) -> (r: Result<Self, Error>)
        ensures
            r is Ok <==> buffer@.len() >= 1 && buffer@[0] < ERR_CODE_COUNT,
            r matches Ok(n) ==> n.err_code == buffer@[0] && n.err_data@ == buffer@.subrange(
                1,
                buffer@.len() as int,
            ) && n.wf(),
            r is Err ==> r == Err::<Self, Error>(Error::InvalidPacket),
    {
        if buffer.len() < 1 {
            return Err(Error::InvalidPacket);
        }
        let err_code = *vstd::slice::slice_index_get(buffer, 0);
        if err_code as usize >= ERR_CODE_COUNT {
            return Err(Error::InvalidPacket);
        }
        let rest = vstd::slice::slice_subrange(buffer, 1, buffer.len());
        Ok(FailureNotice { err_code, err_data: vstd::slice::slice_to_vec(rest) })
    }

    /// Serializes the failure notice to its wire bytes.
    pub fn to_byte(&self) -> (r: Vec<u8>)
        ensures
            r@ == self.spec_to_bytes(),
    {
        let mut bytes: Vec<u8> = Vec::new();
        bytes.push(self.err_code);
        let mut i: usize = 0;
        while i < self.err_data.len()
            invariant
                i <= self.err_data@.len(),
                bytes@ == seq![self.err_code] + self.err_data@.subrange(0, i as int),
            decreases self.err_data@.len() - i,
        {
            bytes.push(self.err_data[i]);
            i = i + 1;
            proof {
                assert(seq![self.err_code] + self.err_data@.subrange(0, i as int) =~= (seq![
                    self.err_code,
                ] + self.err_data@.subrange(0, i - 1)).push(self.err_data@[i - 1]));
            }
        }
        proof {
            assert(self.err_data@.subrange(0, self.err_data@.len() as int) =~= self.err_data@);
        }
        bytes
    }
}

/// Step identifier seen in TM[1,5] and TM[1,6] progress reports.
#[derive(Debug, Clone, Copy, PartialEq, Eq, Structural)]
pub struct StepId {
    pub step_id: u16,
}

impl StepId {
    /// The 2 wire bytes of a step identifier, big-endian.
    pub open spec fn spec_to_bytes(self) -> Seq<u8> {
        seq![spec_u16_hi(self.step_id), spec_u16_lo(self.step_id)]
    }

    /// Creates a step identifier.
    pub fn new(step_id: u16) -> (r: Result<Self, Error>)
        ensures
            r == Ok::<Self, Error>(StepId { step_id }),
    {
        Ok(StepId { step_id })
    }

    /// Parses a step identifier from its 2 wire bytes; rejects a slice
    /// of any other length.
    pub fn from_bytes(buffer: &[u8]) -> (r: Result<Self, Error>)
        ensures
            r is Ok <==> buffer@.len() == STEP_ID_LEN,
            r matches Ok(s) ==> s.step_id == spec_u16_from_be(buffer@[0], buffer@[1]),
            r is Err ==> r == Err::<Self, Error>(Error::InvalidPacket),
    {
        if buffer.len() != STEP_ID_LEN {
            return Err(Error::InvalidPacket);
        }
        let step_id = u16_from_be(
            *vstd::slice::slice_index_get(buffer, 0),
            *vstd::slice::slice_index_get(buffer, 1),
        );
        Ok(StepId { step_id })
    }

    /// Serializes the step identifier to its 2 wire bytes.
    pub fn to_bytes(&self) -> (r: Vec<u8>)
        ensures
            r@ == self.spec_to_bytes(),
    {
        let (hi, lo) = u16_to_be(self.step_id);
        let mut r: Vec<u8> = Vec::new();
        r.push(hi);
        r.push(lo);
        proof {
            assert(r@ =~= self.spec_to_bytes());
        }
        r
    }
}

/// The 2 wire bytes of a step identifier reassemble to the identifier:
/// the round-trip law for step identifiers.
pub proof fn lemma_step_id_round_trip(s: StepId)
    ensures
        spec_u16_from_be(s.spec_to_bytes()[0], s.spec_to_bytes()[1]) == s.step_id,
{
    crate::bits::lemma_u16_be_round_trip(s.step_id);
}

/// Report data of TM[1,1], TM[1,3] and TM[1,7]: success without a step.
#[derive(Debug)]
pub struct ServiceSuccess {
    pub request_id: RequestId,
}

impl TmData for ServiceSuccess {

}

/// Source data for a PUS TM[1,1] successful acceptance verification
/// report.
pub type Service1_1 = ServiceSuccess;

/// Source data for a PUS TM[1,3] successful start of execution
/// verification report.
pub type Service1_3 = ServiceSuccess;

/// Source data for a PUS TM[1,7] successful completion of execution
/// verification report.
pub type Service1_7 = ServiceSuccess;

/// Report data of TM[1,2], TM[1,4], TM[1,8] and TM[1,10]: failure
/// without a step.
#[derive(Debug)]
pub struct ServiceFail {
    pub request_id: RequestId,
    pub failure_notice: FailureNotice,
}

impl TmData for ServiceFail {

}

/// Source data for a PUS TM[1,2] failed acceptance verification report.
pub type Service1_2 = ServiceFail;

/// Source data for a PUS TM[1,4] failed start of execution verification
/// report.
pub type Service1_4 = ServiceFail;

/// Source data for a PUS TM[1,8] failed completion of execution
/// verification report.
pub type Service1_8 = ServiceFail;

/// Source data for a PUS TM[1,10] failed routing verification report.
pub type Service1_10 = ServiceFail;

/// Report data of TM[1,5]: successful progress of execution, with the
/// step reached.
#[derive(Debug)]
pub struct ServiceSuccessStep {
    pub request_id: RequestId,
    pub step_id: StepId,
}

impl TmData for ServiceSuccessStep {

}

/// Source data for a PUS TM[1,5] successful progress of execution
/// verification report.
pub type Service1_5 = ServiceSuccessStep;

/// Report data of TM[1,6]: failed progress of execution, with the step
/// reached and a failure notice.
#[derive(Debug)]
pub struct ServiceFailStep {
    pub request_id: RequestId,
    pub step_id: StepId,
    pub failure_notice: FailureNotice,
}

impl TmData for ServiceFailStep {

}

/// Source data for a PUS TM[1,6] failed progress of execution
/// verification report.
pub type Service1_6 = ServiceFailStep;

} // verus!
