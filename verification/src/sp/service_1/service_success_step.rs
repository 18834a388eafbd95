//! TM[1,5]: verification reports that signal successful progress of
//! execution, carrying the step reached.

use crate::bits::{push_all, spec_u16_from_be, spec_u16_hi, spec_u16_lo, u16_from_be, u16_to_be};
use crate::error::Error;
use crate::sp::service_1::{
    lemma_request_id_round_trip, RequestId, ServiceSuccessStep, StepId, REQ_ID_LEN, SERVICE_TYPE,
    STEP_ID_LEN,
};
use crate::sp::tm::{lemma_tm_header_round_trip, TmPacket, TmPacketHeader, TM_HEADER_LEN};
use crate::sp::{PrimaryHeader, Request, SpacePacket, TxUserData, PEC_LEN, PH_LEN};
use vstd::prelude::*;

verus! {

/// Total wire length of a success report with a step: primary header,
/// TM secondary header, request identifier, step identifier and packet
/// error control.
pub const SERVICE_SUCCESS_STEP_LEN: usize = 23;

impl SpacePacket<TmPacket<ServiceSuccessStep>> {
    /// Shape of a valid TM[1,5] report: a version-0 telemetry packet
    /// with a secondary header, service type 1, subtype 5, and the data
    /// length the fixed payload forces.
    pub open spec fn wf(self) -> bool {
        &&& self.primary_header.wf()
        &&& self.data.header.wf()
        &&& self.data.user_data.data.request_id.wf()
        &&& self.primary_header.ver_no == 0
        &&& !self.primary_header.type_flag
        &&& self.primary_header.sec_header_flag
        &&& self.primary_header.data_len == 16
        &&& self.data.header.service_type == SERVICE_TYPE
        &&& self.data.header.message_subtype == 5
    }

    /// The 23 wire bytes of the report.
    pub open spec fn spec_to_bytes(self) -> Seq<u8> {
        self.primary_header.spec_to_bytes() + self.data.header.spec_to_bytes()
            + self.data.user_data.data.request_id.spec_to_bytes()
            + self.data.user_data.data.step_id.spec_to_bytes() + seq![
            spec_u16_hi(self.data.user_data.packet_error_control),
            spec_u16_lo(self.data.user_data.packet_error_control),
        ]
    }

    /// Whether a byte sequence is a well-shaped TM[1,5] report.
    pub open spec fn spec_wire_ok(b: Seq<u8>) -> bool {
        let ph = PrimaryHeader::spec_parse(b.subrange(0, 6));
        let sh = TmPacketHeader::spec_parse(b.subrange(6, 15));
        &&& b.len() == SERVICE_SUCCESS_STEP_LEN
        &&& ph.ver_no == 0
        &&& ph.sec_header_flag
        &&& !ph.type_flag
        &&& ph.data_len == 16
        &&& sh.service_type == SERVICE_TYPE
        &&& sh.message_subtype == 5
    }

    /// The report that a well-shaped byte sequence denotes.
    pub open spec fn spec_decode(b: Seq<u8>) -> Self {
        SpacePacket {
            primary_header: PrimaryHeader::spec_parse(b.subrange(0, 6)),
            data: TmPacket {
                header: TmPacketHeader::spec_parse(b.subrange(6, 15)),
                user_data: TxUserData {
                    packet_error_control: spec_u16_from_be(b[21], b[22]) as u16,
                    data: ServiceSuccessStep {
                        request_id: RequestId::spec_parse(b.subrange(15, 19)),
                        step_id: StepId { step_id: spec_u16_from_be(b[19], b[20]) as u16 },
                    },
                },
            },
        }
    }

    /// The error that decoding a malformed byte sequence reports.
    pub open spec fn spec_decode_err(b: Seq<u8>) -> Error {
        if b.len() == SERVICE_SUCCESS_STEP_LEN && PrimaryHeader::spec_parse(
            b.subrange(0, 6),
        ).ver_no != 0 {
            Error::InvalidVersionNo
        } else {
            Error::InvalidPacket
        }
    }

    /// Builds a TM[1,5] successful progress of execution verification
    /// report.
    pub fn new_service_1_5<T: Request>(
        request: &T,
        destination_id: u16,
        packet_name: u16,
        step_id: u16,
    ) -> (r: Result<Self, Error>)
        requires
            request.req_wf(),
        ensures
            r is Ok <==> packet_name < 16384,
            r matches Ok(p) ==> p == Self::spec_new(
                request.spec_request(),
                destination_id,
                packet_name,
                step_id,
            ) && p.wf(),
            r is Err ==> r == Err::<Self, Error>(Error::InvalidPacket),
    {
        Self::new(request, destination_id, packet_name, step_id)
    }

    /// The report that `new` builds from a request identifier.
    pub open spec fn spec_new(
        req_id: RequestId,
        destination_id: u16,
        packet_name: u16,
        step_id: u16,
    ) -> Self {
        SpacePacket {
            primary_header: PrimaryHeader {
                ver_no: 0,
                type_flag: false,
                sec_header_flag: true,
                apid: req_id.apid,
                seq_flags: (true, true),
                packet_name,
                data_len: 16,
            },
            data: TmPacket {
                header: TmPacketHeader {
                    pus_ver_no: 2,
                    time_ref_status: 0,
                    service_type: SERVICE_TYPE,
                    message_subtype: 5,
                    message_type_counter: 0,
                    destination_id,
                    abs_time: 0,
                },
                user_data: TxUserData {
                    packet_error_control: 0,
                    data: ServiceSuccessStep {
                        request_id: req_id,
                        step_id: StepId { step_id },
                    },
                },
            },
        }
    }

    /// Builds a TM[1,5] report answering `request` at step `step_id`.
    pub fn new<T: Request>(
        request: &T,
        destination_id: u16,
        packet_name: u16,
        step_id: u16,
    ) -> (r: Result<Self, Error>)
        requires
            request.req_wf(),
        ensures
            r is Ok <==> packet_name < 16384,
            r matches Ok(p) ==> p == Self::spec_new(
                request.spec_request(),
                destination_id,
                packet_name,
                step_id,
            ) && p.wf(),
            r is Err ==> r == Err::<Self, Error>(Error::InvalidPacket),
    {
        let req_id = request.to_request();
        let data_len: u16 = (TM_HEADER_LEN + REQ_ID_LEN + STEP_ID_LEN + PEC_LEN - 1) as u16;
        let primary_header = match PrimaryHeader::new(
            0,
            false,
            true,
            req_id.apid,
            (true, true),
            packet_name,
            data_len,
        ) {
            Ok(h) => h,
            Err(e) => {
                return Err(e);
            },
        };
        let header = match TmPacketHeader::new(SERVICE_TYPE, 5, destination_id) {
            Ok(h) => h,
            Err(e) => {
                return Err(e);
            },
        };
        let step = match StepId::new(step_id) {
            Ok(s) => s,
            Err(e) => {
                return Err(e);
            },
        };
        Ok(
            SpacePacket {
                primary_header,
                data: TmPacket {
                    header,
                    user_data: TxUserData {
                        packet_error_control: 0,
                        data: ServiceSuccessStep { request_id: req_id, step_id: step },
                    },
                },
            },
        )
    }

    /// Decodes a TM[1,5] report from its 23 wire bytes; any shape
    /// mismatch is rejected.
    pub fn from_bytes(buffer: &[u8]) -> (r: Result<Self, Error>)
        ensures
            r is Ok <==> Self::spec_wire_ok(buffer@),
            r matches Ok(p) ==> p == Self::spec_decode(buffer@) && p.wf(),
            r matches Err(e) ==> e == Self::spec_decode_err(buffer@),
    {
        if buffer.len() != PH_LEN + TM_HEADER_LEN + REQ_ID_LEN + STEP_ID_LEN + PEC_LEN {
            return Err(Error::InvalidPacket);
        }
        let primary_header = match PrimaryHeader::from_bytes(
            vstd::slice::slice_subrange(buffer, 0, PH_LEN),
        ) {
            Ok(h) => h,
            Err(e) => {
                return Err(e);
            },
        };
        if !primary_header.sec_header_flag || primary_header.type_flag
            || primary_header.data_len != 16 {
            return Err(Error::InvalidPacket);
        }
        let sec_header = match TmPacketHeader::from_bytes(
            vstd::slice::slice_subrange(buffer, PH_LEN, PH_LEN + TM_HEADER_LEN),
        ) {
            Ok(h) => h,
            Err(e) => {
                return Err(e);
            },
        };
        if sec_header.service_type != SERVICE_TYPE || sec_header.message_subtype != 5 {
            return Err(Error::InvalidPacket);
        }
        let req_id = match RequestId::from_bytes(
            vstd::slice::slice_subrange(buffer, 15, 15 + REQ_ID_LEN),
        ) {
            Ok(id) => id,
            Err(e) => {
                return Err(e);
            },
        };
        let step_id = match StepId::from_bytes(
            vstd::slice::slice_subrange(buffer, 19, 19 + STEP_ID_LEN),
        ) {
            Ok(s) => s,
            Err(e) => {
                return Err(e);
            },
        };
        let packet_error_control = u16_from_be(
            *vstd::slice::slice_index_get(buffer, 21),
            *vstd::slice::slice_index_get(buffer, 22),
        );
        Ok(
            SpacePacket {
                primary_header,
                data: TmPacket {
                    header: sec_header,
                    user_data: TxUserData {
                        packet_error_control,
                        data: ServiceSuccessStep { request_id: req_id, step_id },
                    },
                },
            },
        )
    }

    /// Serializes the report to its 23 wire bytes.
    pub fn to_bytes(&self) -> (r: Vec<u8>)
        requires
            self.wf(),
        ensures
            r@ == self.spec_to_bytes(),
    {
        let mut bytes: Vec<u8> = Vec::new();
        let ph = self.primary_header.to_bytes();
        push_all(&mut bytes, ph.as_slice());
        let sh = self.data.header.to_bytes();
        push_all(&mut bytes, sh.as_slice());
        let req = self.data.user_data.data.request_id.to_bytes();
        push_all(&mut bytes, req.as_slice());
        let step = self.data.user_data.data.step_id.to_bytes();
        push_all(&mut bytes, step.as_slice());
        let (hi, lo) = u16_to_be(self.data.user_data.packet_error_control);
        bytes.push(hi);
        bytes.push(lo);
        proof {
            assert(bytes@ =~= self.spec_to_bytes());
        }
        bytes
    }

    /// Round-trip law: decoding the wire bytes of any well-formed
    /// TM[1,5] report yields that report back.
    pub proof fn lemma_round_trip(p: Self)
        requires
            p.wf(),
        ensures
            Self::spec_wire_ok(p.spec_to_bytes()),
            Self::spec_decode(p.spec_to_bytes()) == p,
    {
        let b = p.spec_to_bytes();
        assert(b.subrange(0, 6) =~= p.primary_header.spec_to_bytes());
        assert(b.subrange(6, 15) =~= p.data.header.spec_to_bytes());
        assert(b.subrange(15, 19) =~= p.data.user_data.data.request_id.spec_to_bytes());
        crate::sp::lemma_primary_header_round_trip(p.primary_header);
        lemma_tm_header_round_trip(p.data.header);
        lemma_request_id_round_trip(p.data.user_data.data.request_id);
        crate::bits::lemma_u16_be_round_trip(p.data.user_data.data.step_id.step_id);
        crate::bits::lemma_u16_be_round_trip(p.data.user_data.packet_error_control);
    }
}

} // verus!
