//! TM[1,2], TM[1,4], TM[1,8] and TM[1,10]: verification reports that
//! signal failure without a step identifier, carrying a failure notice.

use crate::bits::{push_all, spec_u16_from_be, spec_u16_hi, spec_u16_lo, u16_from_be, u16_to_be};
use crate::error::{err_code_data_len, spec_err_code_data_len, Error, ERR_CODE_COUNT};
use crate::sp::service_1::{
    lemma_request_id_round_trip, FailureNotice, RequestId, ServiceFail, REQ_ID_LEN, SERVICE_TYPE,
};
use crate::sp::tm::{lemma_tm_header_round_trip, TmPacket, TmPacketHeader, TM_HEADER_LEN};
use crate::sp::{PrimaryHeader, Request, SpacePacket, TxUserData, PEC_LEN, PH_LEN};
use vstd::prelude::*;

verus! {

/// Least wire length of a failure report without a step: primary
/// header, TM secondary header, request identifier, a one-byte failure
/// notice and packet error control.
pub const SERVICE_FAIL_MIN_LEN: usize = 22;

impl SpacePacket<TmPacket<ServiceFail>> {
    /// Shape of a valid failure report: a version-0 telemetry packet
    /// with a secondary header, service type 1, subtype 2, 4, 8 or 10,
    /// a known error code, and the data length the payload forces.
    pub open spec fn wf(self) -> bool {
        &&& self.primary_header.wf()
        &&& self.data.header.wf()
        &&& self.data.user_data.data.request_id.wf()
        &&& self.data.user_data.data.failure_notice.wf()
        &&& self.primary_header.ver_no == 0
        &&& !self.primary_header.type_flag
        &&& self.primary_header.sec_header_flag
        &&& self.primary_header.data_len == 15 + self.data.user_data.data.failure_notice.err_data@.len()
        &&& self.data.header.service_type == SERVICE_TYPE
        &&& (self.data.header.message_subtype == 2 || self.data.header.message_subtype == 4
            || self.data.header.message_subtype == 8 || self.data.header.message_subtype == 10)
    }

    /// The wire bytes of the report: both headers, the request
    /// identifier, the failure notice and the packet error control.
    pub open spec fn spec_to_bytes(self) -> Seq<u8> {
        self.primary_header.spec_to_bytes() + self.data.header.spec_to_bytes()
            + self.data.user_data.data.request_id.spec_to_bytes()
            + self.data.user_data.data.failure_notice.spec_to_bytes() + seq![
            spec_u16_hi(self.data.user_data.packet_error_control),
            spec_u16_lo(self.data.user_data.packet_error_control),
        ]
    }

    /// Whether a byte sequence is a well-shaped TM[1,2], TM[1,4],
    /// TM[1,8] or TM[1,10] report: the error-specific data must have
    /// exactly the length the per-code table assigns to its code.
    pub open spec fn spec_wire_ok(b: Seq<u8>) -> bool {
        let ph = PrimaryHeader::spec_parse(b.subrange(0, 6));
        let sh = TmPacketHeader::spec_parse(b.subrange(6, 15));
        &&& b.len() >= SERVICE_FAIL_MIN_LEN
        &&& ph.ver_no == 0
        &&& ph.sec_header_flag
        &&& !ph.type_flag
        &&& ph.data_len == b.len() - 7
        &&& sh.service_type == SERVICE_TYPE
        &&& (sh.message_subtype == 2 || sh.message_subtype == 4 || sh.message_subtype == 8
            || sh.message_subtype == 10)
        &&& b[19] < ERR_CODE_COUNT
        &&& b.len() == SERVICE_FAIL_MIN_LEN + spec_err_code_data_len(b[19])
    }

    /// How a decoded report relates to the byte sequence it came from:
    /// every field is pinned by the bytes.
    pub open spec fn spec_decode_rel(b: Seq<u8>, p: Self) -> bool {
        &&& p.primary_header == PrimaryHeader::spec_parse(b.subrange(0, 6))
        &&& p.data.header == TmPacketHeader::spec_parse(b.subrange(6, 15))
        &&& p.data.user_data.data.request_id == RequestId::spec_parse(b.subrange(15, 19))
        &&& p.data.user_data.data.failure_notice.err_code == b[19]
        &&& p.data.user_data.data.failure_notice.err_data@ == b.subrange(
            20,
            20 + spec_err_code_data_len(b[19]) as int,
        )
        &&& p.data.user_data.packet_error_control == spec_u16_from_be(
            b[b.len() - 2],
            b[b.len() - 1],
        )
    }

    /// The error that decoding a malformed byte sequence reports.
    pub open spec fn spec_decode_err(b: Seq<u8>) -> Error {
        if b.len() >= SERVICE_FAIL_MIN_LEN && PrimaryHeader::spec_parse(b.subrange(0, 6)).ver_no
            != 0 {
            Error::InvalidVersionNo
        } else {
            Error::InvalidPacket
        }
    }

    /// Builds a TM[1,2] failed acceptance verification report.
    pub fn new_service_1_2<T: Request>(
        request: &T,
        destination_id: u16,
        packet_name: u16,
        err_code: u8,
        err_data: Vec<u8>,
    ) -> (r: Result<Self, Error>)
        requires
            request.req_wf(),
        ensures
            r is Ok <==> packet_name < 16384 && err_code < ERR_CODE_COUNT && err_data@.len()
                <= 65520,
            r matches Ok(p) ==> Self::spec_new_ok(
                p,
                request.spec_request(),
                2,
                destination_id,
                packet_name,
                err_code,
                err_data@,
            ) && p.wf(),
            r is Err ==> r == Err::<Self, Error>(Error::InvalidPacket),
    {
        Self::new(request, 2, destination_id, packet_name, err_code, err_data)
    }

    /// Builds a TM[1,4] failed start of execution verification report.
    pub fn new_service_1_4<T: Request>(
        request: &T,
        destination_id: u16,
        packet_name: u16,
        err_code: u8,
        err_data: Vec<u8>,
    ) -> (r: Result<Self, Error>)
        requires
            request.req_wf(),
        ensures
            r is Ok <==> packet_name < 16384 && err_code < ERR_CODE_COUNT && err_data@.len()
                <= 65520,
            r matches Ok(p) ==> Self::spec_new_ok(
                p,
                request.spec_request(),
                4,
                destination_id,
                packet_name,
                err_code,
                err_data@,
            ) && p.wf(),
            r is Err ==> r == Err::<Self, Error>(Error::InvalidPacket),
    {
        Self::new(request, 4, destination_id, packet_name, err_code, err_data)
    }

    /// Builds a TM[1,8] failed completion of execution verification
    /// report.
    pub fn new_service_1_8<T: Request>(
        request: &T,
        destination_id: u16,
        packet_name: u16,
        err_code: u8,
        err_data: Vec<u8>,
    ) -> (r: Result<Self, Error>)
        requires
            request.req_wf(),
        ensures
            r is Ok <==> packet_name < 16384 && err_code < ERR_CODE_COUNT && err_data@.len()
                <= 65520,
            r matches Ok(p) ==> Self::spec_new_ok(
                p,
                request.spec_request(),
                8,
                destination_id,
                packet_name,
                err_code,
                err_data@,
            ) && p.wf(),
            r is Err ==> r == Err::<Self, Error>(Error::InvalidPacket),
    {
        Self::new(request, 8, destination_id, packet_name, err_code, err_data)
    }

    /// Builds a TM[1,10] failed routing verification report.
    pub fn new_service_1_10<T: Request>(
        request: &T,
        destination_id: u16,
        packet_name: u16,
        err_code: u8,
        err_data: Vec<u8>,
    ) -> (r: Result<Self, Error>)
        requires
            request.req_wf(),
        ensures
            r is Ok <==> packet_name < 16384 && err_code < ERR_CODE_COUNT && err_data@.len()
                <= 65520,
            r matches Ok(p) ==> Self::spec_new_ok(
                p,
                request.spec_request(),
                10,
                destination_id,
                packet_name,
                err_code,
                err_data@,
            ) && p.wf(),
            r is Err ==> r == Err::<Self, Error>(Error::InvalidPacket),
    {
        Self::new(request, 10, destination_id, packet_name, err_code, err_data)
    }

    /// What `new` builds: the headers, request identifier and failure
    /// notice that a freshly built failure report holds.
    pub open spec fn spec_new_ok(
        p: Self,
        req_id: RequestId,
        message_subtype: u8,
        destination_id: u16,
        packet_name: u16,
        err_code: u8,
        err_data: Seq<u8>,
    ) -> bool {
        &&& p.primary_header == (PrimaryHeader {
            ver_no: 0,
            type_flag: false,
            sec_header_flag: true,
            apid: req_id.apid,
            seq_flags: (true, true),
            packet_name,
            data_len: (15 + err_data.len()) as u16,
        })
        &&& p.data.header == (TmPacketHeader {
            pus_ver_no: 2,
            time_ref_status: 0,
            service_type: SERVICE_TYPE,
            message_subtype,
            message_type_counter: 0,
            destination_id,
            abs_time: 0,
        })
        &&& p.data.user_data.packet_error_control == 0
        &&& p.data.user_data.data.request_id == req_id
        &&& p.data.user_data.data.failure_notice.err_code == err_code
        &&& p.data.user_data.data.failure_notice.err_data@ == err_data
    }

    /// Builds a failure report answering `request`, for message subtype
    /// 2, 4, 8 or 10; any other subtype, an unknown error code, or
    /// error data too long for the length field is rejected.
    pub fn new<T: Request>(
        request: &T,
        message_subtype: u8,
        destination_id: u16,
        packet_name: u16,
        err_code: u8,
        err_data: Vec<u8>,
    ) -> (r: Result<Self, Error>)
        requires
            request.req_wf(),
        ensures
            r is Ok <==> (message_subtype == 2 || message_subtype == 4 || message_subtype == 8
                || message_subtype == 10) && packet_name < 16384 && err_code < ERR_CODE_COUNT
                && err_data@.len() <= 65520,
            r matches Ok(p) ==> Self::spec_new_ok(
                p,
                request.spec_request(),
                message_subtype,
                destination_id,
                packet_name,
                err_code,
                err_data@,
            ) && p.wf(),
            r is Err ==> r == Err::<Self, Error>(Error::InvalidPacket),
    {
        let req_id = request.to_request();
        if message_subtype != 2 && message_subtype != 4 && message_subtype != 8 && message_subtype
            != 10 {
            return Err(Error::InvalidPacket);
        }
        if err_data.len() > 65520 {
            return Err(Error::InvalidPacket);
        }
        let data_len: u16 = (TM_HEADER_LEN + REQ_ID_LEN + 1 + err_data.len() + PEC_LEN - 1) as u16;
        let primary_header = match PrimaryHeader::new(
            0,
            false,
            true,
            req_id.apid,
            (true, true),
            packet_name,
            data_len,
        ) {
            Ok(h) => h,
            Err(e) => {
                return Err(e);
            },
        };
        let header = match TmPacketHeader::new(SERVICE_TYPE, message_subtype, destination_id) {
            Ok(h) => h,
            Err(e) => {
                return Err(e);
            },
        };
        let failure_notice = match FailureNotice::new(err_code, err_data) {
            Ok(n) => n,
            Err(e) => {
                return Err(e);
            },
        };
        Ok(
            SpacePacket {
                primary_header,
                data: TmPacket {
                    header,
                    user_data: TxUserData {
                        packet_error_control: 0,
                        data: ServiceFail { request_id: req_id, failure_notice },
                    },
                },
            },
        )
    }

    /// Decodes a failure report; the failure notice is read with the
    /// length that the per-code table assigns to its error code, and
    /// any shape mismatch is rejected.
    pub fn from_bytes(buffer: &[u8]) -> (r: Result<Self, Error>)
        ensures
            r is Ok <==> Self::spec_wire_ok(buffer@),
            r matches Ok(p) ==> Self::spec_decode_rel(buffer@, p) && p.wf(),
            r matches Err(e) ==> e == Self::spec_decode_err(buffer@),
    {
        if buffer.len() < SERVICE_FAIL_MIN_LEN {
            return Err(Error::InvalidPacket);
        }
        let primary_header = match PrimaryHeader::from_bytes(
            vstd::slice::slice_subrange(buffer, 0, PH_LEN),
        ) {
            Ok(h) => h,
            Err(e) => {
                return Err(e);
            },
        };
        if !primary_header.sec_header_flag || primary_header.type_flag
            || primary_header.data_len as usize != buffer.len() - 7 {
            return Err(Error::InvalidPacket);
        }
        let sec_header = match TmPacketHeader::from_bytes(
            vstd::slice::slice_subrange(buffer, PH_LEN, PH_LEN + TM_HEADER_LEN),
        ) {
            Ok(h) => h,
            Err(e) => {
                return Err(e);
            },
        };
        if sec_header.service_type != SERVICE_TYPE || !(sec_header.message_subtype == 2
            || sec_header.message_subtype == 4 || sec_header.message_subtype == 8
            || sec_header.message_subtype == 10) {
            return Err(Error::InvalidPacket);
        }
        let req_id = match RequestId::from_bytes(
            vstd::slice::slice_subrange(buffer, 15, 15 + REQ_ID_LEN),
        ) {
            Ok(id) => id,
            Err(e) => {
                return Err(e);
            },
        };
        let err_code = *vstd::slice::slice_index_get(buffer, 19);
        if err_code as usize >= ERR_CODE_COUNT {
            return Err(Error::InvalidPacket);
        }
        let notice_data_len = err_code_data_len(err_code);
        if buffer.len() != SERVICE_FAIL_MIN_LEN + notice_data_len {
            return Err(Error::InvalidPacket);
        }
        let failure_notice = match FailureNotice::from_bytes(
            vstd::slice::slice_subrange(buffer, 19, 20 + notice_data_len),
        ) {
            Ok(n) => n,
            Err(e) => {
                return Err(e);
            },
        };
        let packet_error_control = u16_from_be(
            *vstd::slice::slice_index_get(buffer, buffer.len() - 2),
            *vstd::slice::slice_index_get(buffer, buffer.len() - 1),
        );
        proof {
            assert(buffer@.subrange(19, 20 + spec_err_code_data_len(buffer@[19]) as int).subrange(
                1,
                1 + spec_err_code_data_len(buffer@[19]) as int,
            ) =~= buffer@.subrange(20, 20 + spec_err_code_data_len(buffer@[19]) as int));
        }
        Ok(
            SpacePacket {
                primary_header,
                data: TmPacket {
                    header: sec_header,
                    user_data: TxUserData {
                        packet_error_control,
                        data: ServiceFail { request_id: req_id, failure_notice },
                    },
                },
            },
        )
    }

    /// Serializes the report to its wire bytes.
    pub fn to_bytes(&self) -> (r: Vec<u8>)
        requires
            self.wf(),
        ensures
            r@ == self.spec_to_bytes(),
    {
        let mut bytes: Vec<u8> = Vec::new();
        let ph = self.primary_header.to_bytes();
        push_all(&mut bytes, ph.as_slice());
        let sh = self.data.header.to_bytes();
        push_all(&mut bytes, sh.as_slice());
        let req = self.data.user_data.data.request_id.to_bytes();
        push_all(&mut bytes, req.as_slice());
        let notice = self.data.user_data.data.failure_notice.to_byte();
        push_all(&mut bytes, notice.as_slice());
        let (hi, lo) = u16_to_be(self.data.user_data.packet_error_control);
        bytes.push(hi);
        bytes.push(lo);
        proof {
            assert(bytes@ =~= self.spec_to_bytes());
        }
        bytes
    }

    /// Round-trip law: decoding the wire bytes of a well-formed failure
    /// report whose error data has the table length for its code yields
    /// every field back.
    pub proof fn lemma_round_trip(p: Self)
        requires
            p.wf(),
            p.data.user_data.data.failure_notice.err_data@.len() == spec_err_code_data_len(
                p.data.user_data.data.failure_notice.err_code,
            ),
        ensures
            Self::spec_wire_ok(p.spec_to_bytes()),
            Self::spec_decode_rel(p.spec_to_bytes(), p),
    {
        let b = p.spec_to_bytes();
        let nd = p.data.user_data.data.failure_notice.err_data@.len();
        assert(b.len() == 22 + nd);
        assert(b.subrange(0, 6) =~= p.primary_header.spec_to_bytes());
        assert(b.subrange(6, 15) =~= p.data.header.spec_to_bytes());
        assert(b.subrange(15, 19) =~= p.data.user_data.data.request_id.spec_to_bytes());
        assert(b[19] == p.data.user_data.data.failure_notice.err_code);
        assert(b.subrange(20, 20 + nd as int)
            =~= p.data.user_data.data.failure_notice.err_data@);
        crate::sp::lemma_primary_header_round_trip(p.primary_header);
        lemma_tm_header_round_trip(p.data.header);
        lemma_request_id_round_trip(p.data.user_data.data.request_id);
        crate::bits::lemma_u16_be_round_trip(p.data.user_data.packet_error_control);
    }
}

} // verus!
