//! TC[3,27]: generate a one-shot report for housekeeping parameter
//! report structures.

use crate::bits::{push_all, spec_u16_from_be, spec_u16_hi, spec_u16_lo, u16_from_be, u16_to_be};
use crate::error::Error;
use crate::sp::service_3::SERVICE_TYPE;
use crate::sp::tc::{lemma_tc_header_round_trip, TcPacket, TcPacketHeader, TC_HEADER_LEN};
use crate::sp::{PrimaryHeader, SpacePacket, TxUserData, PEC_LEN, PH_LEN};
use vstd::prelude::*;

verus! {

/// Fixed payload bytes of a TC[3,27]: the report-id count.
pub const SERVICE_3_27_CONST_LEN: usize = 1;

/// Message subtype of a TC[3,27].
pub const SERVICE_3_27_SUBTYPE: u8 = 27;

/// Application data of a TC[3,27] command: the housekeeping report
/// structures to report once.
#[derive(Debug)]
pub struct Service3_27 {
    /// Declared number of report identifiers; must equal the list
    /// length.
    pub n: u8,
    /// The housekeeping report structure identifiers to report.
    pub report_ids: Vec<u8>,
}

impl Service3_27 {
    /// The declared count matches the list.
    pub open spec fn wf(self) -> bool {
        self.n == self.report_ids@.len()
    }

    /// The payload bytes: the count, then the identifier list.
    pub open spec fn spec_to_bytes(self) -> Seq<u8> {
        seq![self.n] + self.report_ids@
    }

    /// Whether a byte sequence is a well-shaped TC[3,27] payload.
    pub open spec fn spec_wire_ok(b: Seq<u8>) -> bool {
        b.len() >= SERVICE_3_27_CONST_LEN && b.len() == SERVICE_3_27_CONST_LEN + b[0]
    }

    /// How a decoded payload relates to its bytes.
    pub open spec fn spec_decode_rel(b: Seq<u8>, s: Self) -> bool {
        s.n == b[0] && s.report_ids@ == b.subrange(1, b.len() as int)
    }

    /// Creates a TC[3,27] payload; fails unless the declared count
    /// equals the actual list length.
    pub fn new(n: u8, report_ids: Vec<u8>) -> (r: Result<Self, Error>)
        ensures
            r is Ok <==> report_ids@.len() == n,
            r matches Ok(s) ==> s.n == n && s.report_ids@ == report_ids@ && s.wf(),
            r is Err ==> r == Err::<Self, Error>(Error::InvalidPacket),
    {
        if report_ids.len() != n as usize {
            return Err(Error::InvalidPacket);
        }
        Ok(Service3_27 { n, report_ids })
    }

    /// Creates a TC[3,27] payload; a named alias of `new`.
    pub fn new_service_3_27(n: u8, report_ids: Vec<u8>) -> (r: Result<Self, Error>)
        ensures
            r is Ok <==> report_ids@.len() == n,
            r matches Ok(s) ==> s.n == n && s.report_ids@ == report_ids@ && s.wf(),
            r is Err ==> r == Err::<Self, Error>(Error::InvalidPacket),
    {
        Self::new(n, report_ids)
    }

    /// Decodes a TC[3,27] payload; fails unless the declared count
    /// matches the byte count.
    pub fn from_bytes(buffer: &[u8]) -> (r: Result<Self, Error>)
        ensures
            r is Ok <==> Self::spec_wire_ok(buffer@),
            r matches Ok(s) ==> Self::spec_decode_rel(buffer@, s) && s.wf(),
            r is Err ==> r == Err::<Self, Error>(Error::InvalidPacket),
    {
        if buffer.len() < SERVICE_3_27_CONST_LEN {
            return Err(Error::InvalidPacket);
        }
        let n = *vstd::slice::slice_index_get(buffer, 0);
        if buffer.len() != SERVICE_3_27_CONST_LEN + n as usize {
            return Err(Error::InvalidPacket);
        }
        let ids = vstd::slice::slice_subrange(buffer, 1, buffer.len());
        Ok(Service3_27 { n, report_ids: vstd::slice::slice_to_vec(ids) })
    }

    /// Serializes the payload to its wire bytes.
    pub fn to_bytes(&self) -> (r: Vec<u8>)
        ensures
            r@ == self.spec_to_bytes(),
    {
        let mut bytes: Vec<u8> = Vec::new();
        bytes.push(self.n);
        push_all(&mut bytes, self.report_ids.as_slice());
        proof {
            assert(bytes@ =~= self.spec_to_bytes());
        }
        bytes
    }

    /// Round-trip law: the wire bytes of a well-formed TC[3,27] payload
    /// decode to the same payload.
    pub proof fn lemma_round_trip(s: Self)
        requires
            s.wf(),
        ensures
            Self::spec_wire_ok(s.spec_to_bytes()),
            Self::spec_decode_rel(s.spec_to_bytes(), s),
    {
        let b = s.spec_to_bytes();
        assert(b.subrange(1, b.len() as int) =~= s.report_ids@);
    }

    /// Total wire length of a TC[3,27] packet that declares `n`
    /// report identifiers.
    pub fn get_packet_len(n: u8) -> (r: usize)
        ensures
            r == SERVICE_3_27_CONST_LEN + n + TC_HEADER_LEN + PH_LEN + PEC_LEN,
    {
        SERVICE_3_27_CONST_LEN + n as usize + TC_HEADER_LEN + PH_LEN + PEC_LEN
    }
}

impl crate::sp::tc::TcData for Service3_27 {

}

impl SpacePacket<TcPacket<Service3_27>> {
    /// Shape of a valid TC[3,27] packet: a version-0 telecommand with a
    /// secondary header, service type 3, subtype 27, a well-formed
    /// payload and the data length the payload forces.
    pub open spec fn wf(self) -> bool {
        &&& self.primary_header.wf()
        &&& self.data.header.wf()
        &&& self.data.user_data.data.wf()
        &&& self.primary_header.ver_no == 0
        &&& self.primary_header.type_flag
        &&& self.primary_header.sec_header_flag
        &&& self.primary_header.data_len == 7 + self.data.user_data.data.report_ids@.len()
        &&& self.data.header.service_type == SERVICE_TYPE
        &&& self.data.header.message_subtype == SERVICE_3_27_SUBTYPE
    }

    /// The wire bytes of the packet.
    pub open spec fn spec_to_bytes(self) -> Seq<u8> {
        self.primary_header.spec_to_bytes() + self.data.header.spec_to_bytes()
            + self.data.user_data.data.spec_to_bytes() + seq![
            spec_u16_hi(self.data.user_data.packet_error_control),
            spec_u16_lo(self.data.user_data.packet_error_control),
        ]
    }

    /// Whether a byte sequence is a well-shaped TC[3,27] packet.
    pub open spec fn spec_wire_ok(b: Seq<u8>) -> bool {
        let ph = PrimaryHeader::spec_parse(b.subrange(0, 6));
        let sh = TcPacketHeader::spec_parse(b.subrange(6, 11));
        &&& b.len() >= PH_LEN + TC_HEADER_LEN + SERVICE_3_27_CONST_LEN + PEC_LEN
        &&& ph.ver_no == 0
        &&& ph.sec_header_flag
        &&& ph.type_flag
        &&& ph.data_len == b.len() - 7
        &&& sh.service_type == SERVICE_TYPE
        &&& sh.message_subtype == SERVICE_3_27_SUBTYPE
        &&& Service3_27::spec_wire_ok(b.subrange(11, b.len() - 2))
    }

    /// How a decoded packet relates to the byte sequence it came from.
    pub open spec fn spec_decode_rel(b: Seq<u8>, p: Self) -> bool {
        &&& p.primary_header == PrimaryHeader::spec_parse(b.subrange(0, 6))
        &&& p.data.header == TcPacketHeader::spec_parse(b.subrange(6, 11))
        &&& Service3_27::spec_decode_rel(b.subrange(11, b.len() - 2), p.data.user_data.data)
        &&& p.data.user_data.packet_error_control == spec_u16_from_be(
            b[b.len() - 2],
            b[b.len() - 1],
        )
    }

    /// The error that decoding a malformed byte sequence reports.
    pub open spec fn spec_decode_err(b: Seq<u8>) -> Error {
        if b.len() >= PH_LEN + TC_HEADER_LEN + SERVICE_3_27_CONST_LEN + PEC_LEN
            && PrimaryHeader::spec_parse(b.subrange(0, 6)).ver_no != 0 {
            Error::InvalidVersionNo
        } else {
            Error::InvalidPacket
        }
    }

    /// What `new` builds from its arguments.
    pub open spec fn spec_new_ok(
        p: Self,
        apid: u16,
        packet_name: u16,
        n: u8,
        report_ids: Seq<u8>,
    ) -> bool {
        &&& p.primary_header == (PrimaryHeader {
            ver_no: 0,
            type_flag: true,
            sec_header_flag: true,
            apid,
            seq_flags: (true, true),
            packet_name,
            data_len: (7 + n) as u16,
        })
        &&& p.data.header == (TcPacketHeader {
            pus_ver_no: 2,
            acknowledgement_flags: (false, false, false, false),
            service_type: SERVICE_TYPE,
            message_subtype: SERVICE_3_27_SUBTYPE,
            source_id: 0,
        })
        &&& p.data.user_data.packet_error_control == 0
        &&& p.data.user_data.data.n == n
        &&& p.data.user_data.data.report_ids@ == report_ids
    }

    /// Builds a TC[3,27] packet; a named alias of `new`.
    pub fn new_service_3_27(apid: u16, packet_name: u16, n: u8, report_ids: Vec<u8>) -> (r: Result<
        Self,
        Error,
    >)
        ensures
            r is Ok <==> report_ids@.len() == n && apid < 2048 && packet_name < 16384,
            r matches Ok(p) ==> Self::spec_new_ok(p, apid, packet_name, n, report_ids@) && p.wf(),
            r is Err ==> r == Err::<Self, Error>(Error::InvalidPacket),
    {
        Self::new(apid, packet_name, n, report_ids)
    }

    /// Builds a TC[3,27] packet; fails unless the declared count equals
    /// the list length and both header fields are within bounds.
    pub fn new(apid: u16, packet_name: u16, n: u8, report_ids: Vec<u8>) -> (r: Result<Self, Error>)
        ensures
            r is Ok <==> report_ids@.len() == n && apid < 2048 && packet_name < 16384,
            r matches Ok(p) ==> Self::spec_new_ok(p, apid, packet_name, n, report_ids@) && p.wf(),
            r is Err ==> r == Err::<Self, Error>(Error::InvalidPacket),
    {
        if report_ids.len() != n as usize {
            return Err(Error::InvalidPacket);
        }
        let data_len = Service3_27::get_packet_len(n);
        let primary_header = match PrimaryHeader::new(
            0,
            true,
            true,
            apid,
            (true, true),
            packet_name,
            (data_len - PH_LEN - 1) as u16,
        ) {
            Ok(h) => h,
            Err(e) => {
                return Err(e);
            },
        };
        let sec_header = match TcPacketHeader::new(
            (false, false, false, false),
            SERVICE_TYPE,
            SERVICE_3_27_SUBTYPE,
            0,
        ) {
            Ok(h) => h,
            Err(e) => {
                return Err(e);
            },
        };
        let data = match Service3_27::new(n, report_ids) {
            Ok(d) => d,
            Err(e) => {
                return Err(e);
            },
        };
        Ok(
            SpacePacket {
                primary_header,
                data: TcPacket {
                    header: sec_header,
                    user_data: TxUserData { packet_error_control: 0, data },
                },
            },
        )
    }

    /// Serializes the packet to its wire bytes.
    pub fn to_bytes(&self) -> (r: Vec<u8>)
        requires
            self.wf(),
        ensures
            r@ == self.spec_to_bytes(),
    {
        let mut bytes: Vec<u8> = Vec::new();
        let ph = self.primary_header.to_bytes();
        push_all(&mut bytes, ph.as_slice());
        let sh = self.data.header.to_bytes();
        push_all(&mut bytes, sh.as_slice());
        let payload = self.data.user_data.data.to_bytes();
        push_all(&mut bytes, payload.as_slice());
        let (hi, lo) = u16_to_be(self.data.user_data.packet_error_control);
        bytes.push(hi);
        bytes.push(lo);
        proof {
            assert(bytes@ =~= self.spec_to_bytes());
        }
        bytes
    }

    /// Decodes a TC[3,27] packet; any shape mismatch is rejected.
    pub fn from_bytes(buffer: &[u8]) -> (r: Result<Self, Error>)
        ensures
            r is Ok <==> Self::spec_wire_ok(buffer@),
            r matches Ok(p) ==> Self::spec_decode_rel(buffer@, p) && p.wf(),
            r matches Err(e) ==> e == Self::spec_decode_err(buffer@),
    {
        if buffer.len() < PH_LEN + TC_HEADER_LEN + SERVICE_3_27_CONST_LEN + PEC_LEN {
            return Err(Error::InvalidPacket);
        }
        let primary_header = match PrimaryHeader::from_bytes(
            vstd::slice::slice_subrange(buffer, 0, PH_LEN),
        ) {
            Ok(h) => h,
            Err(e) => {
                return Err(e);
            },
        };
        if !primary_header.sec_header_flag || !primary_header.type_flag
            || primary_header.data_len as usize != buffer.len() - 7 {
            return Err(Error::InvalidPacket);
        }
        let sec_header = match TcPacketHeader::from_bytes(
            vstd::slice::slice_subrange(buffer, PH_LEN, PH_LEN + TC_HEADER_LEN),
        ) {
            Ok(h) => h,
            Err(e) => {
                return Err(e);
            },
        };
        if sec_header.service_type != SERVICE_TYPE || sec_header.message_subtype
            != SERVICE_3_27_SUBTYPE {
            return Err(Error::InvalidPacket);
        }
        let service_data = match Service3_27::from_bytes(
            vstd::slice::slice_subrange(buffer, 11, buffer.len() - PEC_LEN),
        ) {
            Ok(d) => d,
            Err(e) => {
                return Err(e);
            },
        };
        let packet_error_control = u16_from_be(
            *vstd::slice::slice_index_get(buffer, buffer.len() - 2),
            *vstd::slice::slice_index_get(buffer, buffer.len() - 1),
        );
        Ok(
            SpacePacket {
                primary_header,
                data: TcPacket {
                    header: sec_header,
                    user_data: TxUserData { packet_error_control, data: service_data },
                },
            },
        )
    }

    /// The housekeeping report structure identifiers this command asks
    /// to report.
    pub fn get_hk_report_struct_ids(&self) -> (r: &Vec<u8>)
        ensures
            r@ == self.data.user_data.data.report_ids@,
    {
        &self.data.user_data.data.report_ids
    }

    /// Round-trip law: decoding the wire bytes of any well-formed
    /// TC[3,27] packet yields every field back.
    pub proof fn lemma_round_trip(p: Self)
        requires
            p.wf(),
        ensures
            Self::spec_wire_ok(p.spec_to_bytes()),
            Self::spec_decode_rel(p.spec_to_bytes(), p),
    {
        let b = p.spec_to_bytes();
        assert(b.subrange(0, 6) =~= p.primary_header.spec_to_bytes());
        assert(b.subrange(6, 11) =~= p.data.header.spec_to_bytes());
        assert(b.subrange(11, b.len() - 2) =~= p.data.user_data.data.spec_to_bytes());
        crate::sp::lemma_primary_header_round_trip(p.primary_header);
        lemma_tc_header_round_trip(p.data.header);
        Service3_27::lemma_round_trip(p.data.user_data.data);
        crate::bits::lemma_u16_be_round_trip(p.data.user_data.packet_error_control);
    }
}

} // verus!
