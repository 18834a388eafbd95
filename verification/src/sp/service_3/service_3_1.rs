//! TC[3,1]: create a housekeeping parameter report structure.

use crate::bits::{push_all, spec_u16_from_be, spec_u16_hi, spec_u16_lo, u16_from_be, u16_to_be};
use crate::error::Error;
use crate::sp::service_3::SERVICE_TYPE;
use crate::sp::tc::{lemma_tc_header_round_trip, TcPacket, TcPacketHeader, TC_HEADER_LEN};
use crate::sp::{PrimaryHeader, SpacePacket, TxUserData, PEC_LEN, PH_LEN};
use vstd::prelude::*;

verus! {

/// Fixed payload bytes of a TC[3,1]: report id, collection interval,
/// parameter count and the trailing fixed-array count.
pub const SERVICE_3_1_CONST_LEN: usize = 4;

/// Message subtype of a TC[3,1].
pub const SERVICE_3_1_SUBTYPE: u8 = 1;

/// Application data of a TC[3,1] command: the definition of a
/// housekeeping parameter report structure.
#[derive(Debug)]
pub struct Service3_1 {
    /// Identifier of the housekeeping report structure being defined.
    pub housekeeping_report_id: u8,
    /// Collection interval; carried but not interpreted here.
    pub collection_interval: u8,
    /// Declared number of parameter identifiers; must equal the list
    /// length.
    pub n1: u8,
    /// The parameter identifiers to sample for this structure.
    pub parameter_ids: Vec<u8>,
    /// Number of fixed arrays; only 0 is supported.
    pub nfa: u8,
}

impl Service3_1 {
    /// The declared count matches the list and no fixed arrays are
    /// carried.
    pub open spec fn wf(self) -> bool {
        self.n1 == self.parameter_ids@.len() && self.nfa == 0
    }

    /// The payload bytes: fixed fields, then the parameter list, then
    /// the fixed-array count.
    pub open spec fn spec_to_bytes(self) -> Seq<u8> {
        seq![self.housekeeping_report_id, self.collection_interval, self.n1]
            + self.parameter_ids@ + seq![self.nfa]
    }

    /// Whether a byte sequence is a well-shaped TC[3,1] payload.
    pub open spec fn spec_wire_ok(b: Seq<u8>) -> bool {
        &&& b.len() >= SERVICE_3_1_CONST_LEN
        &&& b.len() == SERVICE_3_1_CONST_LEN + b[2]
        &&& b[b.len() - 1] == 0
    }

    /// How a decoded payload relates to its bytes.
    pub open spec fn spec_decode_rel(b: Seq<u8>, s: Self) -> bool {
        &&& s.housekeeping_report_id == b[0]
        &&& s.collection_interval == b[1]
        &&& s.n1 == b[2]
        &&& s.parameter_ids@ == b.subrange(3, b.len() - 1)
        &&& s.nfa == b[b.len() - 1]
    }

    /// Creates a TC[3,1] payload; fails unless the declared count
    /// equals the actual list length.
    pub fn new(
        housekeeping_report_id: u8,
        collection_interval: u8,
        n1: u8,
        parameter_ids: Vec<u8>,
    ) -> (r: Result<Self, Error>)
        ensures
            r is Ok <==> parameter_ids@.len() == n1,
            r matches Ok(s) ==> s.housekeeping_report_id == housekeeping_report_id
                && s.collection_interval == collection_interval && s.n1 == n1 && s.parameter_ids@
                == parameter_ids@ && s.nfa == 0 && s.wf(),
            r is Err ==> r == Err::<Self, Error>(Error::InvalidPacket),
    {
        if parameter_ids.len() != n1 as usize {
            return Err(Error::InvalidPacket);
        }
        Ok(
            Service3_1 {
                housekeeping_report_id,
                collection_interval,
                n1,
                parameter_ids,
                nfa: 0,
            },
        )
    }

    /// Creates a TC[3,1] payload; a named alias of `new`.
    pub fn new_service_3_1(
        housekeeping_report_id: u8,
        collection_interval: u8,
        n1: u8,
        parameter_ids: Vec<u8>,
    ) -> (r: Result<Self, Error>)
        ensures
            r is Ok <==> parameter_ids@.len() == n1,
            r matches Ok(s) ==> s.housekeeping_report_id == housekeeping_report_id
                && s.collection_interval == collection_interval && s.n1 == n1 && s.parameter_ids@
                == parameter_ids@ && s.nfa == 0 && s.wf(),
            r is Err ==> r == Err::<Self, Error>(Error::InvalidPacket),
    {
        Self::new(housekeeping_report_id, collection_interval, n1, parameter_ids)
    }

    /// Decodes a TC[3,1] payload; fails unless the declared count
    /// matches the byte count and the fixed-array count is 0.
    pub fn from_bytes(buffer: &[u8]) -> (r: Result<Self, Error>)
        ensures
            r is Ok <==> Self::spec_wire_ok(buffer@),
            r matches Ok(s) ==> Self::spec_decode_rel(buffer@, s) && s.wf(),
            r is Err ==> r == Err::<Self, Error>(Error::InvalidPacket),
    {
        if buffer.len() < SERVICE_3_1_CONST_LEN {
            return Err(Error::InvalidPacket);
        }
        let n1 = *vstd::slice::slice_index_get(buffer, 2);
        if buffer.len() != SERVICE_3_1_CONST_LEN + n1 as usize {
            return Err(Error::InvalidPacket);
        }
        let nfa = *vstd::slice::slice_index_get(buffer, buffer.len() - 1);
        if nfa != 0 {
            return Err(Error::InvalidPacket);
        }
        let housekeeping_report_id = *vstd::slice::slice_index_get(buffer, 0);
        let collection_interval = *vstd::slice::slice_index_get(buffer, 1);
        let ids = vstd::slice::slice_subrange(buffer, 3, buffer.len() - 1);
        Ok(
            Service3_1 {
                housekeeping_report_id,
                collection_interval,
                n1,
                parameter_ids: vstd::slice::slice_to_vec(ids),
                nfa,
            },
        )
    }

    /// Serializes the payload to its wire bytes.
    pub fn to_bytes(&self) -> (r: Vec<u8>)
        ensures
            r@ == self.spec_to_bytes(),
    {
        let mut bytes: Vec<u8> = Vec::new();
        bytes.push(self.housekeeping_report_id);
        bytes.push(self.collection_interval);
        bytes.push(self.n1);
        push_all(&mut bytes, self.parameter_ids.as_slice());
        bytes.push(self.nfa);
        proof {
            assert(bytes@ =~= self.spec_to_bytes());
        }
        bytes
    }

    /// Round-trip law: the wire bytes of a well-formed TC[3,1] payload
    /// decode to the same payload.
    pub proof fn lemma_round_trip(s: Self)
        requires
            s.wf(),
        ensures
            Self::spec_wire_ok(s.spec_to_bytes()),
            Self::spec_decode_rel(s.spec_to_bytes(), s),
    {
        let b = s.spec_to_bytes();
        assert(b.subrange(3, b.len() - 1) =~= s.parameter_ids@);
    }

    /// Total wire length of a TC[3,1] packet that declares `n1`
    /// parameters.
    pub fn get_packet_len(n1: u8) -> (r: usize)
        ensures
            r == SERVICE_3_1_CONST_LEN + n1 + TC_HEADER_LEN + PH_LEN + PEC_LEN,
    {
        SERVICE_3_1_CONST_LEN + n1 as usize + TC_HEADER_LEN + PH_LEN + PEC_LEN
    }
}

impl crate::sp::tc::TcData for Service3_1 {

}

impl SpacePacket<TcPacket<Service3_1>> {
    /// Shape of a valid TC[3,1] packet: a version-0 telecommand with a
    /// secondary header, service type 3, subtype 1, a well-formed
    /// payload and the data length the payload forces.
    pub open spec fn wf(self) -> bool {
        &&& self.primary_header.wf()
        &&& self.data.header.wf()
        &&& self.data.user_data.data.wf()
        &&& self.primary_header.ver_no == 0
        &&& self.primary_header.type_flag
        &&& self.primary_header.sec_header_flag
        &&& self.primary_header.data_len == 10 + self.data.user_data.data.parameter_ids@.len()
        &&& self.data.header.service_type == SERVICE_TYPE
        &&& self.data.header.message_subtype == SERVICE_3_1_SUBTYPE
    }

    /// The wire bytes of the packet.
    pub open spec fn spec_to_bytes(self) -> Seq<u8> {
        self.primary_header.spec_to_bytes() + self.data.header.spec_to_bytes()
            + self.data.user_data.data.spec_to_bytes() + seq![
            spec_u16_hi(self.data.user_data.packet_error_control),
            spec_u16_lo(self.data.user_data.packet_error_control),
        ]
    }

    /// Whether a byte sequence is a well-shaped TC[3,1] packet.
    pub open spec fn spec_wire_ok(b: Seq<u8>) -> bool {
        let ph = PrimaryHeader::spec_parse(b.subrange(0, 6));
        let sh = TcPacketHeader::spec_parse(b.subrange(6, 11));
        &&& b.len() >= PH_LEN + TC_HEADER_LEN + SERVICE_3_1_CONST_LEN + PEC_LEN
        &&& ph.ver_no == 0
        &&& ph.sec_header_flag
        &&& ph.type_flag
        &&& ph.data_len == b.len() - 7
        &&& sh.service_type == SERVICE_TYPE
        &&& sh.message_subtype == SERVICE_3_1_SUBTYPE
        &&& Service3_1::spec_wire_ok(b.subrange(11, b.len() - 2))
    }

    /// How a decoded packet relates to the byte sequence it came from.
    pub open spec fn spec_decode_rel(b: Seq<u8>, p: Self) -> bool {
        &&& p.primary_header == PrimaryHeader::spec_parse(b.subrange(0, 6))
        &&& p.data.header == TcPacketHeader::spec_parse(b.subrange(6, 11))
        &&& Service3_1::spec_decode_rel(b.subrange(11, b.len() - 2), p.data.user_data.data)
        &&& p.data.user_data.packet_error_control == spec_u16_from_be(
            b[b.len() - 2],
            b[b.len() - 1],
        )
    }

    /// The error that decoding a malformed byte sequence reports.
    pub open spec fn spec_decode_err(b: Seq<u8>) -> Error {
        if b.len() >= PH_LEN + TC_HEADER_LEN + SERVICE_3_1_CONST_LEN + PEC_LEN
            && PrimaryHeader::spec_parse(b.subrange(0, 6)).ver_no != 0 {
            Error::InvalidVersionNo
        } else {
            Error::InvalidPacket
        }
    }

    /// What `new` builds from its arguments.
    pub open spec fn spec_new_ok(
        p: Self,
        apid: u16,
        packet_name: u16,
        housekeeping_report_id: u8,
        collection_interval: u8,
        n1: u8,
        parameter_ids: Seq<u8>,
    ) -> bool {
        &&& p.primary_header == (PrimaryHeader {
            ver_no: 0,
            type_flag: true,
            sec_header_flag: true,
            apid,
            seq_flags: (true, true),
            packet_name,
            data_len: (10 + n1) as u16,
        })
        &&& p.data.header == (TcPacketHeader {
            pus_ver_no: 2,
            acknowledgement_flags: (false, false, false, false),
            service_type: SERVICE_TYPE,
            message_subtype: SERVICE_3_1_SUBTYPE,
            source_id: 0,
        })
        &&& p.data.user_data.packet_error_control == 0
        &&& p.data.user_data.data.housekeeping_report_id == housekeeping_report_id
        &&& p.data.user_data.data.collection_interval == collection_interval
        &&& p.data.user_data.data.n1 == n1
        &&& p.data.user_data.data.parameter_ids@ == parameter_ids
        &&& p.data.user_data.data.nfa == 0
    }

    /// Builds a TC[3,1] packet; a named alias of `new`.
    pub fn new_service_3_1(
        apid: u16,
        packet_name: u16,
        housekeeping_report_id: u8,
        collection_interval: u8,
        n1: u8,
        parameter_ids: Vec<u8>,
    ) -> (r: Result<Self, Error>)
        ensures
            r is Ok <==> parameter_ids@.len() == n1 && apid < 2048 && packet_name < 16384,
            r matches Ok(p) ==> Self::spec_new_ok(
                p,
                apid,
                packet_name,
                housekeeping_report_id,
                collection_interval,
                n1,
                parameter_ids@,
            ) && p.wf(),
            r is Err ==> r == Err::<Self, Error>(Error::InvalidPacket),
    {
        Self::new(apid, packet_name, housekeeping_report_id, collection_interval, n1, parameter_ids)
    }

    /// Builds a TC[3,1] packet; fails unless the declared count equals
    /// the list length and both header fields are within bounds.
    pub fn new(
        apid: u16,
        packet_name: u16,
        housekeeping_report_id: u8,
        collection_interval: u8,
        n1: u8,
        parameter_ids: Vec<u8>,
    ) -> (r: Result<Self, Error>)
        ensures
            r is Ok <==> parameter_ids@.len() == n1 && apid < 2048 && packet_name < 16384,
            r matches Ok(p) ==> Self::spec_new_ok(
                p,
                apid,
                packet_name,
                housekeeping_report_id,
                collection_interval,
                n1,
                parameter_ids@,
            ) && p.wf(),
            r is Err ==> r == Err::<Self, Error>(Error::InvalidPacket),
    {
        if parameter_ids.len() != n1 as usize {
            return Err(Error::InvalidPacket);
        }
        let data_len = Service3_1::get_packet_len(n1);
        let primary_header = match PrimaryHeader::new(
            0,
            true,
            true,
            apid,
            (true, true),
            packet_name,
            (data_len - PH_LEN - 1) as u16,
        ) {
            Ok(h) => h,
            Err(e) => {
                return Err(e);
            },
        };
        let sec_header = match TcPacketHeader::new(
            (false, false, false, false),
            SERVICE_TYPE,
            SERVICE_3_1_SUBTYPE,
            0,
        ) {
            Ok(h) => h,
            Err(e) => {
                return Err(e);
            },
        };
        let data = match Service3_1::new(
            housekeeping_report_id,
            collection_interval,
            n1,
            parameter_ids,
        ) {
            Ok(d) => d,
            Err(e) => {
                return Err(e);
            },
        };
        Ok(
            SpacePacket {
                primary_header,
                data: TcPacket {
                    header: sec_header,
                    user_data: TxUserData { packet_error_control: 0, data },
                },
            },
        )
    }

    /// Serializes the packet to its wire bytes.
    pub fn to_bytes(&self) -> (r: Vec<u8>)
        requires
            self.wf(),
        ensures
            r@ == self.spec_to_bytes(),
    {
        let mut bytes: Vec<u8> = Vec::new();
        let ph = self.primary_header.to_bytes();
        push_all(&mut bytes, ph.as_slice());
        let sh = self.data.header.to_bytes();
        push_all(&mut bytes, sh.as_slice());
        let payload = self.data.user_data.data.to_bytes();
        push_all(&mut bytes, payload.as_slice());
        let (hi, lo) = u16_to_be(self.data.user_data.packet_error_control);
        bytes.push(hi);
        bytes.push(lo);
        proof {
            assert(bytes@ =~= self.spec_to_bytes());
        }
        bytes
    }

    /// Decodes a TC[3,1] packet; any shape mismatch is rejected.
    pub fn from_bytes(buffer: &[u8]) -> (r: Result<Self, Error>)
        ensures
            r is Ok <==> Self::spec_wire_ok(buffer@),
            r matches Ok(p) ==> Self::spec_decode_rel(buffer@, p) && p.wf(),
            r matches Err(e) ==> e == Self::spec_decode_err(buffer@),
    {
        if buffer.len() < PH_LEN + TC_HEADER_LEN + SERVICE_3_1_CONST_LEN + PEC_LEN {
            return Err(Error::InvalidPacket);
        }
        let primary_header = match PrimaryHeader::from_bytes(
            vstd::slice::slice_subrange(buffer, 0, PH_LEN),
        ) {
            Ok(h) => h,
            Err(e) => {
                return Err(e);
            },
        };
        if !primary_header.sec_header_flag || !primary_header.type_flag
            || primary_header.data_len as usize != buffer.len() - 7 {
            return Err(Error::InvalidPacket);
        }
        let sec_header = match TcPacketHeader::from_bytes(
            vstd::slice::slice_subrange(buffer, PH_LEN, PH_LEN + TC_HEADER_LEN),
        ) {
            Ok(h) => h,
            Err(e) => {
                return Err(e);
            },
        };
        if sec_header.service_type != SERVICE_TYPE || sec_header.message_subtype
            != SERVICE_3_1_SUBTYPE {
            return Err(Error::InvalidPacket);
        }
        let service_data = match Service3_1::from_bytes(
            vstd::slice::slice_subrange(buffer, 11, buffer.len() - PEC_LEN),
        ) {
            Ok(d) => d,
            Err(e) => {
                return Err(e);
            },
        };
        let packet_error_control = u16_from_be(
            *vstd::slice::slice_index_get(buffer, buffer.len() - 2),
            *vstd::slice::slice_index_get(buffer, buffer.len() - 1),
        );
        Ok(
            SpacePacket {
                primary_header,
                data: TcPacket {
                    header: sec_header,
                    user_data: TxUserData { packet_error_control, data: service_data },
                },
            },
        )
    }

    /// Identifier of the housekeeping report structure this command
    /// defines.
    pub fn hk_id(&self) -> (r: u8)
        ensures
            r == self.data.user_data.data.housekeeping_report_id,
    {
        self.data.user_data.data.housekeeping_report_id
    }

    /// The parameter identifiers this command declares.
    pub fn get_params(&self) -> (r: &Vec<u8>)
        ensures
            r@ == self.data.user_data.data.parameter_ids@,
    {
        &self.data.user_data.data.parameter_ids
    }

    /// Round-trip law: decoding the wire bytes of any well-formed
    /// TC[3,1] packet yields every field back.
    pub proof fn lemma_round_trip(p: Self)
        requires
            p.wf(),
        ensures
            Self::spec_wire_ok(p.spec_to_bytes()),
            Self::spec_decode_rel(p.spec_to_bytes(), p),
    {
        let b = p.spec_to_bytes();
        let payload = p.data.user_data.data.spec_to_bytes();
        assert(b.subrange(0, 6) =~= p.primary_header.spec_to_bytes());
        assert(b.subrange(6, 11) =~= p.data.header.spec_to_bytes());
        assert(b.subrange(11, b.len() - 2) =~= payload);
        crate::sp::lemma_primary_header_round_trip(p.primary_header);
        lemma_tc_header_round_trip(p.data.header);
        Service3_1::lemma_round_trip(p.data.user_data.data);
        crate::bits::lemma_u16_be_round_trip(p.data.user_data.packet_error_control);
    }
}

} // verus!
