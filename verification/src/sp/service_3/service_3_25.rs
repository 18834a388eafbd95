//! TM[3,25]: housekeeping parameter report. Carries a housekeeping
//! structure identifier and the sampled parameter value bytes.

use crate::bits::{push_all, spec_u16_from_be, spec_u16_hi, spec_u16_lo, u16_from_be, u16_to_be};
use crate::error::Error;
use crate::sp::service_3::SERVICE_TYPE;
use crate::sp::tm::{lemma_tm_header_round_trip, TmData, TmPacket, TmPacketHeader, TM_HEADER_LEN};
use crate::sp::{PrimaryHeader, SpacePacket, TxUserData, PEC_LEN, PH_LEN};
use vstd::prelude::*;

verus! {

/// Fixed payload bytes of a TM[3,25]: the housekeeping identifier.
pub const SERVICE_3_25_CONST_LEN: usize = 1;

/// Message subtype of a TM[3,25].
pub const SERVICE_3_25_SUBTYPE: u8 = 25;

/// Source data of a TM[3,25] report: the housekeeping structure it
/// reports and the sampled value bytes.
#[derive(Debug)]
pub struct Service3_25 {
    /// Identifier of the housekeeping report structure reported.
    pub housekeeping_id: u8,
    /// The sampled parameter values, serialized by the report
    /// generator.
    pub parameter_value: Vec<u8>,
}

impl Service3_25 {
    /// The payload bytes: the identifier, then the value bytes.
    pub open spec fn spec_to_bytes(self) -> Seq<u8> {
        seq![self.housekeeping_id] + self.parameter_value@
    }

    /// Creates a TM[3,25] payload; rejects an empty value blob.
    pub fn new(housekeeping_id: u8, parameter_value: Vec<u8>) -> (r: Result<Self, Error>)
        ensures
            r is Ok <==> parameter_value@.len() > 0,
            r matches Ok(s) ==> s.housekeeping_id == housekeeping_id && s.parameter_value@
                == parameter_value@,
            r is Err ==> r == Err::<Self, Error>(Error::InvalidPacket),
    {
        if parameter_value.len() == 0 {
            return Err(Error::InvalidPacket);
        }
        Ok(Service3_25 { housekeeping_id, parameter_value })
    }

    /// Creates a TM[3,25] payload; a named alias of `new`.
    pub fn new_service_3_25(housekeeping_id: u8, parameter_value: Vec<u8>) -> (r: Result<
        Self,
        Error,
    >)
        ensures
            r is Ok <==> parameter_value@.len() > 0,
            r matches Ok(s) ==> s.housekeeping_id == housekeeping_id && s.parameter_value@
                == parameter_value@,
            r is Err ==> r == Err::<Self, Error>(Error::InvalidPacket),
    {
        Self::new(housekeeping_id, parameter_value)
    }

    /// Decodes a TM[3,25] payload; fails only on an empty slice.
    pub fn from_bytes(buffer: &[u8]) -> (r: Result<Self, Error>)
        ensures
            r is Ok <==> buffer@.len() >= SERVICE_3_25_CONST_LEN,
            r matches Ok(s) ==> s.housekeeping_id == buffer@[0] && s.parameter_value@
                == buffer@.subrange(1, buffer@.len() as int),
            r is Err ==> r == Err::<Self, Error>(Error::InvalidPacket),
    {
        if buffer.len() < SERVICE_3_25_CONST_LEN {
            return Err(Error::InvalidPacket);
        }
        let housekeeping_id = *vstd::slice::slice_index_get(buffer, 0);
        let value = vstd::slice::slice_subrange(buffer, 1, buffer.len());
        Ok(Service3_25 { housekeeping_id, parameter_value: vstd::slice::slice_to_vec(value) })
    }

    /// Serializes the payload to its wire bytes.
    pub fn to_bytes(&self) -> (r: Vec<u8>)
        ensures
            r@ == self.spec_to_bytes(),
    {
        let mut bytes: Vec<u8> = Vec::new();
        bytes.push(self.housekeeping_id);
        push_all(&mut bytes, self.parameter_value.as_slice());
        proof {
            assert(bytes@ =~= self.spec_to_bytes());
        }
        bytes
    }

    /// Total wire length of a TM[3,25] packet carrying `parameter_value`.
    pub fn get_packet_len(parameter_value: &Vec<u8>) -> (r: usize)
        requires
            parameter_value@.len() <= 65524,
        ensures
            r == SERVICE_3_25_CONST_LEN + parameter_value@.len() + TM_HEADER_LEN + PH_LEN + PEC_LEN,
    {
        SERVICE_3_25_CONST_LEN + parameter_value.len() + TM_HEADER_LEN + PH_LEN + PEC_LEN
    }
}

impl TmData for Service3_25 {

}

impl SpacePacket<TmPacket<Service3_25>> {
    /// Shape of a valid TM[3,25] packet: a version-0 telemetry packet
    /// with a secondary header, service type 3, subtype 25, and the
    /// data length the payload forces.
    pub open spec fn wf(self) -> bool {
        &&& self.primary_header.wf()
        &&& self.data.header.wf()
        &&& self.primary_header.ver_no == 0
        &&& !self.primary_header.type_flag
        &&& self.primary_header.sec_header_flag
        &&& self.primary_header.data_len == 11 + self.data.user_data.data.parameter_value@.len()
        &&& self.data.header.service_type == SERVICE_TYPE
        &&& self.data.header.message_subtype == SERVICE_3_25_SUBTYPE
    }

    /// The wire bytes of the packet.
    pub open spec fn spec_to_bytes(self) -> Seq<u8> {
        self.primary_header.spec_to_bytes() + self.data.header.spec_to_bytes()
            + self.data.user_data.data.spec_to_bytes() + seq![
            spec_u16_hi(self.data.user_data.packet_error_control),
            spec_u16_lo(self.data.user_data.packet_error_control),
        ]
    }

    /// Whether a byte sequence is a well-shaped TM[3,25] packet.
    pub open spec fn spec_wire_ok(b: Seq<u8>) -> bool {
        let ph = PrimaryHeader::spec_parse(b.subrange(0, 6));
        let sh = TmPacketHeader::spec_parse(b.subrange(6, 15));
        &&& b.len() >= PH_LEN + TM_HEADER_LEN + SERVICE_3_25_CONST_LEN + PEC_LEN
        &&& ph.ver_no == 0
        &&& ph.sec_header_flag
        &&& !ph.type_flag
        &&& ph.data_len == b.len() - 7
        &&& sh.service_type == SERVICE_TYPE
        &&& sh.message_subtype == SERVICE_3_25_SUBTYPE
    }

    /// How a decoded packet relates to the byte sequence it came from.
    pub open spec fn spec_decode_rel(b: Seq<u8>, p: Self) -> bool {
        &&& p.primary_header == PrimaryHeader::spec_parse(b.subrange(0, 6))
        &&& p.data.header == TmPacketHeader::spec_parse(b.subrange(6, 15))
        &&& p.data.user_data.data.housekeeping_id == b[15]
        &&& p.data.user_data.data.parameter_value@ == b.subrange(16, b.len() - 2)
        &&& p.data.user_data.packet_error_control == spec_u16_from_be(
            b[b.len() - 2],
            b[b.len() - 1],
        )
    }

    /// The error that decoding a malformed byte sequence reports.
    pub open spec fn spec_decode_err(b: Seq<u8>) -> Error {
        if b.len() >= PH_LEN + TM_HEADER_LEN + SERVICE_3_25_CONST_LEN + PEC_LEN
            && PrimaryHeader::spec_parse(b.subrange(0, 6)).ver_no != 0 {
            Error::InvalidVersionNo
        } else {
            Error::InvalidPacket
        }
    }

    /// What `new` builds from its arguments. The destination identifier
    /// doubles as the packet's application process identifier.
    pub open spec fn spec_new_ok(
        p: Self,
        destination_id: u16,
        packet_name: u16,
        housekeeping_id: u8,
        parameter_value: Seq<u8>,
    ) -> bool {
        &&& p.primary_header == (PrimaryHeader {
            ver_no: 0,
            type_flag: false,
            sec_header_flag: true,
            apid: destination_id,
            seq_flags: (true, true),
            packet_name,
            data_len: (11 + parameter_value.len()) as u16,
        })
        &&& p.data.header == (TmPacketHeader {
            pus_ver_no: 2,
            time_ref_status: 0,
            service_type: SERVICE_TYPE,
            message_subtype: SERVICE_3_25_SUBTYPE,
            message_type_counter: 0,
            destination_id,
            abs_time: 0,
        })
        &&& p.data.user_data.packet_error_control == 0
        &&& p.data.user_data.data.housekeeping_id == housekeeping_id
        &&& p.data.user_data.data.parameter_value@ == parameter_value
    }

    /// Builds a TM[3,25] packet; a named alias of `new`.
    pub fn new_service_3_25(
        destination_id: u16,
        packet_name: u16,
        housekeeping_id: u8,
        parameter_value: Vec<u8>,
    ) -> (r: Result<Self, Error>)
        ensures
            r is Ok <==> destination_id < 2048 && packet_name < 16384 && 0 < parameter_value@.len()
                <= 65524,
            r matches Ok(p) ==> Self::spec_new_ok(
                p,
                destination_id,
                packet_name,
                housekeeping_id,
                parameter_value@,
            ) && p.wf(),
            r is Err ==> r == Err::<Self, Error>(Error::InvalidPacket),
    {
        Self::new(destination_id, packet_name, housekeeping_id, parameter_value)
    }

    /// Builds a TM[3,25] packet; rejects an empty value blob, a value
    /// too long for the length field, and header fields out of bounds.
    pub fn new(
        destination_id: u16,
        packet_name: u16,
        housekeeping_id: u8,
        parameter_value: Vec<u8>,
    ) -> (r: Result<Self, Error>)
        ensures
            r is Ok <==> destination_id < 2048 && packet_name < 16384 && 0 < parameter_value@.len()
                <= 65524,
            r matches Ok(p) ==> Self::spec_new_ok(
                p,
                destination_id,
                packet_name,
                housekeeping_id,
                parameter_value@,
            ) && p.wf(),
            r is Err ==> r == Err::<Self, Error>(Error::InvalidPacket),
    {
        if parameter_value.len() > 65524 {
            return Err(Error::InvalidPacket);
        }
        let data_len = Service3_25::get_packet_len(&parameter_value);
        let primary_header = match PrimaryHeader::new(
            0,
            false,
            true,
            destination_id,
            (true, true),
            packet_name,
            (data_len - PH_LEN - 1) as u16,
        ) {
            Ok(h) => h,
            Err(e) => {
                return Err(e);
            },
        };
        let sec_header = match TmPacketHeader::new(
            SERVICE_TYPE,
            SERVICE_3_25_SUBTYPE,
            destination_id,
        ) {
            Ok(h) => h,
            Err(e) => {
                return Err(e);
            },
        };
        let data = match Service3_25::new(housekeeping_id, parameter_value) {
            Ok(d) => d,
            Err(e) => {
                return Err(e);
            },
        };
        Ok(
            SpacePacket {
                primary_header,
                data: TmPacket {
                    header: sec_header,
                    user_data: TxUserData { packet_error_control: 0, data },
                },
            },
        )
    }

    /// Serializes the packet to its wire bytes.
    pub fn to_bytes(&self) -> (r: Vec<u8>)
        requires
            self.wf(),
        ensures
            r@ == self.spec_to_bytes(),
    {
        let mut bytes: Vec<u8> = Vec::new();
        let ph = self.primary_header.to_bytes();
        push_all(&mut bytes, ph.as_slice());
        let sh = self.data.header.to_bytes();
        push_all(&mut bytes, sh.as_slice());
        let payload = self.data.user_data.data.to_bytes();
        push_all(&mut bytes, payload.as_slice());
        let (hi, lo) = u16_to_be(self.data.user_data.packet_error_control);
        bytes.push(hi);
        bytes.push(lo);
        proof {
            assert(bytes@ =~= self.spec_to_bytes());
        }
        bytes
    }

    /// Decodes a TM[3,25] packet; any shape mismatch is rejected.
    pub fn from_bytes(buffer: &[u8]) -> (r: Result<Self, Error>)
        ensures
            r is Ok <==> Self::spec_wire_ok(buffer@),
            r matches Ok(p) ==> Self::spec_decode_rel(buffer@, p) && p.wf(),
            r matches Err(e) ==> e == Self::spec_decode_err(buffer@),
    {
        if buffer.len() < PH_LEN + TM_HEADER_LEN + SERVICE_3_25_CONST_LEN + PEC_LEN {
            return Err(Error::InvalidPacket);
        }
        let primary_header = match PrimaryHeader::from_bytes(
            vstd::slice::slice_subrange(buffer, 0, PH_LEN),
        ) {
            Ok(h) => h,
            Err(e) => {
                return Err(e);
            },
        };
        if !primary_header.sec_header_flag || primary_header.type_flag
            || primary_header.data_len as usize != buffer.len() - 7 {
            return Err(Error::InvalidPacket);
        }
        let sec_header = match TmPacketHeader::from_bytes(
            vstd::slice::slice_subrange(buffer, PH_LEN, PH_LEN + TM_HEADER_LEN),
        ) {
            Ok(h) => h,
            Err(e) => {
                return Err(e);
            },
        };
        if sec_header.service_type != SERVICE_TYPE || sec_header.message_subtype
            != SERVICE_3_25_SUBTYPE {
            return Err(Error::InvalidPacket);
        }
        let service_data = match Service3_25::from_bytes(
            vstd::slice::slice_subrange(buffer, 15, buffer.len() - PEC_LEN),
        ) {
            Ok(d) => d,
            Err(e) => {
                return Err(e);
            },
        };
        let packet_error_control = u16_from_be(
            *vstd::slice::slice_index_get(buffer, buffer.len() - 2),
            *vstd::slice::slice_index_get(buffer, buffer.len() - 1),
        );
        proof {
            assert(buffer@.subrange(15, buffer@.len() - 2).subrange(
                1,
                buffer@.len() - 2 - 15,
            ) =~= buffer@.subrange(16, buffer@.len() - 2));
        }
        Ok(
            SpacePacket {
                primary_header,
                data: TmPacket {
                    header: sec_header,
                    user_data: TxUserData { packet_error_control, data: service_data },
                },
            },
        )
    }

    /// The sampled parameter value bytes this report carries.
    pub fn get_parameter_values(&self) -> (r: Vec<u8>)
        ensures
            r@ == self.data.user_data.data.parameter_value@,
    {
        let mut r: Vec<u8> = Vec::new();
        push_all(&mut r, self.data.user_data.data.parameter_value.as_slice());
        r
    }

    /// Round-trip law: decoding the wire bytes of any well-formed
    /// TM[3,25] packet yields every field back.
    pub proof fn lemma_round_trip(p: Self)
        requires
            p.wf(),
        ensures
            Self::spec_wire_ok(p.spec_to_bytes()),
            Self::spec_decode_rel(p.spec_to_bytes(), p),
    {
        let b = p.spec_to_bytes();
        assert(b.subrange(0, 6) =~= p.primary_header.spec_to_bytes());
        assert(b.subrange(6, 15) =~= p.data.header.spec_to_bytes());
        assert(b[15] == p.data.user_data.data.housekeeping_id);
        assert(b.subrange(16, b.len() - 2) =~= p.data.user_data.data.parameter_value@);
        crate::sp::lemma_primary_header_round_trip(p.primary_header);
        lemma_tm_header_round_trip(p.data.header);
        crate::bits::lemma_u16_be_round_trip(p.data.user_data.packet_error_control);
    }
}

} // verus!
