//! PUS telemetry packets: the 9-byte TM secondary header and the generic
//! telemetry packet data field.

use crate::bits::{lemma_pack_unpack, spec_u16_from_be, spec_u16_hi, spec_u16_lo, u16_from_be, u16_to_be};
use crate::error::Error;
use crate::sp::{SpacePacketDataField, TxUserData};
use vstd::prelude::*;

verus! {

/// PUS version number written into every secondary header this codec
/// creates.
pub const PUS_VER_NO: u8 = 2;

/// Wire length of a TM secondary header.
pub const TM_HEADER_LEN: usize = 9;

/// Secondary header of a telemetry packet.
#[derive(Debug, Clone, Copy, PartialEq, Eq, Structural)]
pub struct TmPacketHeader {
    /// PUS version; a 4-bit field, 2 for every header this codec creates.
    pub pus_ver_no: u8,
    /// Spacecraft time reference status; a 4-bit field, 0 here.
    pub time_ref_status: u8,
    /// Service type of the report.
    pub service_type: u8,
    /// Message subtype of the report.
    pub message_subtype: u8,
    /// Message type counter; 0 when not counting.
    pub message_type_counter: u16,
    /// Destination identifier of the report.
    pub destination_id: u16,
    /// Absolute time; a stub field in this revision.
    pub abs_time: u16,
}

impl TmPacketHeader {
    /// The two nibbles of the first byte must fit their 4-bit slots.
    pub open spec fn wf(self) -> bool {
        self.pus_ver_no < 16 && self.time_ref_status < 16
    }

    /// The 9 wire bytes of a TM secondary header.
    pub open spec fn spec_to_bytes(self) -> Seq<u8> {
        seq![
            (self.pus_ver_no * 16 + self.time_ref_status) as u8,
            self.service_type,
            self.message_subtype,
            spec_u16_hi(self.message_type_counter),
            spec_u16_lo(self.message_type_counter),
            spec_u16_hi(self.destination_id),
            spec_u16_lo(self.destination_id),
            spec_u16_hi(self.abs_time),
            spec_u16_lo(self.abs_time),
        ]
    }

    /// The TM secondary header that 9 wire bytes denote.
    pub open spec fn spec_parse(b: Seq<u8>) -> TmPacketHeader {
        TmPacketHeader {
            pus_ver_no: (b[0] as int / 16) as u8,
            time_ref_status: (b[0] as int % 16) as u8,
            service_type: b[1],
            message_subtype: b[2],
            message_type_counter: spec_u16_from_be(b[3], b[4]) as u16,
            destination_id: spec_u16_from_be(b[5], b[6]) as u16,
            abs_time: spec_u16_from_be(b[7], b[8]) as u16,
        }
    }

    /// Creates a TM secondary header with the standard PUS version, a
    /// zero time reference status, counter and time.
    pub fn new(service_type: u8, message_subtype: u8, destination_id: u16) -> (r: Result<
        Self,
        Error,
    >)
        ensures
            r == Ok::<Self, Error>(TmPacketHeader {
                pus_ver_no: PUS_VER_NO,
                time_ref_status: 0,
                service_type,
                message_subtype,
                message_type_counter: 0,
                destination_id,
                abs_time: 0,
            }),
            r matches Ok(h) ==> h.wf(),
    {
        Ok(
            TmPacketHeader {
                pus_ver_no: PUS_VER_NO,
                time_ref_status: 0,
                service_type,
                message_subtype,
                message_type_counter: 0,
                destination_id,
                abs_time: 0,
            },
        )
    }

    /// Parses a TM secondary header from its 9 wire bytes; rejects a
    /// slice of any other length.
    pub fn from_bytes(buffer: &[u8]) -> (r: Result<Self, Error>)
        ensures
            r is Ok <==> buffer@.len() == TM_HEADER_LEN,
            r matches Ok(h) ==> h == Self::spec_parse(buffer@) && h.wf(),
            r is Err ==> r == Err::<Self, Error>(Error::InvalidPacket),
    {
        if buffer.len() != TM_HEADER_LEN {
            return Err(Error::InvalidPacket);
        }
        let b0 = *vstd::slice::slice_index_get(buffer, 0);
        let service_type = *vstd::slice::slice_index_get(buffer, 1);
        let message_subtype = *vstd::slice::slice_index_get(buffer, 2);
        let message_type_counter = u16_from_be(
            *vstd::slice::slice_index_get(buffer, 3),
            *vstd::slice::slice_index_get(buffer, 4),
        );
        let destination_id = u16_from_be(
            *vstd::slice::slice_index_get(buffer, 5),
            *vstd::slice::slice_index_get(buffer, 6),
        );
        let abs_time = u16_from_be(
            *vstd::slice::slice_index_get(buffer, 7),
            *vstd::slice::slice_index_get(buffer, 8),
        );
        Ok(
            TmPacketHeader {
                pus_ver_no: b0 / 16,
                time_ref_status: b0 % 16,
                service_type,
                message_subtype,
                message_type_counter,
                destination_id,
                abs_time,
            },
        )
    }

    /// Serializes the header to its 9 wire bytes.
    pub fn to_bytes(&self) -> (r: [u8; 9])
        requires
            self.wf(),
        ensures
            r@ == self.spec_to_bytes(),
    {
        let b0: u8 = self.pus_ver_no * 16 + self.time_ref_status;
        let (b3, b4) = u16_to_be(self.message_type_counter);
        let (b5, b6) = u16_to_be(self.destination_id);
        let (b7, b8) = u16_to_be(self.abs_time);
        let r = [b0, self.service_type, self.message_subtype, b3, b4, b5, b6, b7, b8];
        proof {
            assert(r@ =~= self.spec_to_bytes());
        }
        r
    }
}

/// Decoding the 9 wire bytes of a well-formed TM secondary header gives
/// the header back: the round-trip law for TM secondary headers.
pub proof fn lemma_tm_header_round_trip(h: TmPacketHeader)
    requires
        h.wf(),
    ensures
        TmPacketHeader::spec_parse(h.spec_to_bytes()) == h,
{
    lemma_pack_unpack(h.pus_ver_no as int, h.time_ref_status as int, 16);
    crate::bits::lemma_u16_be_round_trip(h.message_type_counter);
    crate::bits::lemma_u16_be_round_trip(h.destination_id);
    crate::bits::lemma_u16_be_round_trip(h.abs_time);
    assert(TmPacketHeader::spec_parse(h.spec_to_bytes()) == h);
}

/// Marker for the types that may stand as source data of a telemetry
/// packet.
pub trait TmData {

}

/// Packet data field of a telemetry packet: the TM secondary header
/// followed by the source data.
#[derive(Debug)]
pub struct TmPacket<T: TmData> {
    /// Secondary header of the packet.
    pub header: TmPacketHeader,
    pub user_data: TxUserData<T>,
}

impl<T: TmData> SpacePacketDataField for TmPacket<T> {

}

} // verus!
