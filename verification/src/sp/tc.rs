//! PUS telecommand packets: the 5-byte TC secondary header and the
//! generic telecommand packet data field.

use crate::bits::{lemma_pack_unpack, spec_u16_from_be, spec_u16_hi, spec_u16_lo, u16_from_be, u16_to_be};
use crate::error::Error;
use crate::sp::{bit, SpacePacketDataField, TxUserData};
use vstd::prelude::*;

verus! {

/// PUS version number written into every secondary header this codec
/// creates.
pub const PUS_VER_NO: u8 = 2;

/// Wire length of a TC secondary header.
pub const TC_HEADER_LEN: usize = 5;

/// Secondary header of a telecommand packet.
#[derive(Debug, Clone, Copy, PartialEq, Eq)]
pub struct TcPacketHeader {
    /// PUS version; a 4-bit field, 2 for every header this codec creates.
    pub pus_ver_no: u8,
    /// The four acknowledgement flag bits, least significant first.
    pub acknowledgement_flags: (bool, bool, bool, bool),
    /// Service type of the command.
    pub service_type: u8,
    /// Message subtype of the command.
    pub message_subtype: u8,
    /// Source identifier of the command.
    pub source_id: u16,
}

impl TcPacketHeader {
    /// The version nibble must fit its 4-bit wire slot.
    pub open spec fn wf(self) -> bool {
        self.pus_ver_no < 16
    }

    /// The 5 wire bytes of a TC secondary header.
    pub open spec fn spec_to_bytes(self) -> Seq<u8> {
        seq![
            (((((self.pus_ver_no * 2 + bit(self.acknowledgement_flags.3)) * 2 + bit(
                self.acknowledgement_flags.2,
            )) * 2 + bit(self.acknowledgement_flags.1)) * 2) + bit(
                self.acknowledgement_flags.0,
            )) as u8,
            self.service_type,
            self.message_subtype,
            spec_u16_hi(self.source_id),
            spec_u16_lo(self.source_id),
        ]
    }

    /// The TC secondary header that 5 wire bytes denote.
    pub open spec fn spec_parse(b: Seq<u8>) -> TcPacketHeader {
        TcPacketHeader {
            pus_ver_no: (b[0] as int / 16) as u8,
            acknowledgement_flags: (
                b[0] as int % 2 == 1,
                (b[0] as int / 2) % 2 == 1,
                (b[0] as int / 4) % 2 == 1,
                (b[0] as int / 8) % 2 == 1,
            ),
            service_type: b[1],
            message_subtype: b[2],
            source_id: spec_u16_from_be(b[3], b[4]) as u16,
        }
    }

    /// Creates a TC secondary header with the standard PUS version.
    pub fn new(
        acknowledgement_flags: (bool, bool, bool, bool),
        service_type: u8,
        message_subtype: u8,
        source_id: u16,
    ) -> (r: Result<Self, Error>)
        ensures
            r == Ok::<Self, Error>(TcPacketHeader {
                pus_ver_no: PUS_VER_NO,
                acknowledgement_flags,
                service_type,
                message_subtype,
                source_id,
            }),
            r matches Ok(h) ==> h.wf(),
    {
        Ok(
            TcPacketHeader {
                pus_ver_no: PUS_VER_NO,
                acknowledgement_flags,
                service_type,
                message_subtype,
                source_id,
            },
        )
    }

    /// Parses a TC secondary header from its 5 wire bytes; rejects a
    /// slice of any other length.
    pub fn from_bytes(buffer: &[u8]) -> (r: Result<Self, Error>)
        ensures
            r is Ok <==> buffer@.len() == TC_HEADER_LEN,
            r matches Ok(h) ==> h == Self::spec_parse(buffer@) && h.wf(),
            r is Err ==> r == Err::<Self, Error>(Error::InvalidPacket),
    {
        if buffer.len() != TC_HEADER_LEN {
            return Err(Error::InvalidPacket);
        }
        let b0 = *vstd::slice::slice_index_get(buffer, 0);
        let service_type = *vstd::slice::slice_index_get(buffer, 1);
        let message_subtype = *vstd::slice::slice_index_get(buffer, 2);
        let source_id = u16_from_be(
            *vstd::slice::slice_index_get(buffer, 3),
            *vstd::slice::slice_index_get(buffer, 4),
        );
        Ok(
            TcPacketHeader {
                pus_ver_no: b0 / 16,
                acknowledgement_flags: (
                    b0 % 2 == 1,
                    (b0 / 2) % 2 == 1,
                    (b0 / 4) % 2 == 1,
                    (b0 / 8) % 2 == 1,
                ),
                service_type,
                message_subtype,
                source_id,
            },
        )
    }

    /// Serializes the header to its 5 wire bytes.
    pub fn to_bytes(&self) -> (r: [u8; 5])
        requires
            self.wf(),
        ensures
            r@ == self.spec_to_bytes(),
    {
        let mut b0: u8 = self.pus_ver_no * 2;
        if self.acknowledgement_flags.3 {
            b0 = b0 + 1;
        }
        b0 = b0 * 2;
        if self.acknowledgement_flags.2 {
            b0 = b0 + 1;
        }
        b0 = b0 * 2;
        if self.acknowledgement_flags.1 {
            b0 = b0 + 1;
        }
        b0 = b0 * 2;
        if self.acknowledgement_flags.0 {
            b0 = b0 + 1;
        }
        let (b3, b4) = u16_to_be(self.source_id);
        let r = [b0, self.service_type, self.message_subtype, b3, b4];
        proof {
            assert(r@ =~= self.spec_to_bytes());
        }
        r
    }
}

/// Decoding the 5 wire bytes of a well-formed TC secondary header gives
/// the header back: the round-trip law for TC secondary headers.
pub proof fn lemma_tc_header_round_trip(h: TcPacketHeader)
    requires
        h.wf(),
    ensures
        TcPacketHeader::spec_parse(h.spec_to_bytes()) == h,
{
    let b = h.spec_to_bytes();
    let v = h.pus_ver_no as int;
    let f3 = bit(h.acknowledgement_flags.3);
    let f2 = bit(h.acknowledgement_flags.2);
    let f1 = bit(h.acknowledgement_flags.1);
    let f0 = bit(h.acknowledgement_flags.0);
    lemma_pack_unpack((((v * 2 + f3) * 2 + f2) * 2 + f1), f0, 2);
    lemma_pack_unpack(((v * 2 + f3) * 2 + f2), f1, 2);
    lemma_pack_unpack((v * 2 + f3), f2, 2);
    lemma_pack_unpack(v, f3, 2);
    assert(b[0] as int / 2 == ((v * 2 + f3) * 2 + f2) * 2 + f1);
    assert(b[0] as int / 4 == (b[0] as int / 2) / 2) by (nonlinear_arith);
    assert(b[0] as int / 8 == ((b[0] as int / 2) / 2) / 2) by (nonlinear_arith);
    assert(b[0] as int / 16 == (((b[0] as int / 2) / 2) / 2) / 2) by (nonlinear_arith);
    crate::bits::lemma_u16_be_round_trip(h.source_id);
    assert(TcPacketHeader::spec_parse(b) == h);
}

/// Marker for the types that may stand as application data of a
/// telecommand packet.
pub trait TcData {

}

/// Packet data field of a telecommand: the TC secondary header followed
/// by the user data.
#[derive(Debug)]
pub struct TcPacket<T: TcData> {
    /// Secondary header of the packet.
    pub header: TcPacketHeader,
    pub user_data: TxUserData<T>,
}

impl<T: TcData> SpacePacketDataField for TcPacket<T> {

}

} // verus!
