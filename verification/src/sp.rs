//! Generic CCSDS Space Packet: the 6-byte primary header, the generic
//! `SpacePacket` envelope, and the request identification that every
//! verification report carries.

use crate::bits::{lemma_pack_unpack, spec_u16_from_be, spec_u16_hi, spec_u16_lo, u16_from_be, u16_to_be};
use crate::error::Error;
use crate::sp::service_1::RequestId;
use vstd::prelude::*;

pub mod service_1;
pub mod service_3;
pub mod service_8;
pub mod tc;
pub mod tm;

verus! {

/// Wire length of the primary header.
pub const PH_LEN: usize = 6;

/// Wire length of the trailing packet-error-control field.
pub const PEC_LEN: usize = 2;

/// The numeric value of a flag bit.
pub open spec fn bit(b: bool) -> int {
    if b {
        1
    } else {
        0
    }
}

/// CCSDS-133.0-B-1 primary header. All multi-byte fields are stored and
/// serialized in big-endian byte order.
#[derive(Debug, Clone, Copy, PartialEq, Eq)]
pub struct PrimaryHeader {
    /// Packet version number; a 3-bit field, and 0 for every packet this
    /// codec emits or accepts.
    pub ver_no: u8,
    /// Packet type: true for a telecommand, false for telemetry.
    pub type_flag: bool,
    /// Whether a secondary header follows; true for all payloads here.
    pub sec_header_flag: bool,
    /// Application process identifier; an 11-bit field.
    pub apid: u16,
    /// The two sequence flag bits.
    pub seq_flags: (bool, bool),
    /// Packet sequence count, also called packet name; a 14-bit field.
    pub packet_name: u16,
    /// Byte count of everything after the primary header, minus one.
    pub data_len: u16,
}

impl PrimaryHeader {
    /// Field bounds that the bit widths of the wire format force.
    pub open spec fn wf(self) -> bool {
        self.ver_no < 8 && self.apid < 2048 && self.packet_name < 16384
    }

    /// The 6 wire bytes of a primary header.
    pub open spec fn spec_to_bytes(self) -> Seq<u8> {
        seq![
            ((((self.ver_no * 2 + bit(self.type_flag)) * 2 + bit(self.sec_header_flag)) * 8) + self.apid as int / 256) as u8,
            (self.apid as int % 256) as u8,
            ((bit(self.seq_flags.0) * 2 + bit(self.seq_flags.1)) * 64 + self.packet_name as int / 256) as u8,
            (self.packet_name as int % 256) as u8,
            spec_u16_hi(self.data_len),
            spec_u16_lo(self.data_len),
        ]
    }

    /// The header that 6 wire bytes denote.
    pub open spec fn spec_parse(b: Seq<u8>) -> PrimaryHeader {
        PrimaryHeader {
            ver_no: (b[0] as int / 32) as u8,
            type_flag: (b[0] as int / 16) % 2 == 1,
            sec_header_flag: (b[0] as int / 8) % 2 == 1,
            apid: ((b[0] as int % 8) * 256 + b[1]) as u16,
            seq_flags: ((b[2] as int / 128) % 2 == 1, ((b[2] as int / 64) % 2) == 1),
            packet_name: ((b[2] as int % 64) * 256 + b[3]) as u16,
            data_len: spec_u16_from_be(b[4], b[5]) as u16,
        }
    }

    /// Creates a primary header after checking every field against the
    /// bit width of its wire slot.
    pub fn new(
        ver_no: u8,
        type_flag: bool,
        sec_header_flag: bool,
        apid: u16,
        seq_flags: (bool, bool),
        packet_name: u16,
        data_len: u16,
    ) -> (r: Result<Self, Error>)
        ensures
            r matches Ok(h) ==> h == (PrimaryHeader {
                ver_no,
                type_flag,
                sec_header_flag,
                apid,
                seq_flags,
                packet_name,
                data_len,
            }) && h.wf(),
            r is Ok <==> ver_no < 8 && apid < 2048 && packet_name < 16384,
            r is Err ==> r == Err::<Self, Error>(Error::InvalidPacket),
    {
        if ver_no >= 8 || apid >= 2048 || packet_name >= 16384 {
            return Err(Error::InvalidPacket);
        }
        Ok(
            PrimaryHeader {
                ver_no,
                type_flag,
                sec_header_flag,
                apid,
                seq_flags,
                packet_name,
                data_len,
            },
        )
    }

    /// Parses a primary header from its 6 wire bytes. Rejects a slice of
    /// any other length, and a version number other than 0: this codec
    /// only accepts version-0 packets.
    pub fn from_bytes(packet: &[u8]) -> (r: Result<Self, Error>)
        ensures
            packet@.len() != 6 ==> r == Err::<Self, Error>(Error::InvalidPacket),
            packet@.len() == 6 && Self::spec_parse(packet@).ver_no != 0 ==> r == Err::<
                Self,
                Error,
            >(Error::InvalidVersionNo),
            packet@.len() == 6 && Self::spec_parse(packet@).ver_no == 0 ==> r == Ok::<
                Self,
                Error,
            >(Self::spec_parse(packet@)),
            r matches Ok(h) ==> h.wf() && h.ver_no == 0,
    {
        if packet.len() != PH_LEN {
            return Err(Error::InvalidPacket);
        }
        let b0 = *vstd::slice::slice_index_get(packet, 0);
        let b1 = *vstd::slice::slice_index_get(packet, 1);
        let b2 = *vstd::slice::slice_index_get(packet, 2);
        let b3 = *vstd::slice::slice_index_get(packet, 3);
        let b4 = *vstd::slice::slice_index_get(packet, 4);
        let b5 = *vstd::slice::slice_index_get(packet, 5);
        let ver_no: u8 = b0 / 32;
        let type_flag: bool = (b0 / 16) % 2 == 1;
        let sec_header_flag: bool = (b0 / 8) % 2 == 1;
        let apid: u16 = (b0 % 8) as u16 * 256 + b1 as u16;
        let seq_flags: (bool, bool) = ((b2 / 128) % 2 == 1, (b2 / 64) % 2 == 1);
        let packet_name: u16 = (b2 % 64) as u16 * 256 + b3 as u16;
        let data_len: u16 = u16_from_be(b4, b5);
        if ver_no != 0 {
            return Err(Error::InvalidVersionNo);
        }
        Ok(
            PrimaryHeader {
                ver_no,
                type_flag,
                sec_header_flag,
                apid,
                seq_flags,
                packet_name,
                data_len,
            },
        )
    }

    /// Serializes the header to its 6 wire bytes; the exact inverse of
    /// `from_bytes` for any header that `new` accepts.
    pub fn to_bytes(&self) -> (r: [u8; 6])
        requires
            self.wf(),
        ensures
            r@ == self.spec_to_bytes(),
    {
        let mut b0: u8 = self.ver_no * 2;
        if self.type_flag {
            b0 = b0 + 1;
        }
        b0 = b0 * 2;
        if self.sec_header_flag {
            b0 = b0 + 1;
        }
        b0 = b0 * 8 + (self.apid / 256) as u8;
        let b1: u8 = (self.apid % 256) as u8;
        let mut b2: u8 = 0;
        if self.seq_flags.0 {
            b2 = b2 + 1;
        }
        b2 = b2 * 2;
        if self.seq_flags.1 {
            b2 = b2 + 1;
        }
        b2 = b2 * 64 + (self.packet_name / 256) as u8;
        let b3: u8 = (self.packet_name % 256) as u8;
        let (b4, b5) = u16_to_be(self.data_len);
        let r = [b0, b1, b2, b3, b4, b5];
        proof {
            assert(r@ =~= self.spec_to_bytes());
        }
        r
    }

    /// Packet data length field: byte count after the primary header,
    /// minus one.
    pub fn get_data_len(&self) -> (r: usize)
        ensures
            r == self.data_len,
    {
        self.data_len as usize
    }
}

/// Decoding the 6 wire bytes of a well-formed primary header gives the
/// header back: the round-trip law for the primary header.
pub proof fn lemma_primary_header_round_trip(h: PrimaryHeader)
    requires
        h.wf(),
    ensures
        PrimaryHeader::spec_parse(h.spec_to_bytes()) == h,
{
    let b = h.spec_to_bytes();
    let v = h.ver_no as int;
    let t = bit(h.type_flag);
    let s = bit(h.sec_header_flag);
    let ah = h.apid as int / 256;
    let al = h.apid as int % 256;
    vstd::arithmetic::div_mod::lemma_fundamental_div_mod(h.apid as int, 256);
    assert(0 <= ah < 8) by (nonlinear_arith)
        requires
            0 <= h.apid < 2048,
            ah == h.apid as int / 256,
    ;
    lemma_pack_unpack(((v * 2 + t) * 2 + s), ah, 8);
    lemma_pack_unpack((v * 2 + t), s, 2);
    lemma_pack_unpack(v, t, 2);
    assert(b[0] == ((v * 2 + t) * 2 + s) * 8 + ah);
    assert(b[0] as int / 8 == (v * 2 + t) * 2 + s);
    assert(b[0] as int / 16 == (b[0] as int / 8) / 2) by (nonlinear_arith);
    assert(b[0] as int / 32 == ((b[0] as int / 8) / 2) / 2) by (nonlinear_arith);
    assert((b[0] as int / 16) % 2 == ((v * 2 + t) % 2 + 0) % 2);
    assert(b[0] as int % 8 == ah);
    lemma_pack_unpack(ah, al, 256);
    assert((b[0] as int % 8) * 256 + b[1] == h.apid);
    let f0 = bit(h.seq_flags.0);
    let f1 = bit(h.seq_flags.1);
    let nh = h.packet_name as int / 256;
    let nl = h.packet_name as int % 256;
    vstd::arithmetic::div_mod::lemma_fundamental_div_mod(h.packet_name as int, 256);
    assert(0 <= nh < 64) by (nonlinear_arith)
        requires
            0 <= h.packet_name < 16384,
            nh == h.packet_name as int / 256,
    ;
    lemma_pack_unpack(f0 * 2 + f1, nh, 64);
    lemma_pack_unpack(f0, f1, 2);
    assert(b[2] == (f0 * 2 + f1) * 64 + nh);
    assert(b[2] as int / 64 == f0 * 2 + f1);
    assert(b[2] as int / 128 == (b[2] as int / 64) / 2) by (nonlinear_arith);
    assert(b[2] as int % 64 == nh);
    lemma_pack_unpack(nh, nl, 256);
    crate::bits::lemma_u16_be_inverse(b[4], b[5]);
    crate::bits::lemma_u16_be_round_trip(h.data_len);
    assert(PrimaryHeader::spec_parse(b) == h);
}

/// Marker for the types that may stand as the data field of a
/// `SpacePacket`.
pub trait SpacePacketDataField {

}

/// A CCSDS space packet: a primary header followed by a data field.
#[derive(Debug)]
pub struct SpacePacket<T: SpacePacketDataField> {
    pub primary_header: PrimaryHeader,
    pub data: T,
}

/// The data field is a plain byte vector in the generic case.
impl SpacePacketDataField for Vec<u8> {

}

/// The part of the packet data field that belongs to the application:
/// the service payload and the trailing packet-error-control word.
#[derive(Debug)]
pub struct TxUserData<T> {
    /// Trailing checksum field; a stub in this revision, always written 0.
    pub packet_error_control: u16,
    /// Application (TC) or source (TM) data.
    pub data: T,
}

impl<T: SpacePacketDataField> SpacePacket<T> {
    /// Sets the packet version number; rejects a value that exceeds the
    /// 3-bit wire slot.
    pub fn set_ver_no(&mut self, ver_no: u8) -> (r: Result<(), Error>)
        ensures
            r is Ok <==> ver_no < 8,
            r is Ok ==> *final(self) == (SpacePacket { primary_header: PrimaryHeader { ver_no, ..old(self).primary_header }, ..*old(self) }),
            r is Err ==> *final(self) == *old(self) && r == Err::<(), Error>(Error::InvalidVersionNo),
    {
        if ver_no >= 8 {
            return Err(Error::InvalidVersionNo);
        }
        self.primary_header.ver_no = ver_no;
        Ok(())
    }

    /// Packet version number.
    pub fn get_ver_no(&self) -> (r: u8)
        ensures
            r == self.primary_header.ver_no,
    {
        self.primary_header.ver_no
    }

    /// Sets the packet type flag.
    pub fn set_type_flag(&mut self, type_flag: bool)
        ensures
            *final(self) == (SpacePacket { primary_header: PrimaryHeader { type_flag, ..old(self).primary_header }, ..*old(self) }),
    {
        self.primary_header.type_flag = type_flag;
    }

    /// Packet type flag.
    pub fn get_type_flag(&self) -> (r: bool)
        ensures
            r == self.primary_header.type_flag,
    {
        self.primary_header.type_flag
    }

    /// Sets the secondary header flag.
    pub fn set_sec_header_flag(&mut self, sec_header_flag: bool)
        ensures
            *final(self) == (SpacePacket { primary_header: PrimaryHeader { sec_header_flag, ..old(self).primary_header }, ..*old(self) }),
    {
        self.primary_header.sec_header_flag = sec_header_flag;
    }

    /// Secondary header flag.
    pub fn get_sec_header_flag(&self) -> (r: bool)
        ensures
            r == self.primary_header.sec_header_flag,
    {
        self.primary_header.sec_header_flag
    }

    /// Sets the application process identifier; rejects a value that
    /// exceeds the 11-bit wire slot.
    pub fn set_apid(&mut self, apid: u16) -> (r: Result<(), Error>)
        ensures
            r is Ok <==> apid < 2048,
            r is Ok ==> *final(self) == (SpacePacket { primary_header: PrimaryHeader { apid, ..old(self).primary_header }, ..*old(self) }),
            r is Err ==> *final(self) == *old(self) && r == Err::<(), Error>(Error::InvalidApid),
    {
        if apid >= 2048 {
            return Err(Error::InvalidApid);
        }
        self.primary_header.apid = apid;
        Ok(())
    }

    /// Application process identifier.
    pub fn get_apid(&self) -> (r: u16)
        ensures
            r == self.primary_header.apid,
    {
        self.primary_header.apid
    }

    /// Sets the two sequence flag bits.
    pub fn set_seq_flags(&mut self, seq_1: bool, seq_2: bool)
        ensures
            *final(self) == (SpacePacket { primary_header: PrimaryHeader { seq_flags: (seq_1, seq_2), ..old(self).primary_header }, ..*old(self) }),
    {
        self.primary_header.seq_flags.0 = seq_1;
        self.primary_header.seq_flags.1 = seq_2;
    }

    /// The two sequence flag bits.
    pub fn get_seq_flags(&self) -> (r: (bool, bool))
        ensures
            r == self.primary_header.seq_flags,
    {
        self.primary_header.seq_flags
    }

    /// Sets the packet sequence count; rejects a value that exceeds the
    /// 14-bit wire slot.
    pub fn set_packet_name(&mut self, packet_name: u16) -> (r: Result<(), Error>)
        ensures
            r is Ok <==> packet_name < 16384,
            r is Ok ==> *final(self) == (SpacePacket { primary_header: PrimaryHeader { packet_name, ..old(self).primary_header }, ..*old(self) }),
            r is Err ==> *final(self) == *old(self) && r == Err::<(), Error>(Error::InvalidPacketName),
    {
        if packet_name >= 16384 {
            return Err(Error::InvalidPacketName);
        }
        self.primary_header.packet_name = packet_name;
        Ok(())
    }

    /// Packet sequence count, also called packet name.
    pub fn get_packet_name(&self) -> (r: u16)
        ensures
            r == self.primary_header.packet_name,
    {
        self.primary_header.packet_name
    }

    /// Packet data length field of the primary header.
    pub fn get_data_len(&self) -> (r: u16)
        ensures
            r == self.primary_header.data_len,
    {
        self.primary_header.data_len
    }
}

impl SpacePacket<Vec<u8>> {
    /// Decodes a raw space packet: a primary header followed by exactly
    /// `data_len + 1` data bytes.
    pub fn from_bytes(packet: &[u8]) -> (r: Result<Self, Error>)
        ensures
            r matches Ok(p) ==> {
                &&& packet@.len() > 6
                &&& p.primary_header == PrimaryHeader::spec_parse(packet@.subrange(0, 6))
                &&& p.primary_header.wf()
                &&& p.data@ == packet@.subrange(6, packet@.len() as int)
                &&& packet@.len() - 6 == p.primary_header.data_len + 1
            },
            r matches Err(e) ==> {
                ||| packet@.len() <= 6 && e == Error::InvalidPacket
                ||| packet@.len() > 6 && PrimaryHeader::spec_parse(packet@.subrange(0, 6)).ver_no
                    != 0 && e == Error::InvalidVersionNo
                ||| packet@.len() > 6 && PrimaryHeader::spec_parse(packet@.subrange(0, 6)).ver_no
                    == 0 && packet@.len() - 6 != PrimaryHeader::spec_parse(
                    packet@.subrange(0, 6),
                ).data_len + 1 && e == Error::InvalidPacket
            },
            r is Ok <==> packet@.len() > 6 && PrimaryHeader::spec_parse(
                packet@.subrange(0, 6),
            ).ver_no == 0 && packet@.len() - 6 == PrimaryHeader::spec_parse(
                packet@.subrange(0, 6),
            ).data_len + 1,
    {
        if packet.len() <= 6 {
            return Err(Error::InvalidPacket);
        }
        let ph_slice = vstd::slice::slice_subrange(packet, 0, 6);
        let primary_header = match PrimaryHeader::from_bytes(ph_slice) {
            Ok(h) => h,
            Err(e) => {
                return Err(e);
            },
        };
        if packet.len() - 6 != primary_header.data_len as usize + 1 {
            return Err(Error::InvalidPacket);
        }
        let rest = vstd::slice::slice_subrange(packet, 6, packet.len());
        let data: Vec<u8> = vstd::slice::slice_to_vec(rest);
        Ok(SpacePacket { primary_header, data })
    }

    /// Builds a raw space packet from its fields; the data length field
    /// is computed from the data, which must not be empty.
    pub fn new(
        ver_no: u8,
        type_flag: bool,
        sec_header_flag: bool,
        apid: u16,
        seq_flags: (bool, bool),
        packet_name: u16,
        data: Vec<u8>,
    ) -> (r: Result<Self, Error>)
        ensures
            r is Ok <==> ver_no < 8 && apid < 2048 && packet_name < 16384 && 0 < data@.len()
                <= 65536,
            r matches Ok(p) ==> {
                &&& p.primary_header == (PrimaryHeader {
                    ver_no,
                    type_flag,
                    sec_header_flag,
                    apid,
                    seq_flags,
                    packet_name,
                    data_len: (data@.len() - 1) as u16,
                })
                &&& p.primary_header.wf()
                &&& p.data@ == data@
            },
            r is Err ==> r == Err::<Self, Error>(Error::InvalidPacket),
    {
        if ver_no >= 8 || apid >= 2048 || packet_name >= 16384 || data.len() == 0 || data.len()
            > 65536 {
            return Err(Error::InvalidPacket);
        }
        let data_len: u16 = (data.len() - 1) as u16;
        let primary_header = match PrimaryHeader::new(
            ver_no,
            type_flag,
            sec_header_flag,
            apid,
            seq_flags,
            packet_name,
            data_len,
        ) {
            Ok(h) => h,
            Err(e) => {
                return Err(e);
            },
        };
        Ok(SpacePacket { primary_header, data })
    }
}

/// A PUS request: anything that a verification report can be correlated
/// to through a request identifier.
pub trait Request {
    /// The request identifier that `to_request` returns.
    spec fn spec_request(&self) -> RequestId;

    /// Whether this request is in a state fit to be identified.
    spec fn req_wf(&self) -> bool;

    /// Derives the request identifier embedded in every verification
    /// report about this request.
    fn to_request(&self) -> (r: RequestId)
        requires
            self.req_wf(),
        ensures
            r == self.spec_request(),
            r.wf(),
    ;
}

impl<T: SpacePacketDataField> Request for SpacePacket<T> {
    open spec fn spec_request(&self) -> RequestId {
        RequestId {
            ver_no: self.primary_header.ver_no,
            packet_type: self.primary_header.type_flag,
            sec_header_flag: self.primary_header.sec_header_flag,
            apid: self.primary_header.apid,
            seq_flags: self.primary_header.seq_flags,
            packet_seq_count: self.primary_header.packet_name,
        }
    }

    open spec fn req_wf(&self) -> bool {
        self.primary_header.wf()
    }

    fn to_request(&self) -> (r: RequestId) {
        RequestId {
            ver_no: self.primary_header.ver_no,
            packet_type: self.primary_header.type_flag,
            sec_header_flag: self.primary_header.sec_header_flag,
            apid: self.primary_header.apid,
            seq_flags: self.primary_header.seq_flags,
            packet_seq_count: self.primary_header.packet_name,
        }
    }
}

/// Reads the service type and message subtype of a packet from their
/// fixed wire offsets, valid for both TC and TM packets.
pub fn get_service_type(buf: &[u8]) -> (r: Result<(u8, u8), ()>)
    ensures
        r is Ok <==> buf@.len() > 11,
        r matches Ok(t) ==> t.0 == buf@[7] && t.1 == buf@[8],
{
    if buf.len() <= PH_LEN + 5 {
        Err(())
    } else {
        Ok((*vstd::slice::slice_index_get(buf, 7), *vstd::slice::slice_index_get(buf, 8)))
    }
}

} // verus!
