//! Raw space packets: a primary header over an opaque data field, with
//! the data length field given explicitly. The transport layer uses
//! this shape to frame byte streams before service-level decoding.

use crate::error::Error;
use crate::sp::PrimaryHeader;
use vstd::prelude::*;

verus! {

/// A raw space packet: a primary header and the plain data bytes that
/// follow it on the wire.
#[derive(Debug)]
pub struct SpacePacket {
    pub primary_header: PrimaryHeader,
    pub data: Vec<u8>,
}

impl SpacePacket {
    /// The data bytes are exactly the `data_len + 1` bytes the header
    /// announces.
    pub open spec fn wf(self) -> bool {
        self.primary_header.wf() && self.data@.len() == self.primary_header.data_len + 1
    }

    /// Decodes a raw packet: a primary header followed by exactly
    /// `data_len + 1` data bytes.
    pub fn from_bytes(packet: &[u8]) -> (r: Result<Self, Error>)
        ensures
            r matches Ok(p) ==> {
                &&& packet@.len() > 6
                &&& p.primary_header == PrimaryHeader::spec_parse(packet@.subrange(0, 6))
                &&& p.data@ == packet@.subrange(6, packet@.len() as int)
                &&& p.wf()
            },
            r is Ok <==> packet@.len() > 6 && PrimaryHeader::spec_parse(
                packet@.subrange(0, 6),
            ).ver_no == 0 && packet@.len() - 6 == PrimaryHeader::spec_parse(
                packet@.subrange(0, 6),
            ).data_len + 1,
            r matches Err(e) ==> {
                ||| packet@.len() <= 6 && e == Error::InvalidPacket
                ||| packet@.len() > 6 && PrimaryHeader::spec_parse(packet@.subrange(0, 6)).ver_no
                    != 0 && e == Error::InvalidVersionNo
                ||| packet@.len() > 6 && PrimaryHeader::spec_parse(packet@.subrange(0, 6)).ver_no
                    == 0 && e == Error::InvalidPacket
            },
    {
        if packet.len() <= 6 {
            return Err(Error::InvalidPacket);
        }
        let ph_slice = vstd::slice::slice_subrange(packet, 0, 6);
        let primary_header = match PrimaryHeader::from_bytes(ph_slice) {
            Ok(h) => h,
            Err(e) => {
                return Err(e);
            },
        };
        if packet.len() - 6 != primary_header.data_len as usize + 1 {
            return Err(Error::InvalidPacket);
        }
        let rest = vstd::slice::slice_subrange(packet, 6, packet.len());
        Ok(SpacePacket { primary_header, data: vstd::slice::slice_to_vec(rest) })
    }

    /// Builds a raw packet from its fields; the data length field is
    /// given and must announce exactly one byte less than the data
    /// holds.
    pub fn new(
        ver_no: u8,
        type_flag: bool,
        sec_header_flag: bool,
        apid: u16,
        seq_flags: (bool, bool),
        packet_name: u16,
        data_len: u16,
        data: Vec<u8>,
    ) -> (r: Result<Self, Error>)
        ensures
            r is Ok <==> ver_no < 8 && apid < 2048 && packet_name < 16384 && data@.len()
                == data_len + 1,
            r matches Ok(p) ==> {
                &&& p.primary_header == (PrimaryHeader {
                    ver_no,
                    type_flag,
                    sec_header_flag,
                    apid,
                    seq_flags,
                    packet_name,
                    data_len,
                })
                &&& p.data@ == data@
                &&& p.wf()
            },
            r is Err ==> r == Err::<Self, Error>(Error::InvalidPacket),
    {
        if ver_no >= 8 || apid >= 2048 || packet_name >= 16384 || data.len() != data_len as usize
            + 1 {
            return Err(Error::InvalidPacket);
        }
        let primary_header = match PrimaryHeader::new(
            ver_no,
            type_flag,
            sec_header_flag,
            apid,
            seq_flags,
            packet_name,
            data_len,
        ) {
            Ok(h) => h,
            Err(e) => {
                return Err(e);
            },
        };
        Ok(SpacePacket { primary_header, data })
    }

    /// Sets the packet version number; rejects a value that exceeds the
    /// 3-bit wire slot.
    pub fn set_ver_no(&mut self, ver_no: u8) -> (r: Result<(), Error>)
        ensures
            r is Ok <==> ver_no < 8,
            r is Ok ==> *final(self) == (SpacePacket { primary_header: PrimaryHeader { ver_no, ..old(self).primary_header }, ..*old(self) }),
            r is Err ==> *final(self) == *old(self) && r == Err::<(), Error>(
                Error::InvalidVersionNo,
            ),
    {
        if ver_no >= 8 {
            return Err(Error::InvalidVersionNo);
        }
        self.primary_header.ver_no = ver_no;
        Ok(())
    }

    /// Packet version number.
    pub fn get_ver_no(&self) -> (r: u8)
        ensures
            r == self.primary_header.ver_no,
    {
        self.primary_header.ver_no
    }

    /// Sets the packet type flag.
    pub fn set_type_flag(&mut self, type_flag: bool)
        ensures
            *final(self) == (SpacePacket { primary_header: PrimaryHeader { type_flag, ..old(self).primary_header }, ..*old(self) }),
    {
        self.primary_header.type_flag = type_flag;
    }

    /// Packet type flag.
    pub fn get_type_flag(&self) -> (r: bool)
        ensures
            r == self.primary_header.type_flag,
    {
        self.primary_header.type_flag
    }

    /// Sets the secondary header flag.
    pub fn set_sec_header_flag(&mut self, sec_header_flag: bool)
        ensures
            *final(self) == (SpacePacket { primary_header: PrimaryHeader { sec_header_flag, ..old(self).primary_header }, ..*old(self) }),
    {
        self.primary_header.sec_header_flag = sec_header_flag;
    }

    /// Secondary header flag.
    pub fn get_sec_header_flag(&self) -> (r: bool)
        ensures
            r == self.primary_header.sec_header_flag,
    {
        self.primary_header.sec_header_flag
    }

    /// Sets the application process identifier; rejects a value that
    /// exceeds the 11-bit wire slot.
    pub fn set_apid(&mut self, apid: u16) -> (r: Result<(), Error>)
        ensures
            r is Ok <==> apid < 2048,
            r is Ok ==> *final(self) == (SpacePacket { primary_header: PrimaryHeader { apid, ..old(self).primary_header }, ..*old(self) }),
            r is Err ==> *final(self) == *old(self) && r == Err::<(), Error>(Error::InvalidApid),
    {
        if apid >= 2048 {
            return Err(Error::InvalidApid);
        }
        self.primary_header.apid = apid;
        Ok(())
    }

    /// Application process identifier.
    pub fn get_apid(&self) -> (r: u16)
        ensures
            r == self.primary_header.apid,
    {
        self.primary_header.apid
    }

    /// Sets the two sequence flag bits.
    pub fn set_seq_flags(&mut self, seq_1: bool, seq_2: bool)
        ensures
            *final(self) == (SpacePacket { primary_header: PrimaryHeader { seq_flags: (seq_1, seq_2), ..old(self).primary_header }, ..*old(self) }),
    {
        self.primary_header.seq_flags.0 = seq_1;
        self.primary_header.seq_flags.1 = seq_2;
    }

    /// The two sequence flag bits.
    pub fn get_seq_flags(&self) -> (r: (bool, bool))
        ensures
            r == self.primary_header.seq_flags,
    {
        self.primary_header.seq_flags
    }

    /// Sets the packet sequence count; rejects a value that exceeds the
    /// 14-bit wire slot.
    pub fn set_packet_name(&mut self, packet_name: u16) -> (r: Result<(), Error>)
        ensures
            r is Ok <==> packet_name < 16384,
            r is Ok ==> *final(self) == (SpacePacket { primary_header: PrimaryHeader { packet_name, ..old(self).primary_header }, ..*old(self) }),
            r is Err ==> *final(self) == *old(self) && r == Err::<(), Error>(
                Error::InvalidPacketName,
            ),
    {
        if packet_name >= 16384 {
            return Err(Error::InvalidPacketName);
        }
        self.primary_header.packet_name = packet_name;
        Ok(())
    }

    /// Packet sequence count, also called packet name.
    pub fn get_packet_name(&self) -> (r: u16)
        ensures
            r == self.primary_header.packet_name,
    {
        self.primary_header.packet_name
    }

    /// Packet data length field of the primary header.
    pub fn get_data_len(&self) -> (r: u16)
        ensures
            r == self.primary_header.data_len,
    {
        self.primary_header.data_len
    }
}

} // verus!
