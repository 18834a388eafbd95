//! TC[8,1]: perform a function. Carries a fixed-width ASCII function
//! identifier and the argument bytes for the registered handler.

use crate::bits::{push_all, spec_u16_from_be, spec_u16_hi, spec_u16_lo, u16_from_be, u16_to_be};
use crate::error::Error;
use crate::server::{lemma_first_match_bounds, spec_first_match, func_id_eq, FuncMap};
use crate::sp::tc::{lemma_tc_header_round_trip, TcData, TcPacket, TcPacketHeader, TC_HEADER_LEN};
use crate::sp::{PrimaryHeader, SpacePacket, TxUserData, PEC_LEN, PH_LEN};
use crate::{spec_func_id_wf, FuncId, FUNC_ID_LEN};
use vstd::prelude::*;

verus! {

/// Service type of every function management message.
pub const SERVICE_TYPE: u8 = 8;

/// Message subtype of a TC[8,1].
pub const SERVICE_8_1_SUBTYPE: u8 = 1;

/// Least wire length of a TC[8,1]: primary header, TC secondary header,
/// function identifier, argument count and packet error control.
pub const SERVICE_8_1_MIN_LEN: usize = 30;

/// Application data of a TC[8,1] command: the function to execute and
/// its arguments.
#[derive(Debug)]
pub struct Service8_1 {
    /// Fixed-width ASCII function identifier, NUL padded.
    pub func_id: FuncId,
    /// Declared argument count; carried but not cross-checked against
    /// the argument bytes.
    pub n: u8,
    /// Argument identifier and value bytes, as the handler expects
    /// them.
    pub args_field: Vec<u8>,
}

impl TcData for Service8_1 {

}

/// The fixed-width identifier that an ASCII name denotes: its bytes,
/// NUL padded to `FUNC_ID_LEN`.
pub open spec fn spec_padded_func_id(name: Seq<char>) -> Seq<u8> {
    name.map_values(|c: char| c as u8) + Seq::new((FUNC_ID_LEN - name.len()) as nat, |i: int| 0u8)
}

impl SpacePacket<TcPacket<Service8_1>> {
    /// Shape of a valid TC[8,1] packet: a version-0 telecommand with a
    /// secondary header, service type 8, subtype 1, a well-formed
    /// function identifier and the data length the payload forces.
    pub open spec fn wf(self) -> bool {
        &&& self.primary_header.wf()
        &&& self.data.header.wf()
        &&& spec_func_id_wf(self.data.user_data.data.func_id@)
        &&& self.primary_header.ver_no == 0
        &&& self.primary_header.type_flag
        &&& self.primary_header.sec_header_flag
        &&& self.primary_header.data_len == 23 + self.data.user_data.data.args_field@.len()
        &&& self.data.header.service_type == SERVICE_TYPE
        &&& self.data.header.message_subtype == SERVICE_8_1_SUBTYPE
    }

    /// The wire bytes of the packet.
    pub open spec fn spec_to_bytes(self) -> Seq<u8> {
        self.primary_header.spec_to_bytes() + self.data.header.spec_to_bytes()
            + self.data.user_data.data.func_id@ + seq![self.data.user_data.data.n]
            + self.data.user_data.data.args_field@ + seq![
            spec_u16_hi(self.data.user_data.packet_error_control),
            spec_u16_lo(self.data.user_data.packet_error_control),
        ]
    }

    /// Whether a byte sequence is a well-shaped TC[8,1] packet.
    pub open spec fn spec_wire_ok(b: Seq<u8>) -> bool {
        let ph = PrimaryHeader::spec_parse(b.subrange(0, 6));
        let sh = TcPacketHeader::spec_parse(b.subrange(6, 11));
        &&& b.len() >= SERVICE_8_1_MIN_LEN
        &&& ph.ver_no == 0
        &&& ph.sec_header_flag
        &&& ph.type_flag
        &&& ph.data_len == b.len() - 7
        &&& sh.service_type == SERVICE_TYPE
        &&& sh.message_subtype == SERVICE_8_1_SUBTYPE
        &&& spec_func_id_wf(b.subrange(11, 27))
    }

    /// How a decoded packet relates to the byte sequence it came from.
    pub open spec fn spec_decode_rel(b: Seq<u8>, p: Self) -> bool {
        &&& p.primary_header == PrimaryHeader::spec_parse(b.subrange(0, 6))
        &&& p.data.header == TcPacketHeader::spec_parse(b.subrange(6, 11))
        &&& p.data.user_data.data.func_id@ == b.subrange(11, 27)
        &&& p.data.user_data.data.n == b[27]
        &&& p.data.user_data.data.args_field@ == b.subrange(28, b.len() - 2)
        &&& p.data.user_data.packet_error_control == spec_u16_from_be(
            b[b.len() - 2],
            b[b.len() - 1],
        )
    }

    /// The error that decoding a malformed byte sequence reports.
    pub open spec fn spec_decode_err(b: Seq<u8>) -> Error {
        if b.len() >= SERVICE_8_1_MIN_LEN && PrimaryHeader::spec_parse(b.subrange(0, 6)).ver_no
            != 0 {
            Error::InvalidVersionNo
        } else {
            Error::InvalidPacket
        }
    }

    /// Decodes a TC[8,1] packet; a function identifier that is not
    /// ASCII, and any shape mismatch, is rejected.
    pub fn from_bytes(buffer: &[u8]) -> (r: Result<Self, Error>)
        ensures
            r is Ok <==> Self::spec_wire_ok(buffer@),
            r matches Ok(p) ==> Self::spec_decode_rel(buffer@, p) && p.wf(),
            r matches Err(e) ==> e == Self::spec_decode_err(buffer@),
    {
        if buffer.len() < SERVICE_8_1_MIN_LEN {
            return Err(Error::InvalidPacket);
        }
        let primary_header = match PrimaryHeader::from_bytes(
            vstd::slice::slice_subrange(buffer, 0, PH_LEN),
        ) {
            Ok(h) => h,
            Err(e) => {
                return Err(e);
            },
        };
        if !primary_header.sec_header_flag || !primary_header.type_flag
            || primary_header.data_len as usize != buffer.len() - 7 {
            return Err(Error::InvalidPacket);
        }
        let sec_header = match TcPacketHeader::from_bytes(
            vstd::slice::slice_subrange(buffer, PH_LEN, PH_LEN + TC_HEADER_LEN),
        ) {
            Ok(h) => h,
            Err(e) => {
                return Err(e);
            },
        };
        if sec_header.service_type != SERVICE_TYPE || sec_header.message_subtype
            != SERVICE_8_1_SUBTYPE {
            return Err(Error::InvalidPacket);
        }
        let id_slice = vstd::slice::slice_subrange(buffer, 11, 11 + FUNC_ID_LEN);
        if !crate::bits::all_ascii(id_slice) {
            return Err(Error::InvalidPacket);
        }
        let func_id: FuncId = vstd::slice::slice_to_vec(id_slice);
        let n = *vstd::slice::slice_index_get(buffer, 27);
        let args_field = vstd::slice::slice_to_vec(
            vstd::slice::slice_subrange(buffer, 28, buffer.len() - PEC_LEN),
        );
        let packet_error_control = u16_from_be(
            *vstd::slice::slice_index_get(buffer, buffer.len() - 2),
            *vstd::slice::slice_index_get(buffer, buffer.len() - 1),
        );
        Ok(
            SpacePacket {
                primary_header,
                data: TcPacket {
                    header: sec_header,
                    user_data: TxUserData {
                        packet_error_control,
                        data: Service8_1 { func_id, n, args_field },
                    },
                },
            },
        )
    }

    /// What `new` builds from its arguments.
    pub open spec fn spec_new_ok(
        p: Self,
        apid: u16,
        packet_name: u16,
        func_id: Seq<char>,
        n: u8,
        args_field: Seq<u8>,
    ) -> bool {
        &&& p.primary_header == (PrimaryHeader {
            ver_no: 0,
            type_flag: true,
            sec_header_flag: true,
            apid,
            seq_flags: (true, true),
            packet_name,
            data_len: (23 + args_field.len()) as u16,
        })
        &&& p.data.header == (TcPacketHeader {
            pus_ver_no: 2,
            acknowledgement_flags: (false, false, false, false),
            service_type: SERVICE_TYPE,
            message_subtype: SERVICE_8_1_SUBTYPE,
            source_id: 0,
        })
        &&& p.data.user_data.packet_error_control == 0
        &&& p.data.user_data.data.func_id@ == spec_padded_func_id(func_id)
        &&& p.data.user_data.data.n == n
        &&& p.data.user_data.data.args_field@ == args_field
    }

    /// Builds a TC[8,1] packet; a named alias of `new`.
    pub fn new_service_8_1(
        apid: u16,
        packet_name: u16,
        func_id: String,
        n: u8,
        args_field: Vec<u8>,
    ) -> (r: Result<Self, Error>)
        ensures
            r is Ok <==> vstd::utf8::is_ascii_chars(func_id@) && func_id@.len() <= FUNC_ID_LEN
                && args_field@.len() <= 65512 && apid < 2048 && packet_name < 16384,
            r matches Ok(p) ==> Self::spec_new_ok(p, apid, packet_name, func_id@, n, args_field@)
                && p.wf(),
    {
        Self::new(apid, packet_name, func_id, n, args_field)
    }

    /// Builds a TC[8,1] packet. A name that is not ASCII or does not
    /// fit the fixed-width identifier is rejected with the offending
    /// name; arguments too long for the length field, or header fields
    /// out of bounds, are rejected as an invalid packet.
    pub fn new(
        apid: u16,
        packet_name: u16,
        func_id: String,
        n: u8,
        args_field: Vec<u8>,
    ) -> (r: Result<Self, Error>)
        ensures
            r is Ok <==> vstd::utf8::is_ascii_chars(func_id@) && func_id@.len() <= FUNC_ID_LEN
                && args_field@.len() <= 65512 && apid < 2048 && packet_name < 16384,
            r matches Ok(p) ==> Self::spec_new_ok(p, apid, packet_name, func_id@, n, args_field@)
                && p.wf(),
            r matches Err(e) ==> {
                if !(vstd::utf8::is_ascii_chars(func_id@) && func_id@.len() <= FUNC_ID_LEN) {
                    e matches Error::InvalidFuncId(f) && f@ == vstd::utf8::encode_utf8(func_id@)
                } else {
                    e == Error::InvalidPacket
                }
            },
    {
        broadcast use vstd::string::is_ascii_spec_bytes;

        proof {
            if vstd::utf8::is_ascii_chars(func_id@) {
                vstd::utf8::is_ascii_chars_encode_utf8(func_id@);
            }
        }
        let id_bytes = func_id.as_str().as_bytes_vec();
        if !func_id.as_str().is_ascii() || id_bytes.len() > FUNC_ID_LEN {
            return Err(Error::InvalidFuncId(id_bytes));
        }
        if args_field.len() > 65512 {
            return Err(Error::InvalidPacket);
        }
        let data_len: usize = PH_LEN + TC_HEADER_LEN + PEC_LEN + FUNC_ID_LEN + 1
            + args_field.len();
        let primary_header = match PrimaryHeader::new(
            0,
            true,
            true,
            apid,
            (true, true),
            packet_name,
            (data_len - PH_LEN - 1) as u16,
        ) {
            Ok(h) => h,
            Err(e) => {
                return Err(e);
            },
        };
        let sec_header = match TcPacketHeader::new(
            (false, false, false, false),
            SERVICE_TYPE,
            SERVICE_8_1_SUBTYPE,
            0,
        ) {
            Ok(h) => h,
            Err(e) => {
                return Err(e);
            },
        };
        let id = crate::server::create_func_id(func_id.as_str());
        Ok(
            SpacePacket {
                primary_header,
                data: TcPacket {
                    header: sec_header,
                    user_data: TxUserData {
                        packet_error_control: 0,
                        data: Service8_1 { func_id: id, n, args_field },
                    },
                },
            },
        )
    }

    /// Serializes the packet to its wire bytes.
    pub fn to_bytes(&self) -> (r: Vec<u8>)
        requires
            self.wf(),
        ensures
            r@ == self.spec_to_bytes(),
    {
        let mut bytes: Vec<u8> = Vec::new();
        let ph = self.primary_header.to_bytes();
        push_all(&mut bytes, ph.as_slice());
        let sh = self.data.header.to_bytes();
        push_all(&mut bytes, sh.as_slice());
        push_all(&mut bytes, self.data.user_data.data.func_id.as_slice());
        bytes.push(self.data.user_data.data.n);
        push_all(&mut bytes, self.data.user_data.data.args_field.as_slice());
        let (hi, lo) = u16_to_be(self.data.user_data.packet_error_control);
        bytes.push(hi);
        bytes.push(lo);
        proof {
            assert(bytes@ =~= self.spec_to_bytes());
        }
        bytes
    }

    /// Round-trip law: decoding the wire bytes of any well-formed
    /// TC[8,1] packet yields every field back.
    pub proof fn lemma_round_trip(p: Self)
        requires
            p.wf(),
        ensures
            Self::spec_wire_ok(p.spec_to_bytes()),
            Self::spec_decode_rel(p.spec_to_bytes(), p),
    {
        let b = p.spec_to_bytes();
        assert(b.subrange(0, 6) =~= p.primary_header.spec_to_bytes());
        assert(b.subrange(6, 11) =~= p.data.header.spec_to_bytes());
        assert(b.subrange(11, 27) =~= p.data.user_data.data.func_id@);
        assert(b[27] == p.data.user_data.data.n);
        assert(b.subrange(28, b.len() - 2) =~= p.data.user_data.data.args_field@);
        crate::sp::lemma_primary_header_round_trip(p.primary_header);
        lemma_tc_header_round_trip(p.data.header);
        crate::bits::lemma_u16_be_round_trip(p.data.user_data.packet_error_control);
    }

    /// Looks up this command's function identifier in the dispatch
    /// table. When no handler is registered the command fails with the
    /// offending identifier; otherwise the first matching handler runs
    /// on the argument bytes and its outcome is returned unchanged.
    pub fn exec_func<F: Fn(&Vec<u8>) -> Result<(), Error>>(&self, func_map: &FuncMap<F>) -> (r:
        Result<(), Error>)
        requires
            forall|i: int, a: &Vec<u8>|
                0 <= i < func_map.entries@.len() ==> #[trigger] call_requires(
                    func_map.entries@[i].1,
                    (a,),
                ),
        ensures
            ({
                let idx = spec_first_match(func_map.entries@, self.data.user_data.data.func_id@);
                &&& idx < 0 ==> (r matches Err(e) && e matches Error::InvalidFuncId(f) && f@
                    == self.data.user_data.data.func_id@)
                &&& idx >= 0 ==> call_ensures(
                    func_map.entries@[idx].1,
                    (&self.data.user_data.data.args_field,),
                    r,
                )
            }),
    {
        let ghost fid = self.data.user_data.data.func_id@;
        let mut i: usize = 0;
        while i < func_map.entries.len()
            invariant
                i <= func_map.entries@.len(),
                forall|j: int| 0 <= j < i ==> func_map.entries@[j].0@ != fid,
                fid == self.data.user_data.data.func_id@,
                forall|k: int, a: &Vec<u8>|
                    0 <= k < func_map.entries@.len() ==> #[trigger] call_requires(
                        func_map.entries@[k].1,
                        (a,),
                    ),
            decreases func_map.entries@.len() - i,
        {
            let entry = &func_map.entries[i];
            if func_id_eq(&entry.0, &self.data.user_data.data.func_id) {
                proof {
                    lemma_first_match_at(func_map.entries@, fid, i as int);
                }
                let res = (entry.1)(&self.data.user_data.data.args_field);
                return res;
            }
            i = i + 1;
        }
        proof {
            lemma_first_match_bounds(func_map.entries@, fid);
        }
        let mut name: Vec<u8> = Vec::new();
        push_all(&mut name, self.data.user_data.data.func_id.as_slice());
        Err(Error::InvalidFuncId(name))
    }
}

/// When an entry matches and none before it does, it is the first
/// match.
pub proof fn lemma_first_match_at<F>(entries: Seq<(FuncId, F)>, id: Seq<u8>, i: int)
    requires
        0 <= i < entries.len(),
        entries[i].0@ == id,
        forall|j: int| 0 <= j < i ==> entries[j].0@ != id,
    ensures
        spec_first_match(entries, id) == i,
    decreases i,
{
    if i > 0 {
        assert(forall|j: int|
            0 <= j < i - 1 ==> entries.skip(1)[j] == #[trigger] entries[j + 1]);
        lemma_first_match_at(entries.skip(1), id, i - 1);
    }
}

} // verus!
