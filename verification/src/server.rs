//! Server-side command handling: the function dispatch table, the
//! housekeeping report registry, the argument-checking front ends of
//! the registered handlers, and the per-frame decision logic.

use crate::bits::{push_all, spec_u16_hi, spec_u16_lo, u16_to_be};
use crate::error::{spec_err_code, spec_err_data, Error};
use crate::sp::service_1::{RequestId, ServiceFail, ServiceSuccess};
use crate::sp::service_3::service_3_1::Service3_1;
use crate::sp::service_3::service_3_27::Service3_27;
use crate::sp::service_3::service_3_5x6::Service3_5x6;
use crate::sp::service_8::Service8_1;
use crate::sp::tc::TcPacket;
use crate::sp::tm::TmPacket;
use crate::sp::{PrimaryHeader, Request, SpacePacket};
use crate::{FuncId, FUNC_ID_LEN};
use vstd::prelude::*;

verus! {

/// First index at which `entries` holds `id`, or -1 when absent.
pub open spec fn spec_first_match<F>(entries: Seq<(FuncId, F)>, id: Seq<u8>) -> int
    decreases entries.len(),
{
    if entries.len() == 0 {
        -1
    } else if entries[0].0@ == id {
        0
    } else {
        let rest = spec_first_match(entries.skip(1), id);
        if rest < 0 {
            -1
        } else {
            rest + 1
        }
    }
}

/// The first match lies inside the sequence and matches, and nothing
/// before it does.
pub proof fn lemma_first_match_bounds<F>(entries: Seq<(FuncId, F)>, id: Seq<u8>)
    ensures
        spec_first_match(entries, id) >= 0 ==> {
            &&& spec_first_match(entries, id) < entries.len()
            &&& entries[spec_first_match(entries, id)].0@ == id
        },
        spec_first_match(entries, id) < 0 ==> forall|i: int|
            0 <= i < entries.len() ==> entries[i].0@ != id,
    decreases entries.len(),
{
    if entries.len() > 0 && entries[0].0@ != id {
        lemma_first_match_bounds(entries.skip(1), id);
        if spec_first_match(entries, id) < 0 {
            assert forall|i: int| 0 <= i < entries.len() implies entries[i].0@ != id by {
                if i >= 1 {
                    assert(entries[i] == entries.skip(1)[i - 1]);
                }
            }
        }
    }
}

/// Function dispatch table: maps a fixed-width function identifier to a
/// registered handler. Built once at startup, looked up per command.
pub struct FuncMap<F> {
    pub entries: Vec<(FuncId, F)>,
}

impl<F: Fn(&Vec<u8>) -> Result<(), Error>> FuncMap<F> {
    /// Whether the table holds a handler for `id`.
    pub open spec fn spec_contains(self, id: Seq<u8>) -> bool {
        spec_first_match(self.entries@, id) >= 0
    }

    /// Creates an empty table.
    pub fn new() -> (r: Self)
        ensures
            r.entries@.len() == 0,
    {
        FuncMap { entries: Vec::new() }
    }

    /// Registers a handler for `id`, behind any handler registered
    /// earlier for the same identifier.
    pub fn insert(&mut self, id: FuncId, f: F)
        ensures
            final(self).entries@ == old(self).entries@.push((id, f)),
    {
        self.entries.push((id, f));
    }

    /// Number of registered handlers.
    pub fn len(&self) -> (r: usize)
        ensures
            r == self.entries@.len(),
    {
        self.entries.len()
    }
}

/// Whether two byte vectors hold the same bytes.
pub fn func_id_eq(a: &Vec<u8>, b: &Vec<u8>) -> (r: bool)
    ensures
        r == (a@ == b@),
{
    if a.len() != b.len() {
        return false;
    }
    let mut i: usize = 0;
    while i < a.len()
        invariant
            i <= a@.len(),
            a@.len() == b@.len(),
            forall|j: int| 0 <= j < i ==> a@[j] == b@[j],
        decreases a@.len() - i,
    {
        if a[i] != b[i] {
            return false;
        }
        i = i + 1;
    }
    proof {
        assert(a@ =~= b@);
    }
    true
}

/// Builds a function identifier from an ASCII name of at most
/// `FUNC_ID_LEN` bytes, padded with NUL bytes to the fixed width.
pub fn create_func_id(name: &str) -> (r: FuncId)
    requires
        name.is_ascii(),
        name@.len() <= FUNC_ID_LEN,
    ensures
        crate::spec_func_id_wf(r@),
        r@ == name@.map_values(|c: char| c as u8) + Seq::new(
            (FUNC_ID_LEN - name@.len()) as nat,
            |i: int| 0u8,
        ),
{
    broadcast use vstd::string::is_ascii_spec_bytes;

    let mut r = name.as_bytes_vec();
    proof {
        assert(r@ =~= name@.map_values(|c: char| c as u8));
    }
    while r.len() < FUNC_ID_LEN
        invariant
            name@.len() <= r@.len() <= FUNC_ID_LEN,
            r@.subrange(0, name@.len() as int) == name@.map_values(|c: char| c as u8),
            forall|j: int| name@.len() <= j < r@.len() ==> r@[j] == 0u8,
        decreases FUNC_ID_LEN - r@.len(),
    {
        proof {
            assert(r@.push(0u8).subrange(0, name@.len() as int) =~= r@.subrange(
                0,
                name@.len() as int,
            ));
        }
        r.push(0u8);
    }
    proof {
        assert(vstd::utf8::is_ascii_chars(name@));
        let mapped = name@.map_values(|c: char| c as u8);
        assert(forall|j: int| 0 <= j < name@.len() ==> (#[trigger] r@[j]) == mapped[j]) by {
            assert(forall|j: int|
                0 <= j < name@.len() ==> r@.subrange(0, name@.len() as int)[j] == #[trigger] r@[j]);
        }
        assert(forall|j: int| 0 <= j < name@.len() ==> mapped[j] < 128);
        assert(r@ =~= name@.map_values(|c: char| c as u8) + Seq::new(
            (FUNC_ID_LEN - name@.len()) as nat,
            |i: int| 0u8,
        ));
    }
    r
}

/// Number of controllable LEDs on the board this server drives.
pub const LED_COUNT: usize = 3;

/// Argument-checking front end of the `turn_led` handler: one argument
/// byte, the desired LED state. Returns the decoded state; the caller
/// drives the hardware.
pub fn pre_turn_led(args: &Vec<u8>) -> (r: Result<bool, Error>)
    ensures
        r is Ok <==> args@.len() == 1,
        r matches Ok(on) ==> on == (args@[0] != 0),
        r is Err ==> r == Err::<bool, Error>(Error::InvalidArg),
{
    if args.len() != 1 {
        return Err(Error::InvalidArg);
    }
    Ok(args[0] != 0)
}

/// Argument-checking front end of the `set_led` handler: an LED number
/// below `LED_COUNT` and the desired state. Returns the decoded pair;
/// the caller drives the hardware.
pub fn pre_set_led(args: &Vec<u8>) -> (r: Result<(u8, bool), Error>)
    ensures
        r is Ok <==> args@.len() == 2 && args@[0] < LED_COUNT,
        r matches Ok(led) ==> led.0 == args@[0] && led.0 < LED_COUNT && led.1 == (args@[1] != 0),
        r is Err ==> r == Err::<(u8, bool), Error>(Error::InvalidArg),
{
    if args.len() != 2 {
        return Err(Error::InvalidArg);
    }
    if args[0] as usize >= LED_COUNT {
        return Err(Error::InvalidArg);
    }
    Ok((args[0], args[1] != 0))
}

/// Reads the service type and message subtype of a framed packet from
/// their fixed wire offsets.
pub fn mes_type_from_bytes(buf: &[u8]) -> (r: (u8, u8))
    requires
        buf@.len() > 8,
    ensures
        r.0 == buf@[7] && r.1 == buf@[8],
{
    (*vstd::slice::slice_index_get(buf, 7), *vstd::slice::slice_index_get(buf, 8))
}

/// One entry of the housekeeping report registry: the defining TC[3,1]
/// command and whether periodic reporting is enabled for it.
#[derive(Debug)]
pub struct HkEntry {
    /// The TC[3,1] command that defined this report structure.
    pub definition: SpacePacket<TcPacket<Service3_1>>,
    /// Whether the periodic timer reports this structure.
    pub enabled: bool,
}

/// The housekeeping structure identifier an entry is keyed by.
pub open spec fn spec_entry_id(e: HkEntry) -> u8 {
    e.definition.data.user_data.data.housekeeping_report_id
}

/// First index at which `entries` holds the identifier `id`, or -1
/// when absent.
pub open spec fn spec_find_entry(entries: Seq<HkEntry>, id: u8) -> int
    decreases entries.len(),
{
    if entries.len() == 0 {
        -1
    } else if spec_entry_id(entries[0]) == id {
        0
    } else {
        let rest = spec_find_entry(entries.skip(1), id);
        if rest < 0 {
            -1
        } else {
            rest + 1
        }
    }
}

/// The found index lies inside the sequence and carries the identifier,
/// and a negative answer means no entry carries it.
pub proof fn lemma_find_entry_bounds(entries: Seq<HkEntry>, id: u8)
    ensures
        spec_find_entry(entries, id) >= 0 ==> {
            &&& spec_find_entry(entries, id) < entries.len()
            &&& spec_entry_id(entries[spec_find_entry(entries, id)]) == id
        },
        spec_find_entry(entries, id) < 0 ==> forall|i: int|
            0 <= i < entries.len() ==> spec_entry_id(entries[i]) != id,
    decreases entries.len(),
{
    if entries.len() > 0 && spec_entry_id(entries[0]) != id {
        lemma_find_entry_bounds(entries.skip(1), id);
        if spec_find_entry(entries, id) < 0 {
            assert forall|i: int| 0 <= i < entries.len() implies spec_entry_id(entries[i])
                != id by {
                if i >= 1 {
                    assert(entries[i] == entries.skip(1)[i - 1]);
                }
            }
        }
    }
}

/// When an entry carries the identifier and none before it does, it is
/// the one found.
pub proof fn lemma_find_entry_at(entries: Seq<HkEntry>, id: u8, i: int)
    requires
        0 <= i < entries.len(),
        spec_entry_id(entries[i]) == id,
        forall|j: int| 0 <= j < i ==> spec_entry_id(entries[j]) != id,
    ensures
        spec_find_entry(entries, id) == i,
    decreases i,
{
    if i > 0 {
        assert(forall|j: int|
            0 <= j < i - 1 ==> entries.skip(1)[j] == #[trigger] entries[j + 1]);
        lemma_find_entry_at(entries.skip(1), id, i - 1);
    }
}

/// Housekeeping report registry: maps a housekeeping structure
/// identifier to its defining TC[3,1] command and an enabled flag for
/// periodic reporting.
#[derive(Debug)]
pub struct HkRegistry {
    pub entries: Vec<HkEntry>,
}

impl HkRegistry {
    /// Identifiers are unique and every stored definition is a valid
    /// TC[3,1] packet.
    pub open spec fn wf(self) -> bool {
        &&& forall|i: int, j: int|
            0 <= i < j < self.entries@.len() ==> spec_entry_id(self.entries@[i]) != spec_entry_id(
                self.entries@[j],
            )
        &&& forall|i: int| 0 <= i < self.entries@.len() ==> (#[trigger] self.entries@[i]).definition.wf()
    }

    /// Whether the registry holds an entry for `id`.
    pub open spec fn spec_contains(self, id: u8) -> bool {
        spec_find_entry(self.entries@, id) >= 0
    }

    /// Creates an empty registry.
    pub fn new() -> (r: Self)
        ensures
            r.entries@.len() == 0,
            r.wf(),
    {
        HkRegistry { entries: Vec::new() }
    }

    /// What `create` leaves behind: the definition stored under its own
    /// identifier with periodic reporting off, every other entry
    /// untouched. A duplicate identifier is overwritten silently.
    pub open spec fn spec_create_post(
        old_entries: Seq<HkEntry>,
        new_entries: Seq<HkEntry>,
        definition: SpacePacket<TcPacket<Service3_1>>,
    ) -> bool {
        let id = definition.data.user_data.data.housekeeping_report_id;
        let idx = spec_find_entry(old_entries, id);
        if idx >= 0 {
            new_entries == old_entries.update(
                idx,
                HkEntry { definition, enabled: false },
            )
        } else {
            new_entries == old_entries.push(HkEntry { definition, enabled: false })
        }
    }

    /// Registers a housekeeping report structure: stores its defining
    /// command under its identifier with periodic reporting disabled,
    /// silently overwriting any previous entry with that identifier.
    pub fn create(&mut self, definition: SpacePacket<TcPacket<Service3_1>>)
        requires
            old(self).wf(),
            definition.wf(),
        ensures
            final(self).wf(),
            Self::spec_create_post(old(self).entries@, final(self).entries@, definition),
    {
        let ghost old_entries = self.entries@;
        let id = definition.hk_id();
        let mut i: usize = 0;
        while i < self.entries.len()
            invariant
                i <= self.entries@.len(),
                self.entries@ == old_entries,
                old_entries == old(self).entries@,
                old(self).wf(),
                definition.wf(),
                forall|j: int| 0 <= j < i ==> spec_entry_id(old_entries[j]) != id,
                id == definition.data.user_data.data.housekeeping_report_id,
            decreases self.entries@.len() - i,
        {
            let existing = self.entries[i].definition.hk_id();
            if existing == id {
                proof {
                    lemma_find_entry_at(old_entries, id, i as int);
                }
                self.entries[i] = HkEntry { definition, enabled: false };
                return ;
            }
            i = i + 1;
        }
        proof {
            lemma_find_entry_bounds(old_entries, id);
        }
        self.entries.push(HkEntry { definition, enabled: false });
    }

    /// What `set_enabled` leaves behind: every entry whose identifier
    /// is listed gets the new flag, every other entry is untouched.
    pub open spec fn spec_set_enabled_post(
        old_entries: Seq<HkEntry>,
        new_entries: Seq<HkEntry>,
        ids: Seq<u8>,
        enabled: bool,
    ) -> bool {
        &&& new_entries.len() == old_entries.len()
        &&& forall|k: int|
            0 <= k < old_entries.len() ==> (#[trigger] new_entries[k]) == if ids.contains(
                spec_entry_id(old_entries[k]),
            ) {
                HkEntry { enabled, ..old_entries[k] }
            } else {
                old_entries[k]
            }
    }

    /// Sets the periodic-reporting flag of every listed identifier that
    /// is present; absent identifiers are silently skipped. Returns
    /// whether any flag actually changed.
    pub fn set_enabled(&mut self, ids: &Vec<u8>, enabled: bool) -> (toggled: bool)
        requires
            old(self).wf(),
        ensures
            final(self).wf(),
            Self::spec_set_enabled_post(old(self).entries@, final(self).entries@, ids@, enabled),
            toggled <==> exists|k: int|
                0 <= k < old(self).entries@.len() && ids@.contains(
                    spec_entry_id(old(self).entries@[k]),
                ) && (#[trigger] old(self).entries@[k]).enabled != enabled,
    {
        let ghost old_entries = self.entries@;
        let mut toggled = false;
        let mut k: usize = 0;
        while k < self.entries.len()
            invariant
                k <= self.entries@.len(),
                self.entries@.len() == old_entries.len(),
                forall|j: int|
                    0 <= j < old_entries.len() ==> spec_entry_id(#[trigger] self.entries@[j])
                        == spec_entry_id(old_entries[j]) && self.entries@[j].definition
                        == old_entries[j].definition,
                forall|j: int|
                    k <= j < old_entries.len() ==> (#[trigger] self.entries@[j]) == old_entries[j],
                forall|j: int|
                    0 <= j < k ==> (#[trigger] self.entries@[j]) == if ids@.contains(
                        spec_entry_id(old_entries[j]),
                    ) {
                        HkEntry { enabled, ..old_entries[j] }
                    } else {
                        old_entries[j]
                    },
                toggled <==> exists|j: int|
                    0 <= j < k && ids@.contains(spec_entry_id(old_entries[j])) && (
                    #[trigger] old_entries[j]).enabled != enabled,
                old(self).wf(),
            decreases self.entries@.len() - k,
        {
            let id = self.entries[k].definition.hk_id();
            let mut found = false;
            let mut m: usize = 0;
            while m < ids.len()
                invariant
                    m <= ids@.len(),
                    found <==> exists|t: int| 0 <= t < m && ids@[t] == id,
                decreases ids@.len() - m,
            {
                if ids[m] == id {
                    found = true;
                }
                m = m + 1;
            }
            proof {
                assert(found == ids@.contains(id));
            }
            if found {
                if self.entries[k].enabled != enabled {
                    toggled = true;
                }
                self.entries[k].enabled = enabled;
            }
            k = k + 1;
        }
        toggled
    }
}

/// The sampled value bytes for a parameter list: parameter 0 samples
/// the sensor reading as two big-endian bytes; any other parameter
/// identifier is skipped silently.
pub open spec fn spec_sample_bytes(params: Seq<u8>, param0: u16) -> Seq<u8>
    decreases params.len(),
{
    if params.len() == 0 {
        Seq::empty()
    } else {
        (if params[0] == 0 {
            seq![spec_u16_hi(param0), spec_u16_lo(param0)]
        } else {
            Seq::<u8>::empty()
        }) + spec_sample_bytes(params.skip(1), param0)
    }
}

/// At most two bytes are sampled per declared parameter.
pub proof fn lemma_sample_bytes_len(params: Seq<u8>, param0: u16)
    ensures
        spec_sample_bytes(params, param0).len() <= 2 * params.len(),
    decreases params.len(),
{
    if params.len() > 0 {
        lemma_sample_bytes_len(params.skip(1), param0);
    }
}

/// Samples every declared parameter of a report structure against the
/// current sensor reading for parameter 0.
pub fn sample_params(params: &Vec<u8>, param0: u16) -> (r: Vec<u8>)
    ensures
        r@ == spec_sample_bytes(params@, param0),
{
    let mut r: Vec<u8> = Vec::new();
    let (hi, lo) = u16_to_be(param0);
    let mut i: usize = 0;
    proof {
        assert(params@.skip(0) =~= params@);
    }
    while i < params.len()
        invariant
            i <= params@.len(),
            hi == spec_u16_hi(param0),
            lo == spec_u16_lo(param0),
            spec_sample_bytes(params@, param0) == r@ + spec_sample_bytes(
                params@.skip(i as int),
                param0,
            ),
        decreases params@.len() - i,
    {
        proof {
            assert(params@.skip(i as int).skip(1) =~= params@.skip(i + 1));
            assert(params@.skip(i as int)[0] == params@[i as int]);
        }
        if params[i] == 0 {
            r.push(hi);
            r.push(lo);
        }
        i = i + 1;
    }
    proof {
        assert(params@.skip(params@.len() as int) =~= Seq::<u8>::empty());
        assert(r@ =~= r@ + Seq::<u8>::empty());
    }
    r
}

/// The wire bytes of the TM[3,25] report that the generator emits for
/// a housekeeping structure: destination and counter fixed at 42 and
/// 0, the sampled values as payload, and a zero packet error control.
pub open spec fn spec_tm3_25_bytes(hk_id: u8, value: Seq<u8>) -> Seq<u8> {
    (crate::sp::PrimaryHeader {
        ver_no: 0,
        type_flag: false,
        sec_header_flag: true,
        apid: 42,
        seq_flags: (true, true),
        packet_name: 0,
        data_len: (11 + value.len()) as u16,
    }).spec_to_bytes() + (crate::sp::tm::TmPacketHeader {
        pus_ver_no: 2,
        time_ref_status: 0,
        service_type: 3,
        message_subtype: 25,
        message_type_counter: 0,
        destination_id: 42,
        abs_time: 0,
    }).spec_to_bytes() + seq![hk_id] + value + seq![0u8, 0u8]
}

/// The wire bytes of the TM[1,7] success acknowledgement that the
/// server emits for a request: destination 42, name 0, a zero packet
/// error control.
pub open spec fn spec_tm1_7_bytes(req: RequestId) -> Seq<u8> {
    (PrimaryHeader {
        ver_no: 0,
        type_flag: false,
        sec_header_flag: true,
        apid: req.apid,
        seq_flags: (true, true),
        packet_name: 0,
        data_len: 14,
    }).spec_to_bytes() + (crate::sp::tm::TmPacketHeader {
        pus_ver_no: 2,
        time_ref_status: 0,
        service_type: 1,
        message_subtype: 7,
        message_type_counter: 0,
        destination_id: 42,
        abs_time: 0,
    }).spec_to_bytes() + req.spec_to_bytes() + seq![0u8, 0u8]
}

/// The wire bytes of the TM[1,8] failure acknowledgement that the
/// server emits for a request: destination and name 0, the numeric
/// error code with its data, a zero packet error control.
pub open spec fn spec_tm1_8_bytes(req: RequestId, err_code: u8, err_data: Seq<u8>) -> Seq<u8> {
    (PrimaryHeader {
        ver_no: 0,
        type_flag: false,
        sec_header_flag: true,
        apid: req.apid,
        seq_flags: (true, true),
        packet_name: 0,
        data_len: (15 + err_data.len()) as u16,
    }).spec_to_bytes() + (crate::sp::tm::TmPacketHeader {
        pus_ver_no: 2,
        time_ref_status: 0,
        service_type: 1,
        message_subtype: 8,
        message_type_counter: 0,
        destination_id: 0,
        abs_time: 0,
    }).spec_to_bytes() + req.spec_to_bytes() + seq![err_code] + err_data + seq![0u8, 0u8]
}

/// The wire bytes of the TM[1,8] failure report that the generator
/// emits when a structure yields no sampled values: the invalid-packet
/// error code with no error data.
pub open spec fn spec_tm1_8_empty_bytes(req: RequestId) -> Seq<u8> {
    spec_tm1_8_bytes(req, crate::error::spec_err_code(Error::InvalidPacket), Seq::empty())
}

/// The report bytes that one housekeeping structure contributes: a
/// TM[3,25] parameter report when sampling yielded bytes, else a
/// TM[1,8] failure report correlated to the defining command.
pub open spec fn spec_report_for(e: HkEntry, param0: u16) -> Seq<u8> {
    let value = spec_sample_bytes(e.definition.data.user_data.data.parameter_ids@, param0);
    if value.len() > 0 {
        spec_tm3_25_bytes(e.definition.data.user_data.data.housekeeping_report_id, value)
    } else {
        spec_tm1_8_empty_bytes(e.definition.spec_request())
    }
}

/// The concatenated report bytes of a one-shot request: one report per
/// listed identifier that the registry holds, in list order; absent
/// identifiers contribute nothing.
pub open spec fn spec_one_shot(entries: Seq<HkEntry>, ids: Seq<u8>, param0: u16) -> Seq<u8>
    decreases ids.len(),
{
    if ids.len() == 0 {
        Seq::empty()
    } else {
        (if spec_find_entry(entries, ids[0]) >= 0 {
            spec_report_for(entries[spec_find_entry(entries, ids[0])], param0)
        } else {
            Seq::<u8>::empty()
        }) + spec_one_shot(entries, ids.skip(1), param0)
    }
}

/// The concatenated report bytes of a periodic tick: one report per
/// enabled registry entry, in registry order.
pub open spec fn spec_periodic(entries: Seq<HkEntry>, param0: u16) -> Seq<u8>
    decreases entries.len(),
{
    if entries.len() == 0 {
        Seq::empty()
    } else {
        (if entries[0].enabled {
            spec_report_for(entries[0], param0)
        } else {
            Seq::<u8>::empty()
        }) + spec_periodic(entries.skip(1), param0)
    }
}

impl HkRegistry {
    /// Emits the report bytes that the entry at `idx` contributes,
    /// appending them to `out`.
    fn report_entry(&self, idx: usize, param0: u16, out: &mut Vec<u8>)
        requires
            self.wf(),
            idx < self.entries@.len(),
        ensures
            final(out)@ == old(out)@ + spec_report_for(self.entries@[idx as int], param0),
    {
        let entry = &self.entries[idx];
        let value = sample_params(entry.definition.get_params(), param0);
        let hk_id = entry.definition.hk_id();
        proof {
            lemma_sample_bytes_len(entry.definition.data.user_data.data.parameter_ids@, param0);
        }
        if value.len() > 0 {
            let ghost v = value@;
            let tm = match SpacePacket::new_service_3_25(42, 0, hk_id, value) {
                Ok(t) => t,
                Err(_) => {
                    proof {
                        assert(false);
                    }
                    return ;
                },
            };
            let bytes = tm.to_bytes();
            push_all(out, bytes.as_slice());
            proof {
                assert(tm.spec_to_bytes() =~= spec_tm3_25_bytes(
                    self.entries@[idx as int].definition.data.user_data.data.housekeeping_report_id,
                    v,
                ));
            }
        } else {
            let (err_code, err_data) = crate::error::get_err_code_n_data(Error::InvalidPacket);
            let report = match SpacePacket::new_service_1_8(
                &self.entries[idx].definition,
                0,
                0,
                err_code,
                err_data,
            ) {
                Ok(t) => t,
                Err(_) => {
                    proof {
                        assert(false);
                    }
                    return ;
                },
            };
            let bytes = report.to_bytes();
            push_all(out, bytes.as_slice());
            proof {
                assert(report.spec_to_bytes() =~= spec_tm1_8_empty_bytes(
                    self.entries@[idx as int].definition.spec_request(),
                ));
            }
        }
    }

    /// Finds the entry for an identifier, if any.
    fn find(&self, id: u8) -> (r: Option<usize>)
        ensures
            r matches Some(idx) ==> idx == spec_find_entry(self.entries@, id) && idx
                < self.entries@.len(),
            r is None ==> spec_find_entry(self.entries@, id) < 0,
    {
        let mut i: usize = 0;
        while i < self.entries.len()
            invariant
                i <= self.entries@.len(),
                forall|j: int| 0 <= j < i ==> spec_entry_id(self.entries@[j]) != id,
            decreases self.entries@.len() - i,
        {
            if self.entries[i].definition.hk_id() == id {
                proof {
                    lemma_find_entry_at(self.entries@, id, i as int);
                }
                return Some(i);
            }
            i = i + 1;
        }
        proof {
            lemma_find_entry_bounds(self.entries@, id);
        }
        None
    }

    /// Generates one-shot parameter reports: one TM[3,25] per listed
    /// identifier present in the registry, sampling parameter 0 from
    /// the sensor reading handed in; unknown identifiers are skipped
    /// silently, and a structure with no sampled values yields a
    /// TM[1,8] failure report instead.
    pub fn one_shot_report(&self, ids: &Vec<u8>, param0: u16) -> (report: Vec<u8>)
        requires
            self.wf(),
        ensures
            report@ == spec_one_shot(self.entries@, ids@, param0),
    {
        let mut report: Vec<u8> = Vec::new();
        let mut i: usize = 0;
        proof {
            assert(ids@.skip(0) =~= ids@);
        }
        while i < ids.len()
            invariant
                i <= ids@.len(),
                self.wf(),
                spec_one_shot(self.entries@, ids@, param0) == report@ + spec_one_shot(
                    self.entries@,
                    ids@.skip(i as int),
                    param0,
                ),
            decreases ids@.len() - i,
        {
            proof {
                assert(ids@.skip(i as int).skip(1) =~= ids@.skip(i + 1));
                assert(ids@.skip(i as int)[0] == ids@[i as int]);
            }
            match self.find(ids[i]) {
                Some(idx) => {
                    self.report_entry(idx, param0, &mut report);
                },
                None => {
                },
            }
            i = i + 1;
        }
        proof {
            assert(ids@.skip(ids@.len() as int) =~= Seq::<u8>::empty());
            assert(report@ =~= report@ + Seq::<u8>::empty());
        }
        report
    }

    /// Generates the periodic tick's parameter reports: one TM[3,25]
    /// per enabled registry entry, in registry order, sampling
    /// parameter 0 from the sensor reading handed in.
    pub fn periodic_report(&self, param0: u16) -> (report: Vec<u8>)
        requires
            self.wf(),
        ensures
            report@ == spec_periodic(self.entries@, param0),
    {
        let mut report: Vec<u8> = Vec::new();
        let mut i: usize = 0;
        proof {
            assert(self.entries@.skip(0) =~= self.entries@);
        }
        while i < self.entries.len()
            invariant
                i <= self.entries@.len(),
                self.wf(),
                spec_periodic(self.entries@, param0) == report@ + spec_periodic(
                    self.entries@.skip(i as int),
                    param0,
                ),
            decreases self.entries@.len() - i,
        {
            proof {
                assert(self.entries@.skip(i as int).skip(1) =~= self.entries@.skip(i + 1));
                assert(self.entries@.skip(i as int)[0] == self.entries@[i as int]);
            }
            if self.entries[i].enabled {
                self.report_entry(i, param0, &mut report);
            }
            i = i + 1;
        }
        proof {
            assert(self.entries@.skip(self.entries@.len() as int) =~= Seq::<HkEntry>::empty());
            assert(report@ =~= report@ + Seq::<u8>::empty());
        }
        report
    }
}

/// Appends the TM[1,7] success acknowledgement for `request`.
fn push_ack_success<T: Request>(request: &T, out: &mut Vec<u8>)
    requires
        request.req_wf(),
    ensures
        final(out)@ == old(out)@ + spec_tm1_7_bytes(request.spec_request()),
{
    match SpacePacket::<TmPacket<ServiceSuccess>>::new_service_1_7(request, 42, 0) {
        Ok(t) => {
            let bytes = t.to_bytes();
            push_all(out, bytes.as_slice());
            proof {
                assert(t.spec_to_bytes() =~= spec_tm1_7_bytes(request.spec_request()));
            }
        },
        Err(_) => {
            proof {
                assert(false);
            }
        },
    }
}

/// Appends the TM[1,8] failure acknowledgement for `request`; error
/// data too long for the length field yields no report, as the frame
/// then cannot be encoded.
fn push_ack_failure<T: Request>(request: &T, err_code: u8, err_data: Vec<u8>, out: &mut Vec<u8>)
    requires
        request.req_wf(),
        err_code < crate::error::ERR_CODE_COUNT,
    ensures
        final(out)@ == old(out)@ + (if err_data@.len() <= 65520 {
            spec_tm1_8_bytes(request.spec_request(), err_code, err_data@)
        } else {
            Seq::<u8>::empty()
        }),
{
    let ghost ed = err_data@;
    match SpacePacket::<TmPacket<ServiceFail>>::new_service_1_8(request, 0, 0, err_code, err_data) {
        Ok(t) => {
            let bytes = t.to_bytes();
            push_all(out, bytes.as_slice());
            proof {
                assert(t.spec_to_bytes() =~= spec_tm1_8_bytes(
                    request.spec_request(),
                    err_code,
                    ed,
                ));
            }
        },
        Err(_) => {
        },
    }
}

/// The request identifier that the primary header at the front of a
/// frame denotes.
pub open spec fn spec_req_of(b: Seq<u8>) -> RequestId {
    let ph = PrimaryHeader::spec_parse(b.subrange(0, 6));
    RequestId {
        ver_no: ph.ver_no,
        packet_type: ph.type_flag,
        sec_header_flag: ph.sec_header_flag,
        apid: ph.apid,
        seq_flags: ph.seq_flags,
        packet_seq_count: ph.packet_name,
    }
}

/// Outcome of handling one framed packet: the report bytes to transmit
/// as one contiguous sequence, and whether the periodic timer must be
/// switched.
#[derive(Debug)]
pub struct FrameOutcome {
    /// Verification and parameter reports to send back, back to back.
    pub report: Vec<u8>,
    /// `Some(true)` to start listening to the periodic timer,
    /// `Some(false)` to stop, `None` to leave it untouched.
    pub timer_enable: Option<bool>,
}

/// Handles one framed packet end to end: reads the service type and
/// subtype at their fixed offsets, decodes the matching telecommand,
/// executes it against the dispatch table or the housekeeping registry,
/// and returns the reports to transmit. A frame that does not decode
/// leaves the registry untouched and produces no report; every framed
/// TC[8,1] that decodes yields exactly one acknowledgement, TM[1,7] on
/// handler success and TM[1,8] with the numeric error code on failure,
/// correlated to the command through its request identifier.
pub fn handle_frame<F: Fn(&Vec<u8>) -> Result<(), Error>>(
    buffer: &[u8],
    funcs: &FuncMap<F>,
    registry: &mut HkRegistry,
    param0: u16,
) -> (out: FrameOutcome)
    requires
        old(registry).wf(),
        forall|i: int, a: &Vec<u8>|
            0 <= i < funcs.entries@.len() ==> #[trigger] call_requires(
                funcs.entries@[i].1,
                (a,),
            ),
    ensures
        final(registry).wf(),
        (buffer@.len() <= 11 || !((buffer@[7] == 8 && buffer@[8] == 1) || (buffer@[7] == 3 && (
        buffer@[8] == 1 || buffer@[8] == 27 || buffer@[8] == 5 || buffer@[8] == 6)))) ==> (
        out.report@ == Seq::<u8>::empty() && out.timer_enable is None && final(registry).entries@
            == old(registry).entries@),
        buffer@.len() > 11 && buffer@[7] == 8 && buffer@[8] == 1 ==> {
            &&& final(registry).entries@ == old(registry).entries@
            &&& out.timer_enable is None
            &&& !SpacePacket::<TcPacket<Service8_1>>::spec_wire_ok(buffer@) ==> out.report@
                == Seq::<u8>::empty()
            &&& SpacePacket::<TcPacket<Service8_1>>::spec_wire_ok(buffer@) ==> {
                let fid = buffer@.subrange(11, 27);
                let idx = spec_first_match(funcs.entries@, fid);
                let req = spec_req_of(buffer@);
                &&& idx < 0 ==> out.report@ == spec_tm1_8_bytes(req, 6, fid)
                &&& idx >= 0 ==> exists|a: Vec<u8>, res: Result<(), Error>|
                    a@ == buffer@.subrange(28, buffer@.len() - 2) && #[trigger] call_ensures(
                        funcs.entries@[idx].1,
                        (&a,),
                        res,
                    ) && out.report@ == (match res {
                        Ok(_) => spec_tm1_7_bytes(req),
                        Err(e) => if spec_err_data(e).len() <= 65520 {
                            spec_tm1_8_bytes(req, spec_err_code(e), spec_err_data(e))
                        } else {
                            Seq::<u8>::empty()
                        },
                    })
            }
        },
        buffer@.len() > 11 && buffer@[7] == 3 && buffer@[8] == 1 ==> {
            &&& out.timer_enable is None
            &&& !SpacePacket::<TcPacket<Service3_1>>::spec_wire_ok(buffer@) ==> (out.report@
                == Seq::<u8>::empty() && final(registry).entries@ == old(registry).entries@)
            &&& SpacePacket::<TcPacket<Service3_1>>::spec_wire_ok(buffer@) ==> {
                &&& out.report@ == spec_tm1_7_bytes(spec_req_of(buffer@))
                &&& exists|d: SpacePacket<TcPacket<Service3_1>>|
                    #[trigger] SpacePacket::<TcPacket<Service3_1>>::spec_decode_rel(buffer@, d)
                        && d.wf() && HkRegistry::spec_create_post(
                        old(registry).entries@,
                        final(registry).entries@,
                        d,
                    )
            }
        },
        buffer@.len() > 11 && buffer@[7] == 3 && buffer@[8] == 27 ==> {
            &&& final(registry).entries@ == old(registry).entries@
            &&& out.timer_enable is None
            &&& !SpacePacket::<TcPacket<Service3_27>>::spec_wire_ok(buffer@) ==> out.report@
                == Seq::<u8>::empty()
            &&& SpacePacket::<TcPacket<Service3_27>>::spec_wire_ok(buffer@) ==> out.report@
                == spec_one_shot(
                old(registry).entries@,
                buffer@.subrange(12, buffer@.len() - 2),
                param0,
            ) + spec_tm1_7_bytes(spec_req_of(buffer@))
        },
        buffer@.len() > 11 && buffer@[7] == 3 && (buffer@[8] == 5 || buffer@[8] == 6) ==> {
            &&& out.report@ == Seq::<u8>::empty()
            &&& !SpacePacket::<TcPacket<Service3_5x6>>::spec_wire_ok(buffer@) ==> (
            out.timer_enable is None && final(registry).entries@ == old(registry).entries@)
            &&& SpacePacket::<TcPacket<Service3_5x6>>::spec_wire_ok(buffer@) ==> {
                let ids = buffer@.subrange(12, buffer@.len() - 2);
                let en = buffer@[8] == 5;
                &&& HkRegistry::spec_set_enabled_post(
                    old(registry).entries@,
                    final(registry).entries@,
                    ids,
                    en,
                )
                &&& out.timer_enable == (if exists|k: int|
                    0 <= k < old(registry).entries@.len() && ids.contains(
                        spec_entry_id(old(registry).entries@[k]),
                    ) && (#[trigger] old(registry).entries@[k]).enabled != en {
                    Some(en)
                } else {
                    None::<bool>
                })
            }
        },
{
    let mut report: Vec<u8> = Vec::new();
    let mut timer_enable: Option<bool> = None;
    if buffer.len() <= 11 {
        return FrameOutcome { report, timer_enable };
    }
    let mes = mes_type_from_bytes(buffer);
    if mes.0 == 8 && mes.1 == 1 {
        match SpacePacket::<TcPacket<Service8_1>>::from_bytes(buffer) {
            Ok(p) => {
                let res = p.exec_func(funcs);
                let ghost gres = res;
                match res {
                    Ok(_) => {
                        push_ack_success(&p, &mut report);
                    },
                    Err(e) => {
                        let (err_code, err_data) = crate::error::get_err_code_n_data(e);
                        push_ack_failure(&p, err_code, err_data, &mut report);
                    },
                }
                proof {
                    let fid = buffer@.subrange(11, 27);
                    let idx = spec_first_match(funcs.entries@, fid);
                    if idx >= 0 {
                        let a = p.data.user_data.data.args_field;
                        assert(call_ensures(funcs.entries@[idx].1, (&a,), gres));
                    } else {
                        assert(report@ =~= spec_tm1_8_bytes(
                            spec_req_of(buffer@),
                            6,
                            fid,
                        ));
                    }
                }
            },
            Err(_) => {
            },
        }
    } else if mes.0 == 3 && mes.1 == 1 {
        match SpacePacket::<TcPacket<Service3_1>>::from_bytes(buffer) {
            Ok(p) => {
                push_ack_success(&p, &mut report);
                let ghost gp = p;
                registry.create(p);
                proof {
                    assert(SpacePacket::<TcPacket<Service3_1>>::spec_decode_rel(buffer@, gp));
                }
            },
            Err(_) => {
            },
        }
    } else if mes.0 == 3 && mes.1 == 27 {
        match SpacePacket::<TcPacket<Service3_27>>::from_bytes(buffer) {
            Ok(p) => {
                report = registry.one_shot_report(p.get_hk_report_struct_ids(), param0);
                proof {
                    assert(buffer@.subrange(11, buffer@.len() - 2).subrange(
                        1,
                        buffer@.len() - 2 - 11,
                    ) =~= buffer@.subrange(12, buffer@.len() - 2));
                }
                push_ack_success(&p, &mut report);
            },
            Err(_) => {
            },
        }
    } else if mes.0 == 3 && (mes.1 == 5 || mes.1 == 6) {
        match SpacePacket::<TcPacket<Service3_5x6>>::from_bytes_service_3_5x6(buffer) {
            Ok(p) => {
                let en = mes.1 == 5;
                proof {
                    assert(buffer@.subrange(11, buffer@.len() - 2).subrange(
                        1,
                        buffer@.len() - 2 - 11,
                    ) =~= buffer@.subrange(12, buffer@.len() - 2));
                    assert(p.data.header.message_subtype == buffer@[8]);
                }
                let toggled = registry.set_enabled(p.get_report_parameter_ids(), en);
                if toggled {
                    timer_enable = Some(en);
                }
            },
            Err(_) => {
            },
        }
    }
    FrameOutcome { report, timer_enable }
}

} // verus!
