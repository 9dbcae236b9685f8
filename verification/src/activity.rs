//! What keeps a VM from being idle: open sessions, recent control-plane touches
//! and traffic on its forwarded ports.

use std::collections::HashMap;
use vstd::prelude::*;
use vstd::std_specs::hash::*;
use vstd::string::*;

use crate::records::{Lifecycle, VmRecord};
use crate::text::{decimal_string, str_eq};
#[allow(unused_imports)]
use crate::text::{decimal, decimal_is_digits, decimal_is_injective, is_digit};
use crate::time::Timestamp;
#[allow(unused_imports)]
use crate::time::clamped;

verus! {

broadcast use vstd::std_specs::hash::group_hash_axioms;

/// Open sessions per VM. A VM without an open session has no entry.
pub struct ActiveSessions {
    counts: HashMap<u128, u64>,
}

impl View for ActiveSessions {
    type V = Map<u128, u64>;

    closed spec fn view(&self) -> Map<u128, u64> {
        self.counts@
    }
}

/// The number of sessions that a table of open sessions holds for `id`.
pub open spec fn sessions_of(table: Map<u128, u64>, id: u128) -> u64 {
    if table.dom().contains(id) { table[id] } else { 0 }
}

/// No entry is kept for a VM without an open session.
pub open spec fn no_empty_entries(table: Map<u128, u64>) -> bool {
    forall|id: u128| #[trigger] table.dom().contains(id) ==> table[id] > 0
}

/// The table after one more session of `id` was opened.
pub open spec fn session_opened(table: Map<u128, u64>, id: u128) -> Map<u128, u64> {
    table.insert(id, (sessions_of(table, id) + 1) as u64)
}

/// The table after one session of `id` was closed. Closing what is not open
/// changes nothing.
pub open spec fn session_closed(table: Map<u128, u64>, id: u128) -> Map<u128, u64> {
    if sessions_of(table, id) > 1 {
        table.insert(id, (table[id] - 1) as u64)
    } else {
        table.remove(id)
    }
}

impl ActiveSessions {
    /// No session is open.
    pub fn new() -> (r: ActiveSessions)
        ensures
            r@ == Map::<u128, u64>::empty(),
            no_empty_entries(r@),
    {
        ActiveSessions { counts: HashMap::new() }
    }

    /// Number of open sessions (exec/shell streams) currently pinning `id` active.
    pub fn active_session_count(&self, id: u128) -> (r: u64)
        ensures
            r == sessions_of(self@, id),
    {
        match self.counts.get(&id) {
            Some(n) => *n,
            None => 0,
        }
    }

    /// Count one more open session of `id`.
    pub fn begin_session(&mut self, id: u128)
        requires
            sessions_of(old(self)@, id) < u64::MAX,
        ensures
            final(self)@ == session_opened(old(self)@, id),
            no_empty_entries(old(self)@) ==> no_empty_entries(final(self)@),
    {
        let n: u64 = self.active_session_count(id);
        self.counts.insert(id, n + 1);
    }

    /// Count one open session of `id` less, and forget the VM with its last one.
    pub fn end_session(&mut self, id: u128)
        ensures
            final(self)@ =~= session_closed(old(self)@, id),
            no_empty_entries(old(self)@) ==> no_empty_entries(final(self)@),
    {
        let n: u64 = self.active_session_count(id);
        if n > 1 {
            self.counts.insert(id, n - 1);
        } else {
            self.counts.remove(&id);
        }
    }

    /// Forget all sessions of a VM that is destroyed.
    pub fn forget(&mut self, id: u128)
        ensures
            final(self)@ == old(self)@.remove(id),
            no_empty_entries(old(self)@) ==> no_empty_entries(final(self)@),
    {
        self.counts.remove(&id);
    }
}

/// Whoever opens a session and closes it again leaves no trace: neither this VM
/// nor another stays pinned active.
pub proof fn closing_undoes_opening(table: Map<u128, u64>, id: u128)
    requires
        no_empty_entries(table),
        sessions_of(table, id) < u64::MAX,
    ensures
        session_closed(session_opened(table, id), id) =~= table,
{
}

/// Sessions of one VM do not count for another.
pub proof fn sessions_are_separate(table: Map<u128, u64>, id: u128, other: u128)
    requires
        id != other,
    ensures
        sessions_of(session_opened(table, id), other) == sessions_of(table, other),
        sessions_of(session_closed(table, id), other) == sessions_of(table, other),
{
}

/// A VM is pinned active from the first session that is opened to the last one
/// that is closed.
pub proof fn open_sessions_pin(table: Map<u128, u64>, id: u128)
    requires
        sessions_of(table, id) < u64::MAX,
    ensures
        sessions_of(session_opened(table, id), id) == sessions_of(table, id) + 1,
        sessions_of(table, id) > 0 ==> sessions_of(session_closed(table, id), id) == sessions_of(
            table,
            id,
        ) - 1,
{
}

/// When each VM was last used, on a monotonic clock that counts nanoseconds.
pub struct ActivityClocks {
    control_plane: HashMap<u128, u128>,
    network: HashMap<u128, u128>,
}

/// The last control-plane touch and the last traffic of each VM.
pub ghost struct ClocksView {
    pub control_plane: Map<u128, u128>,
    pub network: Map<u128, u128>,
}

impl View for ActivityClocks {
    type V = ClocksView;

    closed spec fn view(&self) -> ClocksView {
        ClocksView { control_plane: self.control_plane@, network: self.network@ }
    }
}

/// The clocks after the control plane touched a VM.
pub open spec fn touched(clocks: ClocksView, id: u128, tick: u128) -> ClocksView {
    ClocksView { control_plane: clocks.control_plane.insert(id, tick), ..clocks }
}

/// The clocks after a VM had traffic.
pub open spec fn trafficked(clocks: ClocksView, id: u128, tick: u128) -> ClocksView {
    ClocksView { network: clocks.network.insert(id, tick), ..clocks }
}

/// The clocks after both clocks of a VM were started.
pub open spec fn seeded(clocks: ClocksView, id: u128, tick: u128) -> ClocksView {
    ClocksView {
        control_plane: clocks.control_plane.insert(id, tick),
        network: clocks.network.insert(id, tick),
    }
}

/// The clocks without those of a VM.
pub open spec fn forgotten(clocks: ClocksView, id: u128) -> ClocksView {
    ClocksView {
        control_plane: clocks.control_plane.remove(id),
        network: clocks.network.remove(id),
    }
}

/// How long ago the clock shows activity of `id`, or `fallback` where it shows none.
pub open spec fn since_activity(
    clock: Map<u128, u128>,
    id: u128,
    now: u128,
    fallback: int,
) -> int {
    if clock.dom().contains(id) {
        clamped(now - clock[id])
    } else {
        fallback
    }
}

/// How long a VM has been idle, in nanoseconds: since its last control-plane touch
/// or its last traffic, whichever is later; a signal without an entry falls back
/// on the recorded time of the last touch. A VM that does not run, or that
/// somebody uses, is not idle at all.
pub open spec fn idle_time(
    clocks: ClocksView,
    record: VmRecord,
    sessions: u64,
    tick: u128,
    now: Timestamp,
) -> Option<int> {
    if record.stage() != Lifecycle::Running || sessions > 0 {
        None
    } else {
        let recorded = clamped(now@ - record.last_activity_at@);
        let touched = since_activity(clocks.control_plane, record.id, tick, recorded);
        let trafficked = since_activity(clocks.network, record.id, tick, recorded);
        Some(if touched <= trafficked { touched } else { trafficked })
    }
}

impl ActivityClocks {
    /// Nothing is known of any VM.
    pub fn new() -> (r: ActivityClocks)
        ensures
            r@.control_plane == Map::<u128, u128>::empty(),
            r@.network == Map::<u128, u128>::empty(),
    {
        ActivityClocks { control_plane: HashMap::new(), network: HashMap::new() }
    }

    /// Record control-plane activity (an exec/shell/API touch) against a VM's
    /// idle clock.
    pub fn note_activity(&mut self, id: u128, tick: u128)
        ensures
            final(self)@ == touched(old(self)@, id, tick),
    {
        self.control_plane.insert(id, tick);
    }

    /// Record network activity (port-forward traffic) against a VM's idle clock.
    pub fn mark_network_active(&mut self, id: u128, tick: u128)
        ensures
            final(self)@ == trafficked(old(self)@, id, tick),
    {
        self.network.insert(id, tick);
    }

    /// Seed both clocks. Done on create, fork and resume, so a never-touched VM
    /// has a real idle clock instead of a missing entry.
    pub fn seed_activity(&mut self, id: u128, tick: u128)
        ensures
            final(self)@ == seeded(old(self)@, id, tick),
    {
        self.control_plane.insert(id, tick);
        self.network.insert(id, tick);
    }

    /// Nanoseconds since `id`'s last recorded network activity, or `None` if the
    /// VM has no entry.
    pub fn network_last_active_elapsed(&self, id: u128, tick: u128) -> (r: Option<u128>)
        ensures
            r is Some <==> self@.network.dom().contains(id),
            r matches Some(d) ==> d == clamped(tick - self@.network[id]),
    {
        match self.network.get(&id) {
            Some(t) => Some(if tick >= *t { tick - *t } else { 0 }),
            None => None,
        }
    }

    /// How long `record` has been idle, or `None` if it is not eligible for idle
    /// evaluation right now (not running, or an open session pins it active).
    ///
    /// A pure read: evaluating twice cannot make a VM look freshly used.
    pub fn idle_for(
        &self,
        record: &VmRecord,
        sessions: u64,
        tick: u128,
        now: Timestamp,
    ) -> (r: Option<u128>)
        ensures
            r is Some <==> idle_time(self@, *record, sessions, tick, now) is Some,
            r matches Some(d) ==> idle_time(self@, *record, sessions, tick, now) == Some(d as int),
    {
        if record.lifecycle() != Lifecycle::Running || sessions > 0 {
            return None;
        }
        let recorded: u128 = now.nanos_since(&record.last_activity_at);
        let touched: u128 = match self.control_plane.get(&record.id) {
            Some(t) => if tick >= *t { tick - *t } else { 0 },
            None => recorded,
        };
        let trafficked: u128 = match self.network.get(&record.id) {
            Some(t) => if tick >= *t { tick - *t } else { 0 },
            None => recorded,
        };
        Some(if touched <= trafficked { touched } else { trafficked })
    }

    /// Drop a destroyed VM's bookkeeping.
    pub fn forget(&mut self, id: u128)
        ensures
            final(self)@ == forgotten(old(self)@, id),
    {
        self.control_plane.remove(&id);
        self.network.remove(&id);
    }
}

/// A VM that was just seeded has been idle for no time at all.
pub proof fn seeded_vms_are_fresh(
    clocks: ClocksView,
    record: VmRecord,
    tick: u128,
    now: Timestamp,
)
    requires
        record.stage() == Lifecycle::Running,
    ensures
        idle_time(
            ClocksView {
                control_plane: clocks.control_plane.insert(record.id, tick),
                network: clocks.network.insert(record.id, tick),
            },
            record,
            0,
            tick,
            now,
        ) == Some(0int),
{
}

/// Packets and bytes that a forward has carried.
pub type Counts = (u64, u64);

/// Traffic counters by the comment of the rule that counts.
#[derive(Debug)]
pub struct CounterTable {
    entries: Vec<(String, Counts)>,
}

/// No two entries share a key.
spec fn keys_distinct(entries: Seq<(String, Counts)>) -> bool {
    forall|i: int, j: int|
        0 <= i < entries.len() && 0 <= j < entries.len() && (#[trigger] entries[i]).0@ == (
        #[trigger] entries[j]).0@ ==> i == j
}

spec fn table_of(entries: Seq<(String, Counts)>) -> Map<Seq<char>, Counts>
    decreases entries.len(),
{
    if entries.len() == 0 {
        Map::empty()
    } else {
        table_of(entries.drop_last()).insert(entries.last().0@, entries.last().1)
    }
}

proof fn table_domain(entries: Seq<(String, Counts)>, key: Seq<char>)
    ensures
        table_of(entries).dom().contains(key) <==> exists|i: int|
            0 <= i < entries.len() && (#[trigger] entries[i]).0@ == key,
    decreases entries.len(),
{
    if entries.len() > 0 {
        table_domain(entries.drop_last(), key);
        if entries.last().0@ == key {
            assert(entries[entries.len() - 1].0@ == key);
        }
        if table_of(entries).dom().contains(key) && entries.last().0@ != key {
            let i = choose|i: int|
                0 <= i < entries.drop_last().len() && (#[trigger] entries.drop_last()[i]).0@ == key;
            assert(entries[i].0@ == key);
        }
        if exists|i: int| 0 <= i < entries.len() && (#[trigger] entries[i]).0@ == key {
            let i = choose|i: int| 0 <= i < entries.len() && (#[trigger] entries[i]).0@ == key;
            if i < entries.len() - 1 {
                assert(entries.drop_last()[i].0@ == key);
            }
        }
    }
}

proof fn table_value(entries: Seq<(String, Counts)>, i: int)
    requires
        keys_distinct(entries),
        0 <= i < entries.len(),
    ensures
        table_of(entries).dom().contains(entries[i].0@),
        table_of(entries)[entries[i].0@] == entries[i].1,
    decreases entries.len(),
{
    if i < entries.len() - 1 {
        assert(entries.drop_last()[i] == entries[i]);
        assert(entries.last() == entries[entries.len() - 1]);
        assert(keys_distinct(entries.drop_last())) by {
            assert forall|a: int, b: int|
                0 <= a < entries.drop_last().len() && 0 <= b < entries.drop_last().len() && (
                #[trigger] entries.drop_last()[a]).0@ == (#[trigger] entries.drop_last()[b]).0@ implies a
                == b by {
                assert(entries.drop_last()[a] == entries[a]);
                assert(entries.drop_last()[b] == entries[b]);
            }
        }
        table_value(entries.drop_last(), i);
    }
}

proof fn tables_equal(entries: Seq<(String, Counts)>, m: Map<Seq<char>, Counts>)
    requires
        keys_distinct(entries),
        forall|k: Seq<char>|
            #[trigger] m.dom().contains(k) <==> exists|i: int|
                0 <= i < entries.len() && (#[trigger] entries[i]).0@ == k,
        forall|i: int| 0 <= i < entries.len() ==> m[(#[trigger] entries[i]).0@] == entries[i].1,
    ensures
        table_of(entries) =~= m,
{
    let t = table_of(entries);
    assert forall|k: Seq<char>| #[trigger] t.dom().contains(k) <==> m.dom().contains(k) by {
        table_domain(entries, k);
    }
    assert forall|k: Seq<char>| #[trigger] t.dom().contains(k) implies t[k] == m[k] by {
        table_domain(entries, k);
        let i = choose|i: int| 0 <= i < entries.len() && (#[trigger] entries[i]).0@ == k;
        table_value(entries, i);
    }
}

impl View for CounterTable {
    type V = Map<Seq<char>, Counts>;

    closed spec fn view(&self) -> Map<Seq<char>, Counts> {
        table_of(self.entries@)
    }
}

/// The counts under `key`, zero where there are none.
pub open spec fn counts_at(table: Map<Seq<char>, Counts>, key: Seq<char>) -> Counts {
    if table.dom().contains(key) { table[key] } else { (0, 0) }
}

impl CounterTable {
    #[verifier::type_invariant]
    spec fn each_key_once(self) -> bool {
        keys_distinct(self.entries@)
    }

    /// No counter is known.
    pub fn new() -> (r: CounterTable)
        ensures
            r@ == Map::<Seq<char>, Counts>::empty(),
    {
        CounterTable { entries: Vec::new() }
    }

    fn position(&self, key: &str) -> (r: Option<usize>)
        ensures
            r matches Some(i) ==> i < self.entries@.len() && self.entries@[i as int].0@ == key@,
            r is None ==> forall|i: int|
                0 <= i < self.entries@.len() ==> (#[trigger] self.entries@[i]).0@ != key@,
    {
        let mut i: usize = 0;
        while i < self.entries.len()
            invariant
                i <= self.entries@.len(),
                forall|k: int| 0 <= k < i ==> (#[trigger] self.entries@[k]).0@ != key@,
            decreases self.entries.len() - i,
        {
            if str_eq(self.entries[i].0.as_str(), key) {
                return Some(i);
            }
            i += 1;
        }
        None
    }

    /// The counts under `key`, zero where there are none.
    pub fn get(&self, key: &str) -> (r: Counts)
        ensures
            r == counts_at(self@, key@),
    {
        proof {
            use_type_invariant(self);
            table_domain(self.entries@, key@);
        }
        match self.position(key) {
            Some(i) => {
                proof {
                    table_value(self.entries@, i as int);
                }
                self.entries[i].1
            },
            None => (0, 0),
        }
    }

    /// Put `counts` under `key`, in place of what was there.
    pub fn insert(&mut self, key: String, counts: Counts)
        ensures
            final(self)@ == old(self)@.insert(key@, counts),
    {
        proof {
            use_type_invariant(&*self);
        }
        let ghost before = self.entries@;
        let at = self.position(key.as_str());
        let mut entries: Vec<(String, Counts)> = Vec::new();
        std::mem::swap(&mut entries, &mut self.entries);
        match at {
            Some(i) => {
                entries.set(i, (key, counts));
                proof {
                    let after = entries@;
                    assert(keys_distinct(after)) by {
                        assert forall|a: int, b: int|
                            0 <= a < after.len() && 0 <= b < after.len() && (#[trigger] after[a]).0@ == (
                            #[trigger] after[b]).0@ implies a == b by {
                            assert(after[a].0@ == before[a].0@);
                            assert(after[b].0@ == before[b].0@);
                        }
                    }
                    let m = table_of(before).insert(key@, counts);
                    assert forall|k: Seq<char>|
                        #[trigger] m.dom().contains(k) <==> exists|j: int|
                            0 <= j < after.len() && (#[trigger] after[j]).0@ == k by {
                        table_domain(before, k);
                        if exists|j: int| 0 <= j < before.len() && (#[trigger] before[j]).0@ == k {
                            let j = choose|j: int|
                                0 <= j < before.len() && (#[trigger] before[j]).0@ == k;
                            assert(after[j].0@ == k);
                        }
                        if exists|j: int| 0 <= j < after.len() && (#[trigger] after[j]).0@ == k {
                            let j = choose|j: int|
                                0 <= j < after.len() && (#[trigger] after[j]).0@ == k;
                            assert(before[j].0@ == k);
                        }
                        assert(after[i as int].0@ == key@);
                    }
                    assert forall|j: int| 0 <= j < after.len() implies m[(#[trigger] after[j]).0@]
                        == after[j].1 by {
                        table_value(before, j);
                        if after[j].0@ == key@ {
                            assert(after[i as int].0@ == key@);
                        }
                    }
                    tables_equal(after, m);
                }
            },
            None => {
                entries.push((key, counts));
                proof {
                    let after = entries@;
                    assert(after.drop_last() == before);
                    assert(keys_distinct(after)) by {
                        assert forall|a: int, b: int|
                            0 <= a < after.len() && 0 <= b < after.len() && (#[trigger] after[a]).0@ == (
                            #[trigger] after[b]).0@ implies a == b by {
                            if a < before.len() {
                                assert(after[a] == before[a]);
                            }
                            if b < before.len() {
                                assert(after[b] == before[b]);
                            }
                        }
                    }
                }
            },
        }
        self.entries = entries;
    }

    /// Drop what is under `key`.
    pub fn remove(&mut self, key: &str)
        ensures
            final(self)@ == old(self)@.remove(key@),
    {
        proof {
            use_type_invariant(&*self);
            table_domain(self.entries@, key@);
        }
        let ghost before = self.entries@;
        let at = self.position(key);
        match at {
            Some(i) => {
                let mut entries: Vec<(String, Counts)> = Vec::new();
                std::mem::swap(&mut entries, &mut self.entries);
                entries.swap_remove(i);
                proof {
                    let after = entries@;
                    let last = before.len() - 1;
                    assert forall|a: int| 0 <= a < after.len() implies (#[trigger] after[a]) == (
                    if a == i { before[last] } else { before[a] }) by {}
                    assert(keys_distinct(after)) by {
                        assert forall|a: int, b: int|
                            0 <= a < after.len() && 0 <= b < after.len() && (#[trigger] after[a]).0@ == (
                            #[trigger] after[b]).0@ implies a == b by {
                            let x = if a == i { last } else { a };
                            let y = if b == i { last } else { b };
                            assert(before[x].0@ == before[y].0@);
                        }
                    }
                    let m = table_of(before).remove(key@);
                    assert forall|k: Seq<char>|
                        #[trigger] m.dom().contains(k) <==> exists|j: int|
                            0 <= j < after.len() && (#[trigger] after[j]).0@ == k by {
                        table_domain(before, k);
                        if m.dom().contains(k) {
                            let j = choose|j: int|
                                0 <= j < before.len() && (#[trigger] before[j]).0@ == k;
                            assert(j != i);
                            let x = if j == last { i as int } else { j };
                            assert(after[x].0@ == k);
                        }
                        if exists|j: int| 0 <= j < after.len() && (#[trigger] after[j]).0@ == k {
                            let j = choose|j: int|
                                0 <= j < after.len() && (#[trigger] after[j]).0@ == k;
                            let x = if j == i { last } else { j };
                            assert(before[x].0@ == k);
                            assert(before[i as int].0@ == key@);
                        }
                    }
                    assert forall|j: int| 0 <= j < after.len() implies m[(#[trigger] after[j]).0@]
                        == after[j].1 by {
                        let x = if j == i { last } else { j };
                        table_value(before, x);
                        assert(before[x].0@ == after[j].0@);
                        assert(before[i as int].0@ == key@);
                    }
                    tables_equal(after, m);
                }
                self.entries = entries;
            },
            None => {
                proof {
                    assert(self@.remove(key@) =~= self@);
                }
            },
        }
    }
}

/// The comment that marks the rule of one forwarded port.
pub open spec fn forward_comment(tap: Seq<char>, host_port: u16) -> Seq<char> {
    "husker-pf:"@ + tap + ":"@ + decimal(host_port as nat)
}

/// The comment that marks the rule of one forwarded port.
pub fn forward_key(tap: &str, host_port: u16) -> (r: String)
    ensures
        r@ == forward_comment(tap@, host_port),
{
    "husker-pf:".to_owned().concat(tap).concat(":").concat(
        decimal_string(host_port as u64).as_str(),
    )
}

/// The baseline after the forwards were compared with what was read.
pub open spec fn rebaselined(
    baseline: Map<Seq<char>, Counts>,
    read: Map<Seq<char>, Counts>,
    tap: Seq<char>,
    ports: Seq<u16>,
) -> Map<Seq<char>, Counts>
    decreases ports.len(),
{
    if ports.len() == 0 {
        baseline
    } else {
        let key = forward_comment(tap, ports.last());
        rebaselined(baseline, read, tap, ports.drop_last()).insert(key, counts_at(read, key))
    }
}

/// One of the forwards carried packets since the baseline was taken.
pub open spec fn carried_traffic(
    baseline: Map<Seq<char>, Counts>,
    read: Map<Seq<char>, Counts>,
    tap: Seq<char>,
    ports: Seq<u16>,
) -> bool
    decreases ports.len(),
{
    ports.len() > 0 && {
        let key = forward_comment(tap, ports.last());
        let before = rebaselined(baseline, read, tap, ports.drop_last());
        ||| carried_traffic(baseline, read, tap, ports.drop_last())
        ||| counts_at(read, key).0 > counts_at(before, key).0
    }
}

/// Compare a VM's port-forward counters against the previous baseline; a growing
/// packet count means the forward carried traffic since. The fresh counts always
/// become the baseline, so a counter that was reset just re-baselines. Returns
/// whether the VM was network-active.
pub fn refresh_network_activity(
    baseline: &mut CounterTable,
    read: &CounterTable,
    tap: &str,
    ports: &Vec<u16>,
) -> (r: bool)
    ensures
        r == carried_traffic(old(baseline)@, read@, tap@, ports@),
        final(baseline)@ == rebaselined(old(baseline)@, read@, tap@, ports@),
{
    let mut active = false;
    let mut i: usize = 0;
    while i < ports.len()
        invariant
            i <= ports@.len(),
            active == carried_traffic(old(baseline)@, read@, tap@, ports@.take(i as int)),
            baseline@ == rebaselined(old(baseline)@, read@, tap@, ports@.take(i as int)),
        decreases ports.len() - i,
    {
        let key = forward_key(tap, ports[i]);
        let fresh = read.get(key.as_str());
        let known = baseline.get(key.as_str());
        if fresh.0 > known.0 {
            active = true;
        }
        baseline.insert(key, fresh);
        proof {
            assert(ports@.take(i + 1).drop_last() == ports@.take(i as int));
            assert(ports@.take(i + 1).last() == ports@[i as int]);
        }
        i += 1;
    }
    proof {
        assert(ports@.take(ports@.len() as int) == ports@);
    }
    active
}

/// `after` is `before` without the baselines of these forwards.
pub open spec fn baselines_forgotten(
    before: Map<Seq<char>, Counts>,
    after: Map<Seq<char>, Counts>,
    tap: Seq<char>,
    ports: Seq<u16>,
) -> bool {
    &&& forall|k: Seq<char>|
        #[trigger] after.dom().contains(k) <==> before.dom().contains(k) && !(exists|i: int|
            0 <= i < ports.len() && k == forward_comment(tap, #[trigger] ports[i]))
    &&& forall|k: Seq<char>| #[trigger] after.dom().contains(k) ==> after[k] == before[k]
}

/// Forget the baselines of forwards that are gone or were recreated.
pub fn forget_baselines(baseline: &mut CounterTable, tap: &str, ports: &Vec<u16>)
    ensures
        baselines_forgotten(old(baseline)@, final(baseline)@, tap@, ports@),
{
    let mut i: usize = 0;
    while i < ports.len()
        invariant
            i <= ports@.len(),
            baselines_forgotten(old(baseline)@, baseline@, tap@, ports@.take(i as int)),
        decreases ports.len() - i,
    {
        let ghost before = baseline@;
        let key = forward_key(tap, ports[i]);
        baseline.remove(key.as_str());
        proof {
            let head = ports@.take(i as int);
            let more = ports@.take(i + 1);
            assert(more[i as int] == ports@[i as int]);
            assert forall|k: Seq<char>|
                #[trigger] baseline@.dom().contains(k) <==> old(baseline)@.dom().contains(k) && !(
                exists|j: int|
                    0 <= j < more.len() && k == forward_comment(tap@, #[trigger] more[j])) by {
                assert(forall|j: int| 0 <= j < i ==> #[trigger] head[j] == more[j]);
                if exists|j: int| 0 <= j < more.len() && k == forward_comment(tap@, #[trigger] more[j]) {
                    let j = choose|j: int|
                        0 <= j < more.len() && k == forward_comment(tap@, #[trigger] more[j]);
                    if j < i {
                        assert(k == forward_comment(tap@, head[j]));
                    }
                }
                if exists|j: int| 0 <= j < head.len() && k == forward_comment(tap@, #[trigger] head[j]) {
                    let j = choose|j: int|
                        0 <= j < head.len() && k == forward_comment(tap@, #[trigger] head[j]);
                    assert(k == forward_comment(tap@, more[j]));
                }
                if k == key@ {
                    assert(k == forward_comment(tap@, more[i as int]));
                }
            }
        }
        i += 1;
    }
    proof {
        assert(ports@.take(ports@.len() as int) == ports@);
    }
}

/// Right after a poll, a second poll that reads the same counters sees no traffic.
pub proof fn a_second_look_sees_no_traffic(
    baseline: Map<Seq<char>, Counts>,
    read: Map<Seq<char>, Counts>,
    tap: Seq<char>,
    ports: Seq<u16>,
)
    ensures
        !carried_traffic(rebaselined(baseline, read, tap, ports), read, tap, ports),
{
    let fresh = rebaselined(baseline, read, tap, ports);
    assert forall|i: int| 0 <= i < ports.len() implies counts_at(
        fresh,
        forward_comment(tap, #[trigger] ports[i]),
    ) == counts_at(read, forward_comment(tap, ports[i])) by {
        baseline_is_fresh(baseline, read, tap, ports, i);
    }
    no_traffic_from_fresh(fresh, read, tap, ports);
}

proof fn baseline_is_fresh(
    baseline: Map<Seq<char>, Counts>,
    read: Map<Seq<char>, Counts>,
    tap: Seq<char>,
    ports: Seq<u16>,
    i: int,
)
    requires
        0 <= i < ports.len(),
    ensures
        counts_at(rebaselined(baseline, read, tap, ports), forward_comment(tap, ports[i]))
            == counts_at(read, forward_comment(tap, ports[i])),
    decreases ports.len(),
{
    if i < ports.len() - 1 {
        baseline_is_fresh(baseline, read, tap, ports.drop_last(), i);
        assert(ports.drop_last()[i] == ports[i]);
    }
}

proof fn no_traffic_from_fresh(
    fresh: Map<Seq<char>, Counts>,
    read: Map<Seq<char>, Counts>,
    tap: Seq<char>,
    ports: Seq<u16>,
)
    requires
        forall|i: int|
            0 <= i < ports.len() ==> counts_at(fresh, forward_comment(tap, #[trigger] ports[i]))
                == counts_at(read, forward_comment(tap, ports[i])),
    ensures
        !carried_traffic(fresh, read, tap, ports),
        forall|i: int|
            0 <= i < ports.len() ==> counts_at(
                rebaselined(fresh, read, tap, ports),
                forward_comment(tap, #[trigger] ports[i]),
            ) == counts_at(read, forward_comment(tap, ports[i])),
        forall|k: Seq<char>|
            (#[trigger] counts_at(rebaselined(fresh, read, tap, ports), k)) == counts_at(fresh, k)
                || counts_at(rebaselined(fresh, read, tap, ports), k) == counts_at(read, k),
    decreases ports.len(),
{
    if ports.len() > 0 {
        assert forall|i: int| 0 <= i < ports.drop_last().len() implies counts_at(
            fresh,
            forward_comment(tap, #[trigger] ports.drop_last()[i]),
        ) == counts_at(read, forward_comment(tap, ports.drop_last()[i])) by {
            assert(ports.drop_last()[i] == ports[i]);
        }
        no_traffic_from_fresh(fresh, read, tap, ports.drop_last());
        let key = forward_comment(tap, ports.last());
        assert(ports.last() == ports[ports.len() - 1]);
        let before = rebaselined(fresh, read, tap, ports.drop_last());
        assert(counts_at(before, key) == counts_at(read, key));
        assert forall|k: Seq<char>|
            (#[trigger] counts_at(rebaselined(fresh, read, tap, ports), k)) == counts_at(fresh, k)
                || counts_at(rebaselined(fresh, read, tap, ports), k) == counts_at(read, k) by {
            assert(counts_at(before, k) == counts_at(fresh, k) || counts_at(before, k) == counts_at(
                read,
                k,
            ));
        }
        assert forall|i: int| 0 <= i < ports.len() implies counts_at(
            rebaselined(fresh, read, tap, ports),
            forward_comment(tap, #[trigger] ports[i]),
        ) == counts_at(read, forward_comment(tap, ports[i])) by {
            if i < ports.len() - 1 {
                assert(ports.drop_last()[i] == ports[i]);
            }
        }
    }
}

/// Whatever uses a VM makes it fresh: a touch of the control plane, traffic, or being
/// started. It then counts as idle from that moment on, and no other VM is affected.
pub proof fn use_makes_a_vm_fresh(
    clocks: ClocksView,
    vm: VmRecord,
    other: VmRecord,
    tick: u128,
    later: u128,
    now: Timestamp,
)
    requires
        vm.stage() == Lifecycle::Running,
        tick <= later,
        other.id != vm.id,
    ensures
        idle_time(touched(clocks, vm.id, tick), vm, 0, tick, now) == Some(0int),
        idle_time(trafficked(clocks, vm.id, tick), vm, 0, tick, now) == Some(0int),
        idle_time(seeded(clocks, vm.id, tick), vm, 0, tick, now) == Some(0int),
        idle_time(seeded(clocks, vm.id, tick), vm, 0, later, now) == Some(later - tick),
        idle_time(touched(clocks, vm.id, tick), vm, 0, later, now)->0 <= later - tick,
        idle_time(trafficked(clocks, vm.id, tick), vm, 0, later, now)->0 <= later - tick,
        idle_time(touched(trafficked(clocks, vm.id, tick), vm.id, later), vm, 0, later, now) == Some(
            0int,
        ),
        touched(clocks, vm.id, tick).network == clocks.network,
        trafficked(clocks, vm.id, tick).control_plane == clocks.control_plane,
        idle_time(touched(clocks, vm.id, tick), other, 0, later, now) == idle_time(
            clocks,
            other,
            0,
            later,
            now,
        ),
        idle_time(trafficked(clocks, vm.id, tick), other, 0, later, now) == idle_time(
            clocks,
            other,
            0,
            later,
            now,
        ),
        idle_time(seeded(clocks, vm.id, tick), other, 0, later, now) == idle_time(
            clocks,
            other,
            0,
            later,
            now,
        ),
{
}

/// A VM is idle only while it runs and nobody uses it, and only for as long as both signals
/// agree: since its last touch and since its last traffic, the later of them. A signal that
/// was never seen counts from the recorded time. A forgotten VM has no signal left.
pub proof fn idleness_counts_from_the_last_use(
    clocks: ClocksView,
    vm: VmRecord,
    sessions: u64,
    tick: u128,
    now: Timestamp,
)
    ensures
        ({
            let idle = idle_time(clocks, vm, sessions, tick, now);
            let recorded = clamped(now@ - vm.last_activity_at@);
            let touch = clocks.control_plane;
            let traffic = clocks.network;
            &&& idle is Some <==> vm.stage() == Lifecycle::Running && sessions == 0
            &&& idle is Some && touch.contains_key(vm.id) ==> idle->0 <= clamped(
                tick - touch[vm.id],
            )
            &&& idle is Some && traffic.contains_key(vm.id) ==> idle->0 <= clamped(
                tick - traffic[vm.id],
            )
            &&& idle is Some && touch.contains_key(vm.id) && traffic.contains_key(vm.id)
                && touch[vm.id] <= traffic[vm.id] <= tick ==> idle->0 == tick - traffic[vm.id]
            &&& idle is Some && touch.contains_key(vm.id) && traffic.contains_key(vm.id)
                && traffic[vm.id] <= touch[vm.id] <= tick ==> idle->0 == tick - touch[vm.id]
            &&& idle is Some && !touch.contains_key(vm.id) && !traffic.contains_key(vm.id)
                ==> idle->0 == recorded
            &&& idle is Some ==> idle->0 >= 0
            &&& !forgotten(clocks, vm.id).control_plane.contains_key(vm.id) && !forgotten(
                clocks,
                vm.id,
            ).network.contains_key(vm.id)
            &&& vm.stage() == Lifecycle::Running ==> idle_time(
                forgotten(clocks, vm.id),
                vm,
                0,
                tick,
                now,
            ) == Some(recorded)
        }),
{
}

/// Every forward has a comment of its own: no two ports of a TAP, and no ports of two TAPs,
/// share one.
pub proof fn forwards_have_their_own_comments(a: Seq<char>, p: u16, b: Seq<char>, q: u16)
    ensures
        a != b || p != q ==> forward_comment(a, p) != forward_comment(b, q),
{
    reveal_strlit("husker-pf:");
    reveal_strlit(":");
    let x = forward_comment(a, p);
    let y = forward_comment(b, q);
    if x == y {
        decimal_is_digits(p as nat);
        decimal_is_digits(q as nat);
        assert("husker-pf:"@.len() == 10);
        assert(x.len() == 10 + a.len() + 1 + decimal(p as nat).len());
        assert(y.len() == 10 + b.len() + 1 + decimal(q as nat).len());
        assert(x[10int + a.len()] == ':');
        assert(y[10int + b.len()] == ':');
        if a.len() < b.len() {
            let i = b.len() - a.len() - 1;
            assert(x[10int + b.len()] == decimal(p as nat)[i]);
            assert(is_digit(decimal(p as nat)[i]));
        }
        if b.len() < a.len() {
            let i = a.len() - b.len() - 1;
            assert(y[10int + a.len()] == decimal(q as nat)[i]);
            assert(is_digit(decimal(q as nat)[i]));
        }
        assert(a =~= x.subrange(10, 10int + a.len()));
        assert(b =~= y.subrange(10, 10int + b.len()));
        assert(decimal(p as nat) =~= x.skip(11 + a.len() as int));
        assert(decimal(q as nat) =~= y.skip(11 + b.len() as int));
        decimal_is_injective(p as nat, q as nat);
    }
}

/// A forward carried traffic exactly where more packets were read than at the last look;
/// bytes alone do not count, nor does a counter that fell. What was read is the baseline of
/// the next look, and no other forward's baseline moves.
pub proof fn traffic_is_a_growing_packet_count(
    baseline: Map<Seq<char>, Counts>,
    read: Map<Seq<char>, Counts>,
    tap: Seq<char>,
    port: u16,
    other: Seq<char>,
)
    requires
        other != forward_comment(tap, port),
    ensures
        ({
            let key = "husker-pf:"@ + tap + ":"@ + decimal(port as nat);
            let after = rebaselined(baseline, read, tap, seq![port]);
            &&& carried_traffic(baseline, read, tap, seq![port]) <==> counts_at(read, key).0
                > counts_at(baseline, key).0
            &&& counts_at(after, key) == counts_at(read, key)
            &&& counts_at(after, other) == counts_at(baseline, other)
            &&& !carried_traffic(baseline, read, tap, Seq::empty())
        }),
{
    let one = seq![port];
    assert(one.drop_last() =~= Seq::empty());
    assert(one.last() == port);
    assert(rebaselined(baseline, read, tap, one.drop_last()) == baseline);
    assert(!carried_traffic(baseline, read, tap, one.drop_last()));
}

/// A VM with several forwards had traffic where one of them carried some.
pub proof fn any_forward_counts(
    baseline: Map<Seq<char>, Counts>,
    read: Map<Seq<char>, Counts>,
    tap: Seq<char>,
    ports: Seq<u16>,
    i: int,
)
    requires
        0 <= i < ports.len(),
        carried_traffic(baseline, read, tap, seq![ports[i]]),
        forall|j: int, k: int| 0 <= j < k < ports.len() ==> ports[j] != ports[k],
    ensures
        carried_traffic(baseline, read, tap, ports),
    decreases ports.len(),
{
    let one = seq![ports[i]];
    assert(one.drop_last() =~= Seq::empty());
    assert(one.last() == ports[i]);
    assert(!carried_traffic(baseline, read, tap, one.drop_last()));
    let rest = ports.drop_last();
    if i < rest.len() {
        assert(rest[i] == ports[i]);
        any_forward_counts(baseline, read, tap, rest, i);
    } else {
        let key = forward_comment(tap, ports[i]);
        others_keep_their_baseline(baseline, read, tap, rest, ports[i]);
        assert(ports.last() == ports[i]);
        assert(rebaselined(baseline, read, tap, one.drop_last()) == baseline);
    }
}

proof fn others_keep_their_baseline(
    baseline: Map<Seq<char>, Counts>,
    read: Map<Seq<char>, Counts>,
    tap: Seq<char>,
    ports: Seq<u16>,
    port: u16,
)
    requires
        forall|j: int| 0 <= j < ports.len() ==> ports[j] != port,
    ensures
        counts_at(rebaselined(baseline, read, tap, ports), forward_comment(tap, port)) == counts_at(
            baseline,
            forward_comment(tap, port),
        ),
    decreases ports.len(),
{
    if ports.len() > 0 {
        others_keep_their_baseline(baseline, read, tap, ports.drop_last(), port);
        assert(ports[ports.len() - 1] != port);
        forwards_have_their_own_comments(tap, ports.last(), tap, port);
    }
}

/// Forgetting a VM forgets both of its clocks and touches no other VM's.
pub proof fn only_the_forgotten_vm_is_forgotten(clocks: ClocksView, id: u128, other: u128)
    requires
        other != id,
    ensures
        !forgotten(clocks, id).control_plane.dom().contains(id),
        !forgotten(clocks, id).network.dom().contains(id),
        forgotten(clocks, id).control_plane.dom().contains(other)
            <==> clocks.control_plane.dom().contains(other),
        forgotten(clocks, id).network.dom().contains(other) <==> clocks.network.dom().contains(
            other,
        ),
        clocks.control_plane.dom().contains(other) ==> forgotten(clocks, id).control_plane[other]
            == clocks.control_plane[other],
        clocks.network.dom().contains(other) ==> forgotten(clocks, id).network[other]
            == clocks.network[other],
{
}

/// The baselines of the forwards that are gone are forgotten, each of them, and those of
/// other ports and of other TAPs stay as they were. What has no baseline counts from zero.
pub proof fn only_the_baselines_of_lost_forwards_go(
    before: Map<Seq<char>, Counts>,
    after: Map<Seq<char>, Counts>,
    tap: Seq<char>,
    ports: Seq<u16>,
    other_tap: Seq<char>,
    port: u16,
)
    requires
        baselines_forgotten(before, after, tap, ports),
    ensures
        ports.contains(port) ==> counts_at(after, forward_comment(tap, port)) == (0u64, 0u64),
        !ports.contains(port) ==> counts_at(after, forward_comment(tap, port)) == counts_at(
            before,
            forward_comment(tap, port),
        ),
        other_tap != tap ==> counts_at(after, forward_comment(other_tap, port)) == counts_at(
            before,
            forward_comment(other_tap, port),
        ),
{
    let own = forward_comment(tap, port);
    let theirs = forward_comment(other_tap, port);
    if ports.contains(port) {
        let i = choose|i: int| 0 <= i < ports.len() && ports[i] == port;
        assert(own == forward_comment(tap, ports[i]));
    } else {
        assert forall|i: int| 0 <= i < ports.len() implies own != forward_comment(
            tap,
            #[trigger] ports[i],
        ) by {
            assert(ports.contains(ports[i]));
            forwards_have_their_own_comments(tap, port, tap, ports[i]);
        }
    }
    if other_tap != tap {
        assert forall|i: int| 0 <= i < ports.len() implies theirs != forward_comment(
            tap,
            #[trigger] ports[i],
        ) by {
            forwards_have_their_own_comments(other_tap, port, tap, ports[i]);
        }
    }
}

} // verus!
