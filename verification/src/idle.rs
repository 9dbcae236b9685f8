//! The idle poll: every so often each VM that opted in is looked at, and suspended or
//! reaped where two looks in a row agree.

use vstd::prelude::*;

use crate::activity::{refresh_network_activity, CounterTable};
#[allow(unused_imports)]
use crate::activity::{
    a_second_look_sees_no_traffic, carried_traffic, idle_time, rebaselined, seeded, session_closed, session_opened, sessions_of,
    touched, trafficked, ClocksView, Counts,
};
use crate::policy::{evaluate_policy, PolicyAction};
#[allow(unused_imports)]
use crate::policy::IdleMetrics;
#[allow(unused_imports)]
use crate::policy::{policy_of, suspension_is_monotone};
#[allow(unused_imports)]
use crate::records::Lifecycle;
use crate::records::VmRecord;
use crate::settings::HuskerCore;
use crate::time::Timestamp;
#[allow(unused_imports)]
use crate::time::clamped;

verus! {

/// What is remembered of the use of all VMs.
pub ghost struct Memory {
    /// When each was last used.
    pub clocks: ClocksView,
    /// The counters of their forwards, as last seen.
    pub counters: Map<Seq<char>, Counts>,
    /// Their open sessions.
    pub sessions: Map<u128, u64>,
}

/// What there is to see of a VM beside its record: its forwarded ports, the counters of
/// all forwards, whether a fork of it lives, and the time by both clocks.
pub ghost struct Sight {
    pub ports: Seq<u16>,
    pub read: Map<Seq<char>, Counts>,
    pub fork: bool,
    pub tick: u128,
    pub now: Timestamp,
}

/// One of the VM's forwards carried packets since the last look.
pub open spec fn saw_traffic(m: Memory, vm: VmRecord, s: Sight) -> bool {
    vm.tap_device is Some && carried_traffic(m.counters, s.read, vm.tap_device->0@, s.ports)
}

/// What is remembered after the traffic of a VM's forwards was noted.
pub open spec fn watched(m: Memory, vm: VmRecord, s: Sight) -> Memory {
    Memory {
        clocks: if saw_traffic(m, vm, s) {
            ClocksView { network: m.clocks.network.insert(vm.id, s.tick), ..m.clocks }
        } else {
            m.clocks
        },
        counters: if vm.tap_device is Some {
            rebaselined(m.counters, s.read, vm.tap_device->0@, s.ports)
        } else {
            m.counters
        },
        sessions: m.sessions,
    }
}

/// How long a VM has been idle by these clocks, where nothing pins it.
pub open spec fn idle_span(
    clocks: ClocksView,
    vm: VmRecord,
    sessions: u64,
    tick: u128,
    now: Timestamp,
) -> Option<u128> {
    match idle_time(clocks, vm, sessions, tick, now) {
        Some(d) => Some(d as u128),
        None => None,
    }
}

/// What the policy says of a VM by these clocks.
pub open spec fn verdict_of(
    clocks: ClocksView,
    sessions: u64,
    vm: VmRecord,
    has_live_fork: bool,
    tick: u128,
    now: Timestamp,
) -> PolicyAction {
    policy_of(vm, now, idle_span(clocks, vm, sessions, tick, now), sessions > 0, has_live_fork)
}

/// What the policy says of a VM by what is remembered of it.
pub open spec fn verdict_by(m: Memory, vm: VmRecord, s: Sight) -> PolicyAction {
    verdict_of(m.clocks, sessions_of(m.sessions, vm.id), vm, s.fork, s.tick, s.now)
}

/// What is remembered after the first look at a VM: one that has not opted in is passed
/// over.
pub open spec fn first_memory(m: Memory, vm: VmRecord, s: Sight) -> Memory {
    if vm.idle_timeout_secs is Some { watched(m, vm, s) } else { m }
}

/// What the first look at a VM says.
pub open spec fn first_verdict(m: Memory, vm: VmRecord, s: Sight) -> PolicyAction {
    if vm.idle_timeout_secs is Some {
        verdict_by(watched(m, vm, s), vm, s)
    } else {
        PolicyAction::Nothing
    }
}

/// What is remembered after the second look at a VM that the first one would act on: its
/// traffic is noted again before it is suspended.
pub open spec fn second_memory(m: Memory, first: PolicyAction, vm: VmRecord, s: Sight) -> Memory {
    if first == PolicyAction::Suspend { watched(m, vm, s) } else { m }
}

/// What is done about a VM: what both looks say, and nothing where they differ.
pub open spec fn second_verdict(
    m: Memory,
    first: PolicyAction,
    vm: VmRecord,
    s: Sight,
) -> PolicyAction {
    let pinned = sessions_of(m.sessions, vm.id) > 0;
    match first {
        PolicyAction::Suspend if verdict_by(watched(m, vm, s), vm, s) == PolicyAction::Suspend => {
            PolicyAction::Suspend
        },
        PolicyAction::Reap if policy_of(vm, s.now, None, pinned, s.fork) == PolicyAction::Reap => {
            PolicyAction::Reap
        },
        _ => PolicyAction::Nothing,
    }
}

/// The counters after what was decided about a VM was tried.
pub open spec fn counted(metrics: IdleMetrics, action: PolicyAction, went: bool) -> IdleMetrics {
    match action {
        PolicyAction::Suspend if went => IdleMetrics {
            suspended_total: metrics.suspended_total.wrapping_add(1),
            ..metrics
        },
        PolicyAction::Reap if went => IdleMetrics {
            reaped_total: metrics.reaped_total.wrapping_add(1),
            ..metrics
        },
        _ => metrics,
    }
}

impl HuskerCore {
    /// What is remembered of the use of all VMs.
    pub open spec fn memory(self) -> Memory {
        Memory {
            clocks: self.clocks@,
            counters: self.network_counters@,
            sessions: self.active_sessions@,
        }
    }

    /// Record control-plane activity (an exec/shell/API touch) against a VM's idle
    /// clock.
    pub fn note_activity(&mut self, id: u128, tick: u128)
        ensures
            final(self).clocks@ == touched(old(self).clocks@, id, tick),
            *final(self) == (HuskerCore { clocks: final(self).clocks, ..*old(self) }),
    {
        self.clocks.note_activity(id, tick);
    }

    /// Record network activity (a port-forward byte delta) against a VM's idle clock.
    pub fn mark_network_active(&mut self, id: u128, tick: u128)
        ensures
            final(self).clocks@ == trafficked(old(self).clocks@, id, tick),
            *final(self) == (HuskerCore { clocks: final(self).clocks, ..*old(self) }),
    {
        self.clocks.mark_network_active(id, tick);
    }

    /// Seed both activity timers. Call on create/fork/first-sight so a never-touched VM
    /// has a real idle clock instead of a missing entry.
    pub fn seed_activity(&mut self, id: u128, tick: u128)
        ensures
            final(self).clocks@ == seeded(old(self).clocks@, id, tick),
            *final(self) == (HuskerCore { clocks: final(self).clocks, ..*old(self) }),
    {
        self.clocks.seed_activity(id, tick);
    }

    /// Time elapsed since `id`'s last recorded network activity, in nanoseconds, or
    /// `None` if the VM has no entry.
    pub fn network_last_active_elapsed(&self, id: u128, tick: u128) -> (r: Option<u128>)
        ensures
            r is Some <==> self.clocks@.network.dom().contains(id),
            r matches Some(d) ==> d == clamped(tick - self.clocks@.network[id]),
    {
        self.clocks.network_last_active_elapsed(id, tick)
    }

    /// Number of open sessions (exec/shell streams) currently pinning `id` active.
    pub fn active_session_count(&self, id: u128) -> (r: u64)
        ensures
            r == sessions_of(self.active_sessions@, id),
    {
        self.active_sessions.active_session_count(id)
    }

    /// Count one more open session of `id`.
    pub fn begin_session(&mut self, id: u128)
        requires
            sessions_of(old(self).active_sessions@, id) < u64::MAX,
        ensures
            final(self).active_sessions@ == session_opened(old(self).active_sessions@, id),
            *final(self) == (HuskerCore {
                active_sessions: final(self).active_sessions,
                ..*old(self)
            }),
    {
        self.active_sessions.begin_session(id);
    }

    /// Count one open session of `id` less.
    pub fn end_session(&mut self, id: u128)
        ensures
            final(self).active_sessions@ == session_closed(old(self).active_sessions@, id),
            *final(self) == (HuskerCore {
                active_sessions: final(self).active_sessions,
                ..*old(self)
            }),
    {
        self.active_sessions.end_session(id);
    }

    /// Note the traffic of a VM's forwards: `read` holds the counters as they are now,
    /// `ports` the VM's forwarded ports.
    pub fn watch_forwards(
        &mut self,
        vm: &VmRecord,
        ports: &Vec<u16>,
        read: &CounterTable,
        tick: u128,
    )
        ensures
            forall|fork: bool, now: Timestamp|
                final(self).memory() == #[trigger] watched(
                    old(self).memory(),
                    *vm,
                    Sight { ports: ports@, read: read@, fork, tick, now },
                ),
            *final(self) == (HuskerCore {
                clocks: final(self).clocks,
                network_counters: final(self).network_counters,
                ..*old(self)
            }),
    {
        if let Some(tap) = &vm.tap_device {
            let active = refresh_network_activity(
                &mut self.network_counters,
                read,
                tap.as_str(),
                ports,
            );
            if active {
                self.clocks.mark_network_active(vm.id, tick);
            }
        }
    }

    /// What the policy says of a VM right now. A pure read: looking cannot make a VM
    /// seem used.
    pub fn idle_verdict(
        &self,
        vm: &VmRecord,
        has_live_fork: bool,
        tick: u128,
        now: Timestamp,
    ) -> (r: PolicyAction)
        ensures
            r == verdict_of(
                self.clocks@,
                sessions_of(self.active_sessions@, vm.id),
                *vm,
                has_live_fork,
                tick,
                now,
            ),
    {
        let sessions: u64 = self.active_sessions.active_session_count(vm.id);
        let idle = self.clocks.idle_for(vm, sessions, tick, now);
        evaluate_policy(vm, now, idle, sessions > 0, has_live_fork)
    }

    /// Look at a VM for the first time in a poll. One that has not opted in is passed
    /// over.
    pub fn first_look(
        &mut self,
        vm: &VmRecord,
        ports: &Vec<u16>,
        read: &CounterTable,
        has_live_fork: bool,
        tick: u128,
        now: Timestamp,
    ) -> (r: PolicyAction)
        ensures
            ({
                let s = Sight { ports: ports@, read: read@, fork: has_live_fork, tick, now };
                &&& r == first_verdict(old(self).memory(), *vm, s)
                &&& final(self).memory() == first_memory(old(self).memory(), *vm, s)
            }),
            vm.idle_timeout_secs is None ==> *final(self) == *old(self),
            *final(self) == (HuskerCore {
                clocks: final(self).clocks,
                network_counters: final(self).network_counters,
                ..*old(self)
            }),
    {
        if vm.idle_timeout_secs.is_none() {
            return PolicyAction::Nothing;
        }
        let ghost s = Sight { ports: ports@, read: read@, fork: has_live_fork, tick, now };
        let ghost before = self.memory();
        self.watch_forwards(vm, ports, read, tick);
        proof {
            assert(self.memory() == watched(before, *vm, s));
        }
        self.idle_verdict(vm, has_live_fork, tick, now)
    }

    /// Whether a VM that the first look would suspend is suspended: everything is read
    /// again while nobody else can touch the VM.
    pub fn confirms_suspend(
        &mut self,
        fresh: &VmRecord,
        ports: &Vec<u16>,
        read: &CounterTable,
        has_live_fork: bool,
        tick: u128,
        now: Timestamp,
    ) -> (r: bool)
        ensures
            ({
                let s = Sight { ports: ports@, read: read@, fork: has_live_fork, tick, now };
                let m = watched(old(self).memory(), *fresh, s);
                &&& r == (verdict_by(m, *fresh, s) == PolicyAction::Suspend)
                &&& final(self).memory() == m
            }),
            *final(self) == (HuskerCore {
                clocks: final(self).clocks,
                network_counters: final(self).network_counters,
                ..*old(self)
            }),
    {
        let ghost s = Sight { ports: ports@, read: read@, fork: has_live_fork, tick, now };
        let ghost before = self.memory();
        self.watch_forwards(fresh, ports, read, tick);
        proof {
            assert(self.memory() == watched(before, *fresh, s));
        }
        self.idle_verdict(fresh, has_live_fork, tick, now) == PolicyAction::Suspend
    }

    /// Whether a VM that the first look would reap is reaped, by its state as it is
    /// now.
    pub fn confirms_reap(&self, fresh: &VmRecord, has_live_fork: bool, now: Timestamp) -> (r: bool)
        ensures
            r == (policy_of(
                *fresh,
                now,
                None,
                sessions_of(self.active_sessions@, fresh.id) > 0,
                has_live_fork,
            ) == PolicyAction::Reap),
    {
        let pinned = self.active_sessions.active_session_count(fresh.id) > 0;
        evaluate_policy(fresh, now, None, pinned, has_live_fork) == PolicyAction::Reap
    }

    /// Look for the second time at a VM that the first look would act on, while nobody
    /// else can touch it. Returns what is done about it.
    pub fn second_look(
        &mut self,
        first: PolicyAction,
        fresh: &VmRecord,
        ports: &Vec<u16>,
        read: &CounterTable,
        has_live_fork: bool,
        tick: u128,
        now: Timestamp,
    ) -> (r: PolicyAction)
        ensures
            ({
                let s = Sight { ports: ports@, read: read@, fork: has_live_fork, tick, now };
                &&& r == second_verdict(old(self).memory(), first, *fresh, s)
                &&& final(self).memory() == second_memory(old(self).memory(), first, *fresh, s)
            }),
            *final(self) == (HuskerCore {
                clocks: final(self).clocks,
                network_counters: final(self).network_counters,
                ..*old(self)
            }),
    {
        match first {
            PolicyAction::Suspend => {
                if self.confirms_suspend(fresh, ports, read, has_live_fork, tick, now) {
                    return PolicyAction::Suspend;
                }
            },
            PolicyAction::Reap => {
                if self.confirms_reap(fresh, has_live_fork, now) {
                    return PolicyAction::Reap;
                }
            },
            PolicyAction::Nothing => {},
        }
        PolicyAction::Nothing
    }

    /// Count what was done about a VM; `went` tells whether it succeeded.
    pub fn count_action(&mut self, action: PolicyAction, went: bool)
        ensures
            *final(self) == (HuskerCore {
                idle_metrics: counted(old(self).idle_metrics, action, went),
                ..*old(self)
            }),
    {
        if !went {
            return;
        }
        match action {
            PolicyAction::Suspend => self.idle_metrics.count_suspended(),
            PolicyAction::Reap => self.idle_metrics.count_reaped(),
            PolicyAction::Nothing => {},
        }
    }
}

/// Looking does not keep a VM alive: one that a look would suspend is suspended by the
/// next look too, if nothing happened in between.
pub proof fn looks_agree_on_an_idle_vm(
    clocks: ClocksView,
    vm: VmRecord,
    has_live_fork: bool,
    tick: u128,
    now: Timestamp,
    later_tick: u128,
    later: Timestamp,
)
    requires
        tick <= later_tick,
        now@ <= later@,
        0 <= idle_time(clocks, vm, 0, tick, now)->0 <= u128::MAX,
        0 <= idle_time(clocks, vm, 0, later_tick, later)->0 <= u128::MAX,
        verdict_of(clocks, 0, vm, has_live_fork, tick, now) == PolicyAction::Suspend,
    ensures
        verdict_of(clocks, 0, vm, has_live_fork, later_tick, later) == PolicyAction::Suspend,
{
    let shorter = idle_time(clocks, vm, 0, tick, now)->0;
    let longer = idle_time(clocks, vm, 0, later_tick, later)->0;
    assert(shorter <= longer);
    suspension_is_monotone(vm, now, shorter as u128, longer as u128, has_live_fork);
}

/// A session that is opened between the looks saves the VM.
pub proof fn late_sessions_save_the_vm(
    clocks: ClocksView,
    sessions: u64,
    vm: VmRecord,
    has_live_fork: bool,
    tick: u128,
    now: Timestamp,
)
    requires
        sessions > 0,
    ensures
        verdict_of(clocks, sessions, vm, has_live_fork, tick, now) == PolicyAction::Nothing,
{
}

/// Traffic that is seen at the second look saves the VM, if it has to be idle for a
/// second at least.
pub proof fn late_traffic_saves_the_vm(m: Memory, vm: VmRecord, s: Sight)
    requires
        saw_traffic(m, vm, s),
        sessions_of(m.sessions, vm.id) == 0,
        vm.idle_timeout_secs is Some ==> vm.idle_timeout_secs->0 > 0,
    ensures
        second_verdict(m, PolicyAction::Suspend, vm, s) == PolicyAction::Nothing,
{
}

// ---------------------------------------------------------------------------
// A whole poll
// ---------------------------------------------------------------------------

/// The daemon as a poll finds it: what it remembers, what it has counted, and the
/// records of its VMs.
pub ghost struct Fleet {
    pub memory: Memory,
    pub metrics: IdleMetrics,
    pub vms: Map<u128, VmRecord>,
}

/// One VM's turn in a poll: what the two looks see, whether what was decided succeeded,
/// and the record that it left behind, if it left one.
pub ghost struct Turn {
    pub id: u128,
    pub first: Sight,
    pub second: Sight,
    pub went: bool,
    pub left: VmRecord,
}

/// What is done about the VM whose turn it is.
#[verifier::opaque]
pub open spec fn done_about(f: Fleet, t: Turn) -> PolicyAction {
    let vm = f.vms[t.id];
    second_verdict(
        first_memory(f.memory, vm, t.first),
        first_verdict(f.memory, vm, t.first),
        vm,
        t.second,
    )
}

/// The daemon after one VM's turn.
#[verifier::opaque]
pub open spec fn after_turn(f: Fleet, t: Turn) -> Fleet {
    let vm = f.vms[t.id];
    let action = done_about(f, t);
    Fleet {
        memory: second_memory(
            first_memory(f.memory, vm, t.first),
            first_verdict(f.memory, vm, t.first),
            vm,
            t.second,
        ),
        metrics: counted(f.metrics, action, t.went),
        vms: if action == PolicyAction::Nothing {
            f.vms
        } else if action == PolicyAction::Reap && t.went {
            f.vms.remove(t.id)
        } else {
            f.vms.insert(t.id, t.left)
        },
    }
}

/// The daemon after these turns.
pub open spec fn after_turns(f: Fleet, turns: Seq<Turn>) -> Fleet
    decreases turns.len(),
{
    if turns.len() == 0 {
        f
    } else {
        after_turn(after_turns(f, turns.drop_last()), turns.last())
    }
}

/// What is done about the VM whose turn is the `k`-th.
pub open spec fn done_in_turn(f: Fleet, turns: Seq<Turn>, k: int) -> PolicyAction {
    done_about(after_turns(f, turns.take(k)), turns[k])
}

/// A poll gives every VM one turn at most.
pub open spec fn is_poll(f: Fleet, turns: Seq<Turn>) -> bool {
    &&& forall|j: int, k: int|
        0 <= j < k < turns.len() ==> (#[trigger] turns[j]).id != (#[trigger] turns[k]).id
    &&& forall|k: int| 0 <= k < turns.len() ==> f.vms.contains_key((#[trigger] turns[k]).id)
    &&& forall|id: u128| #[trigger] f.vms.contains_key(id) ==> f.vms[id].id == id
}

/// Every suspend leaves a suspended VM behind where it succeeds, and only there. (One that
/// fails after the VM was recorded as suspended does not.)
pub open spec fn suspends_are_whole(f: Fleet, turns: Seq<Turn>) -> bool {
    forall|k: int|
        0 <= k < turns.len() && #[trigger] done_in_turn(f, turns, k) == PolicyAction::Suspend ==> (
        turns[k].went <==> turns[k].left.stage() == Lifecycle::Suspended)
}

/// The counters do not overflow in a poll of so many turns.
pub open spec fn counters_last(metrics: IdleMetrics, turns: Seq<Turn>) -> bool {
    &&& metrics.suspended_total + turns.len() <= u64::MAX
    &&& metrics.reaped_total + turns.len() <= u64::MAX
}

/// The VMs that were not suspended before and are now.
pub open spec fn newly_suspended(before: Fleet, after: Fleet) -> Set<u128> {
    Set::new(
        |id: u128|
            before.vms.contains_key(id) && before.vms[id].stage() != Lifecycle::Suspended
                && after.vms.contains_key(id) && after.vms[id].stage() == Lifecycle::Suspended,
    )
}

/// The VMs that were there before and are no longer.
pub open spec fn gone(before: Fleet, after: Fleet) -> Set<u128> {
    Set::new(|id: u128| before.vms.contains_key(id) && !after.vms.contains_key(id))
}

/// The policy says this of a VM at both looks, by what is remembered before its turn and
/// what the looks see. For how long the VM has been idle does not matter to a reap.
#[verifier::opaque]
pub open spec fn both_looks_say(m: Memory, vm: VmRecord, t: Turn, action: PolicyAction) -> bool {
    let sessions = sessions_of(m.sessions, vm.id);
    let noted = watched(m, vm, t.first);
    let noted_again = watched(noted, vm, t.second);
    let idle = idle_span(noted.clocks, vm, sessions, t.first.tick, t.first.now);
    let still_idle = if action == PolicyAction::Suspend {
        idle_span(noted_again.clocks, vm, sessions, t.second.tick, t.second.now)
    } else {
        None
    };
    &&& policy_of(vm, t.first.now, idle, sessions > 0, t.first.fork) == action
    &&& policy_of(vm, t.second.now, still_idle, sessions > 0, t.second.fork) == action
}

/// One turn leaves every other VM alone, and acts only where both looks say so.
proof fn one_turn(f: Fleet, t: Turn)
    requires
        f.vms.contains_key(t.id),
        f.vms[t.id].id == t.id,
    ensures
        after_turn(f, t).memory.sessions == f.memory.sessions,
        after_turn(f, t).vms == (if done_about(f, t) == PolicyAction::Nothing {
            f.vms
        } else if done_about(f, t) == PolicyAction::Reap && t.went {
            f.vms.remove(t.id)
        } else {
            f.vms.insert(t.id, t.left)
        }),
        after_turn(f, t).metrics == counted(f.metrics, done_about(f, t), t.went),
        done_about(f, t) != PolicyAction::Nothing ==> both_looks_say(
            f.memory,
            f.vms[t.id],
            t,
            done_about(f, t),
        ),
        done_about(f, t) == PolicyAction::Suspend ==> f.vms[t.id].stage() == Lifecycle::Running,
        done_about(f, t) == PolicyAction::Reap ==> f.vms[t.id].stage() == Lifecycle::Suspended,
        f.vms[t.id].idle_timeout_secs is None || sessions_of(f.memory.sessions, t.id) > 0
            ==> done_about(f, t) == PolicyAction::Nothing,
{
    reveal(done_about);
    reveal(after_turn);
    reveal(both_looks_say);
}

/// A poll without its last turn is a poll in which the same things are done.
proof fn all_but_the_last_turn(f: Fleet, turns: Seq<Turn>)
    requires
        is_poll(f, turns),
        turns.len() > 0,
    ensures
        is_poll(f, turns.drop_last()),
        suspends_are_whole(f, turns) ==> suspends_are_whole(f, turns.drop_last()),
        forall|k: int|
            0 <= k < turns.len() - 1 ==> done_in_turn(f, turns.drop_last(), k)
                == #[trigger] done_in_turn(f, turns, k),
        done_in_turn(f, turns, turns.len() - 1) == done_about(
            after_turns(f, turns.drop_last()),
            turns.last(),
        ),
{
    let rest = turns.drop_last();
    assert forall|k: int| 0 <= k < rest.len() implies done_in_turn(f, rest, k)
        == #[trigger] done_in_turn(f, turns, k) by {
        assert(rest.take(k) =~= turns.take(k));
    }
    assert(turns.take(turns.len() - 1) =~= rest);
    if suspends_are_whole(f, turns) {
        assert forall|k: int|
            0 <= k < rest.len() && #[trigger] done_in_turn(f, rest, k)
                == PolicyAction::Suspend implies (rest[k].went <==> rest[k].left.stage()
            == Lifecycle::Suspended) by {
            assert(done_in_turn(f, turns, k) == PolicyAction::Suspend);
        }
    }
}

/// A VM without a turn keeps its record.
proof fn without_a_turn(f: Fleet, turns: Seq<Turn>, id: u128)
    requires
        is_poll(f, turns),
        forall|k: int| 0 <= k < turns.len() ==> (#[trigger] turns[k]).id != id,
    ensures
        after_turns(f, turns).memory.sessions == f.memory.sessions,
        after_turns(f, turns).vms.contains_key(id) == f.vms.contains_key(id),
        after_turns(f, turns).vms[id] == f.vms[id],
    decreases turns.len(),
{
    if turns.len() > 0 {
        let rest = turns.drop_last();
        let last = turns[turns.len() - 1];
        all_but_the_last_turn(f, turns);
        without_a_turn(f, rest, id);
        without_a_turn(f, rest, last.id);
        one_turn(after_turns(f, rest), last);
    }
}

/// What its turn makes of a VM.
proof fn with_a_turn(f: Fleet, turns: Seq<Turn>, k: int)
    requires
        is_poll(f, turns),
        0 <= k < turns.len(),
    ensures
        ({
            let id = turns[k].id;
            let action = done_in_turn(f, turns, k);
            let vms = after_turns(f, turns).vms;
            &&& vms.contains_key(id) <==> !(action == PolicyAction::Reap && turns[k].went)
            &&& vms.contains_key(id) ==> vms[id] == (if action == PolicyAction::Nothing {
                f.vms[id]
            } else {
                turns[k].left
            })
            &&& action != PolicyAction::Nothing ==> both_looks_say(
                after_turns(f, turns.take(k)).memory,
                f.vms[id],
                turns[k],
                action,
            )
            &&& action == PolicyAction::Suspend ==> f.vms[id].stage() == Lifecycle::Running
            &&& action == PolicyAction::Reap ==> f.vms[id].stage() == Lifecycle::Suspended
            &&& f.vms[id].idle_timeout_secs is None || sessions_of(f.memory.sessions, id) > 0
                ==> action == PolicyAction::Nothing
        }),
    decreases turns.len(),
{
    let rest = turns.drop_last();
    let last = turns[turns.len() - 1];
    let m = after_turns(f, rest);
    all_but_the_last_turn(f, turns);
    without_a_turn(f, rest, last.id);
    one_turn(m, last);
    if k < rest.len() {
        assert(rest[k] == turns[k]);
        assert(done_in_turn(f, rest, k) == done_in_turn(f, turns, k));
        assert(rest.take(k) =~= turns.take(k));
        with_a_turn(f, rest, k);
    } else {
        assert(turns.take(k) =~= rest);
    }
}

/// Turn by turn, the counters follow the VMs.
proof fn turns_add_up(f: Fleet, turns: Seq<Turn>)
    requires
        is_poll(f, turns),
        suspends_are_whole(f, turns),
        counters_last(f.metrics, turns),
    ensures
        ({
            let e = after_turns(f, turns);
            let asleep = newly_suspended(f, e);
            let reaped = gone(f, e);
            &&& asleep.finite() && asleep.len() <= turns.len()
            &&& reaped.finite() && reaped.len() <= turns.len()
            &&& e.metrics.suspended_total == f.metrics.suspended_total + asleep.len()
            &&& e.metrics.reaped_total == f.metrics.reaped_total + reaped.len()
            &&& e.metrics == (IdleMetrics {
                suspended_total: e.metrics.suspended_total,
                reaped_total: e.metrics.reaped_total,
                ..f.metrics
            })
        }),
    decreases turns.len(),
{
    let e = after_turns(f, turns);
    if turns.len() == 0 {
        assert(newly_suspended(f, e) =~= Set::empty());
        assert(gone(f, e) =~= Set::empty());
    } else {
        let rest = turns.drop_last();
        let last = turns[turns.len() - 1];
        let m = after_turns(f, rest);
        all_but_the_last_turn(f, turns);
        turns_add_up(f, rest);
        without_a_turn(f, rest, last.id);
        one_turn(m, last);
        let action = done_in_turn(f, turns, turns.len() - 1);
        let asleep = newly_suspended(f, m);
        let reaped = gone(f, m);
        assert(!asleep.contains(last.id) && !reaped.contains(last.id));
        if action == PolicyAction::Suspend && last.went {
            assert(newly_suspended(f, e) =~= asleep.insert(last.id));
            assert(gone(f, e) =~= reaped);
        } else if action == PolicyAction::Reap && last.went {
            assert(newly_suspended(f, e) =~= asleep);
            assert(gone(f, e) =~= reaped.insert(last.id));
        } else {
            assert(newly_suspended(f, e) =~= asleep);
            assert(gone(f, e) =~= reaped);
        }
    }
}

/// A VM that has not opted in, or that has a session open, keeps its record through a
/// poll. So does every VM about which nothing is done. No VM appears.
pub proof fn polls_leave_the_rest_alone(f: Fleet, turns: Seq<Turn>, id: u128)
    requires
        is_poll(f, turns),
    ensures
        after_turns(f, turns).vms.contains_key(id) ==> f.vms.contains_key(id),
        f.vms.contains_key(id) && (forall|k: int|
            0 <= k < turns.len() && (#[trigger] turns[k]).id == id ==> done_in_turn(f, turns, k)
                == PolicyAction::Nothing) ==> after_turns(f, turns).vms.contains_key(id)
            && after_turns(f, turns).vms[id] == f.vms[id],
        f.vms.contains_key(id) && (f.vms[id].idle_timeout_secs is None || sessions_of(
            f.memory.sessions,
            id,
        ) > 0) ==> after_turns(f, turns).vms.contains_key(id) && after_turns(f, turns).vms[id]
            == f.vms[id],
{
    if exists|k: int| 0 <= k < turns.len() && (#[trigger] turns[k]).id == id {
        with_a_turn(f, turns, choose|k: int| 0 <= k < turns.len() && (#[trigger] turns[k]).id == id);
    } else {
        without_a_turn(f, turns, id);
    }
}

/// A poll suspends a VM only where both looks would suspend it, and destroys one only
/// where both would reap it.
pub proof fn polls_act_where_both_looks_agree(f: Fleet, turns: Seq<Turn>, id: u128)
    requires
        is_poll(f, turns),
    ensures
        newly_suspended(f, after_turns(f, turns)).contains(id) ==> exists|k: int|
            0 <= k < turns.len() && (#[trigger] turns[k]).id == id && both_looks_say(
                after_turns(f, turns.take(k)).memory,
                f.vms[id],
                turns[k],
                PolicyAction::Suspend,
            ),
        gone(f, after_turns(f, turns)).contains(id) ==> exists|k: int|
            0 <= k < turns.len() && (#[trigger] turns[k]).id == id && both_looks_say(
                after_turns(f, turns.take(k)).memory,
                f.vms[id],
                turns[k],
                PolicyAction::Reap,
            ),
{
    if exists|k: int| 0 <= k < turns.len() && (#[trigger] turns[k]).id == id {
        with_a_turn(f, turns, choose|k: int| 0 <= k < turns.len() && (#[trigger] turns[k]).id == id);
    } else {
        without_a_turn(f, turns, id);
    }
}

/// A poll counts exactly what it did: as many suspends as VMs that are newly suspended,
/// as many reaps as VMs that are gone, and nothing else.
pub proof fn polls_count_what_they_did(f: Fleet, turns: Seq<Turn>)
    requires
        is_poll(f, turns),
        suspends_are_whole(f, turns),
        counters_last(f.metrics, turns),
    ensures
        newly_suspended(f, after_turns(f, turns)).finite(),
        gone(f, after_turns(f, turns)).finite(),
        after_turns(f, turns).metrics.suspended_total == f.metrics.suspended_total
            + newly_suspended(f, after_turns(f, turns)).len(),
        after_turns(f, turns).metrics.reaped_total == f.metrics.reaped_total + gone(
            f,
            after_turns(f, turns),
        ).len(),
        after_turns(f, turns).metrics == (IdleMetrics {
            suspended_total: after_turns(f, turns).metrics.suspended_total,
            reaped_total: after_turns(f, turns).metrics.reaped_total,
            ..f.metrics
        }),
{
    turns_add_up(f, turns);
}

/// What both looks say is done, not only nothing else: a VM that has opted in is suspended
/// or reaped where the policy says so at both looks.
pub proof fn what_both_looks_say_is_done(f: Fleet, t: Turn, action: PolicyAction)
    requires
        f.vms[t.id].idle_timeout_secs is Some,
        f.vms[t.id].id == t.id,
        action != PolicyAction::Nothing,
        both_looks_say(f.memory, f.vms[t.id], t, action),
    ensures
        done_about(f, t) == action,
        action == PolicyAction::Reap && t.went ==> !after_turn(f, t).vms.contains_key(t.id),
        action == PolicyAction::Suspend && t.went ==> after_turn(f, t).vms[t.id] == t.left
            && after_turn(f, t).metrics.suspended_total == f.metrics.suspended_total.wrapping_add(1),
{
    reveal(done_about);
    reveal(after_turn);
    reveal(both_looks_say);
}

/// A VM that nobody uses is suspended in its turn where it has been idle for its window at
/// both looks, and reaped where it has been suspended for its time at both.
pub proof fn unused_vms_get_their_turn(f: Fleet, t: Turn)
    requires
        f.vms[t.id].idle_timeout_secs is Some,
        f.vms[t.id].id == t.id,
        sessions_of(f.memory.sessions, t.id) == 0,
    ensures
        ({
            let vm = f.vms[t.id];
            let noted = watched(f.memory, vm, t.first);
            let noted_again = watched(noted, vm, t.second);
            let first = idle_span(noted.clocks, vm, 0, t.first.tick, t.first.now);
            let second = idle_span(noted_again.clocks, vm, 0, t.second.tick, t.second.now);
            &&& policy_of(vm, t.first.now, first, false, t.first.fork) == PolicyAction::Suspend
                && policy_of(vm, t.second.now, second, false, t.second.fork)
                == PolicyAction::Suspend ==> done_about(f, t) == PolicyAction::Suspend
            &&& policy_of(vm, t.first.now, first, false, t.first.fork) == PolicyAction::Reap
                && policy_of(vm, t.second.now, None, false, t.second.fork) == PolicyAction::Reap
                ==> done_about(f, t) == PolicyAction::Reap
        }),
{
    reveal(done_about);
    reveal(both_looks_say);
}

/// A look notes traffic, and nothing else: where there was some, the VM's network clock
/// shows the look, and no other clock moves. Sessions are untouched.
pub proof fn looks_note_traffic(m: Memory, vm: VmRecord, s: Sight, other: u128)
    requires
        other != vm.id,
    ensures
        ({
            let w = watched(m, vm, s);
            &&& w.sessions == m.sessions
            &&& w.clocks.control_plane == m.clocks.control_plane
            &&& vm.tap_device is None ==> w == m
            &&& vm.tap_device is Some && carried_traffic(
                m.counters,
                s.read,
                vm.tap_device->0@,
                s.ports,
            ) ==> w.clocks == trafficked(m.clocks, vm.id, s.tick)
            &&& vm.tap_device is Some && !carried_traffic(
                m.counters,
                s.read,
                vm.tap_device->0@,
                s.ports,
            ) ==> w.clocks == m.clocks
            &&& vm.tap_device is Some ==> !carried_traffic(
                w.counters,
                s.read,
                vm.tap_device->0@,
                s.ports,
            )
            &&& w.clocks.network.contains_key(other) == m.clocks.network.contains_key(other)
        }),
{
    if vm.tap_device is Some {
        a_second_look_sees_no_traffic(m.counters, s.read, vm.tap_device->0@, s.ports);
    }
}

/// What succeeds is counted as what it was, once, and what fails is not counted.
pub proof fn actions_are_counted_apart(metrics: IdleMetrics, action: PolicyAction)
    requires
        metrics.suspended_total < u64::MAX,
        metrics.reaped_total < u64::MAX,
    ensures
        counted(metrics, action, false) == metrics,
        counted(metrics, PolicyAction::Nothing, true) == metrics,
        counted(metrics, PolicyAction::Suspend, true).suspended_total == metrics.suspended_total + 1,
        counted(metrics, PolicyAction::Suspend, true).reaped_total == metrics.reaped_total,
        counted(metrics, PolicyAction::Reap, true).reaped_total == metrics.reaped_total + 1,
        counted(metrics, PolicyAction::Reap, true).suspended_total == metrics.suspended_total,
        counted(metrics, action, true).auto_resumed_connect_total
            == metrics.auto_resumed_connect_total,
        counted(metrics, action, true).auto_resumed_control_plane_total
            == metrics.auto_resumed_control_plane_total,
{
}

/// The traffic of a VM that is about to be suspended is noted at the second look too; about
/// any other nothing is noted there.
pub proof fn suspends_look_at_traffic_twice(
    m: Memory,
    first: PolicyAction,
    vm: VmRecord,
    s: Sight,
)
    ensures
        second_memory(m, PolicyAction::Suspend, vm, s) == watched(m, vm, s),
        first != PolicyAction::Suspend ==> second_memory(m, first, vm, s) == m,
        second_verdict(m, first, vm, s) != PolicyAction::Nothing ==> second_verdict(
            m,
            first,
            vm,
            s,
        ) == first,
{
}

} // verus!
