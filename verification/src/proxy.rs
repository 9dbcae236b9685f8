//! The userspace port proxy: which listeners a VM has, what follows an accept, and how
//! connections reach a guest that may be asleep.

use vstd::prelude::*;

verus! {

/// How many queued connections of a forward are served when its listener is closed.
pub const DRAIN_CAP: usize = 128;

/// Upper bound on concurrent relays per forward. A client that opens many connections
/// and lets them idle cannot make the daemon relay without bound: further connections
/// wait in the kernel's backlog.
pub const MAX_CONCURRENT_RELAYS: usize = 512;

/// Dials the guest directly, at its address.
#[derive(Debug, Clone, Copy)]
pub struct DirectIpDialer;

impl Default for DirectIpDialer {
    fn default() -> (r: DirectIpDialer)
        ensures
            r == DirectIpDialer,
    {
        DirectIpDialer
    }
}

/// Wraps a dialer with a hook that resumes the VM first, so that every connection
/// wakes the VM before its bytes are relayed.
#[derive(Clone)]
pub struct ResumeDialer<D, F> {
    inner: D,
    vm_name: String,
    resume: F,
}

/// The dialer wakes the VM with this name by this hook, and asks this dialer.
pub open spec fn dials_after_waking<D, F>(
    r: ResumeDialer<D, F>,
    inner: D,
    vm_name: Seq<char>,
    resume: F,
) -> bool {
    &&& r.inner_dialer() == inner
    &&& r.wakes() == vm_name
    &&& r.hook() == resume
}

/// A dialer wakes the one VM that it was made for: dialers for two VMs wake two VMs.
pub proof fn dialers_wake_their_own_vm<D, F>(
    a: ResumeDialer<D, F>,
    b: ResumeDialer<D, F>,
    inner: D,
    x: Seq<char>,
    y: Seq<char>,
    resume: F,
)
    requires
        dials_after_waking(a, inner, x, resume),
        dials_after_waking(b, inner, y, resume),
    ensures
        a.wakes() == b.wakes() <==> x == y,
        a.wakes() == x,
        a.inner_dialer() == inner && a.hook() == resume,
{
}

impl<D, F> ResumeDialer<D, F> {
    /// The dialer that is asked once the VM is awake.
    pub closed spec fn inner_dialer(self) -> D {
        self.inner
    }

    /// The VM that is woken.
    pub closed spec fn wakes(self) -> Seq<char> {
        self.vm_name@
    }

    /// What wakes the VM.
    pub closed spec fn hook(self) -> F {
        self.resume
    }

    /// A dialer that wakes the VM with this name.
    pub fn new(inner: D, vm_name: String, resume: F) -> (r: ResumeDialer<D, F>)
        ensures
            dials_after_waking(r, inner, vm_name@, resume),
    {
        ResumeDialer { inner, vm_name, resume }
    }

    /// The dialer that is asked once the VM is awake.
    pub fn inner(&self) -> (r: &D)
        ensures
            *r == self.inner_dialer(),
    {
        &self.inner
    }

    /// The VM that is woken.
    pub fn vm_name(&self) -> (r: &str)
        ensures
            r@ == self.wakes(),
    {
        self.vm_name.as_str()
    }

    /// What wakes the VM.
    pub fn resume(&self) -> (r: &F)
        ensures
            *r == self.hook(),
    {
        &self.resume
    }
}

// ---------------------------------------------------------------------------
// Accepting
// ---------------------------------------------------------------------------

/// Why the kernel gave no connection.
#[derive(Clone, Copy, PartialEq, Eq, Debug, Structural)]
pub enum AcceptFailure {
    /// A signal came first.
    Interrupted,
    /// The connection died while it was queued.
    Aborted,
    /// None is queued.
    WouldBlock,
    /// The listener is broken.
    Other,
}

/// What follows an accept that gave no connection.
#[derive(Clone, Copy, PartialEq, Eq, Debug, Structural)]
pub enum AcceptStep {
    Retry,
    Empty,
    Fail,
}

/// What follows an accept that gave no connection.
pub open spec fn accept_step(failure: AcceptFailure) -> AcceptStep {
    match failure {
        AcceptFailure::Interrupted | AcceptFailure::Aborted => AcceptStep::Retry,
        AcceptFailure::WouldBlock => AcceptStep::Empty,
        AcceptFailure::Other => AcceptStep::Fail,
    }
}

/// Another queued connection is taken.
pub open spec fn goes_on_draining(served: int, last_served: bool) -> bool {
    last_served && served < DRAIN_CAP
}

/// Only a broken listener is given up, only an empty queue ends a look, and whatever else
/// came in between is tried again.
pub proof fn listeners_outlive_lost_connections(failure: AcceptFailure)
    ensures
        accept_step(failure) == AcceptStep::Fail <==> failure == AcceptFailure::Other,
        accept_step(failure) == AcceptStep::Empty <==> failure == AcceptFailure::WouldBlock,
        accept_step(failure) == AcceptStep::Retry <==> failure == AcceptFailure::Interrupted
            || failure == AcceptFailure::Aborted,
{
}

/// A drain ends with the queue, and after 128 connections at the latest.
pub proof fn drains_end(served: int, last_served: bool)
    ensures
        !goes_on_draining(served, false),
        served >= 128 ==> !goes_on_draining(served, last_served),
        served < 128 ==> goes_on_draining(served, true),
{
}

/// Decide what follows an accept that gave no connection: nothing is lost by an
/// interruption or by a connection that is gone anyway, so the next one is tried.
pub fn after_accept_failure(failure: AcceptFailure) -> (r: AcceptStep)
    ensures
        r == accept_step(failure),
{
    match failure {
        AcceptFailure::Interrupted => AcceptStep::Retry,
        AcceptFailure::Aborted => AcceptStep::Retry,
        AcceptFailure::WouldBlock => AcceptStep::Empty,
        AcceptFailure::Other => AcceptStep::Fail,
    }
}

/// Whether another queued connection is taken while a listener is drained: `served`
/// have been already, and `last_served` tells whether the last look gave one.
pub fn drains_on(served: usize, last_served: bool) -> (r: bool)
    ensures
        r == goes_on_draining(served as int, last_served),
{
    last_served && served < DRAIN_CAP
}

// ---------------------------------------------------------------------------
// Listeners
// ---------------------------------------------------------------------------

/// A listener of a VM. The handle leads to the task that accepts its connections.
#[derive(Clone, Copy, PartialEq, Eq, Debug, Structural)]
pub struct Listener {
    pub vm: u128,
    pub port: u16,
    pub handle: u64,
}

/// No two listeners of a VM have the same port.
pub open spec fn one_per_port(s: Seq<Listener>) -> bool {
    forall|i: int, j: int|
        0 <= i < j < s.len() ==> (#[trigger] s[i]).vm != (#[trigger] s[j]).vm || s[i].port
            != s[j].port
}

/// The listeners of all VMs.
pub struct ForwardTable {
    listeners: Vec<Listener>,
}

impl View for ForwardTable {
    type V = Set<Listener>;

    closed spec fn view(&self) -> Set<Listener> {
        self.listeners@.to_set()
    }
}

impl ForwardTable {
    #[verifier::type_invariant]
    spec fn well_formed(self) -> bool {
        one_per_port(self.listeners@)
    }

    /// There is no listener.
    pub fn new() -> (r: ForwardTable)
        ensures
            r@ == Set::<Listener>::empty(),
    {
        let r = ForwardTable { listeners: Vec::new() };
        proof {
            assert(r@ =~= Set::empty());
        }
        r
    }

    fn position(&self, vm: u128, port: u16) -> (r: Option<usize>)
        ensures
            r matches Some(i) ==> i < self.listeners@.len() && self.listeners@[i as int].vm == vm
                && self.listeners@[i as int].port == port,
            r is None ==> forall|i: int|
                0 <= i < self.listeners@.len() ==> (#[trigger] self.listeners@[i]).vm != vm
                    || self.listeners@[i].port != port,
    {
        let mut i: usize = 0;
        while i < self.listeners.len()
            invariant
                i <= self.listeners@.len(),
                forall|k: int|
                    0 <= k < i ==> (#[trigger] self.listeners@[k]).vm != vm
                        || self.listeners@[k].port != port,
            decreases self.listeners.len() - i,
        {
            if self.listeners[i].vm == vm && self.listeners[i].port == port {
                return Some(i);
            }
            i += 1;
        }
        None
    }

    /// Enter a listener. Returns the one that it takes the place of, if any, whose task
    /// has to be stopped.
    pub fn add_listener(&mut self, listener: Listener) -> (r: Option<Listener>)
        ensures
            r == listener_at(old(self)@, listener.vm, listener.port),
            final(self)@ == with_listener(old(self)@, listener),
    {
        let r = self.stop(listener.vm, listener.port);
        proof {
            use_type_invariant(&*self);
            no_listener_left(self.listeners@, listener.vm, listener.port);
        }
        let ghost before = self.listeners@;
        let mut v: Vec<Listener> = Vec::new();
        std::mem::swap(&mut v, &mut self.listeners);
        v.push(listener);
        proof {
            assert forall|i: int, j: int| 0 <= i < j < v@.len() implies (#[trigger] v@[i]).vm != (
            #[trigger] v@[j]).vm || v@[i].port != v@[j].port by {
                assert(v@[i] == before[i]);
                if j < before.len() {
                    assert(v@[j] == before[j]);
                } else {
                    assert(before.to_set().contains(before[i]));
                }
            }
            assert(v@.to_set() =~= before.to_set().insert(listener)) by {
                assert forall|x: Listener| #[trigger]
                    v@.to_set().contains(x) <==> before.to_set().insert(listener).contains(x) by {
                    if v@.contains(x) {
                        let i = choose|i: int| 0 <= i < v@.len() && v@[i] == x;
                        if i < before.len() {
                            assert(before[i] == x);
                        }
                    }
                    if before.contains(x) {
                        let i = choose|i: int| 0 <= i < before.len() && before[i] == x;
                        assert(v@[i] == x);
                    }
                    assert(v@[before.len() as int] == listener);
                }
            }
        }
        self.listeners = v;
        r
    }

    /// Take out the listener of a VM on a port. Returns it, if there is one.
    pub fn stop(&mut self, vm: u128, port: u16) -> (r: Option<Listener>)
        ensures
            r == listener_at(old(self)@, vm, port),
            final(self)@ == without_listener(old(self)@, vm, port),
            listener_at(final(self)@, vm, port) is None,
    {
        proof {
            use_type_invariant(&*self);
        }
        let ghost before = self.listeners@;
        match self.position(vm, port) {
            None => {
                proof {
                    none_listens(before, vm, port);
                }
                None
            },
            Some(i) => {
                let mut v: Vec<Listener> = Vec::new();
                std::mem::swap(&mut v, &mut self.listeners);
                let l = v.remove(i);
                proof {
                    removed_listener(before, i as int);
                    the_listener(before, i as int);
                    none_listens(v@, vm, port);
                }
                self.listeners = v;
                Some(l)
            },
        }
    }

    /// Take out all listeners of a VM. Returns them.
    pub fn stop_all(&mut self, vm: u128) -> (r: Vec<Listener>)
        ensures
            all_taken(old(self)@, vm, r@, final(self)@),
    {
        proof {
            use_type_invariant(&*self);
        }
        let ghost before = self.listeners@;
        let mut v: Vec<Listener> = Vec::new();
        std::mem::swap(&mut v, &mut self.listeners);
        let mut kept: Vec<Listener> = Vec::new();
        let mut taken: Vec<Listener> = Vec::new();
        let mut i: usize = 0;
        while i < v.len()
            invariant
                i <= v@.len(),
                v@ == before,
                one_per_port(before),
                one_per_port(kept@),
                forall|k: int| 0 <= k < kept@.len() ==> before.take(i as int).contains(#[trigger] kept@[k]),
                forall|l: Listener| #[trigger]
                    kept@.contains(l) <==> before.take(i as int).contains(l) && l.vm != vm,
                forall|l: Listener| #[trigger]
                    taken@.contains(l) <==> before.take(i as int).contains(l) && l.vm == vm,
            decreases v.len() - i,
        {
            let l = v[i];
            let ghost kept_before = kept@;
            let ghost taken_before = taken@;
            proof {
                grows_by_one(before, i as int);
            }
            if l.vm == vm {
                taken.push(l);
                proof {
                    pushed_contains(taken_before, l);
                }
            } else {
                kept.push(l);
                proof {
                    pushed_contains(kept_before, l);
                    assert forall|a: int, b: int| 0 <= a < b < kept@.len() implies (
                    #[trigger] kept@[a]).vm != (#[trigger] kept@[b]).vm || kept@[a].port
                        != kept@[b].port by {
                        assert(kept@[a] == kept_before[a]);
                        if b < kept_before.len() {
                            assert(kept@[b] == kept_before[b]);
                        } else {
                            let x = choose|x: int|
                                0 <= x < before.take(i as int).len() && before.take(i as int)[x]
                                    == kept_before[a];
                            assert(before[x] == kept_before[a]);
                            assert(before[i as int] == l);
                        }
                    }
                }
            }
            proof {
                assert forall|k: int| 0 <= k < kept@.len() implies before.take(i + 1).contains(
                    #[trigger] kept@[k],
                ) by {
                    assert(kept@.contains(kept@[k]));
                }
            }
            i += 1;
        }
        proof {
            assert(before.take(i as int) =~= before);
            assert forall|l: Listener| #[trigger] kept@.to_set().contains(l) <==> before.to_set().contains(l)
                && l.vm != vm by {
                assert(kept@.contains(l) <==> before.contains(l) && l.vm != vm);
            }
        }
        self.listeners = kept;
        taken
    }
}

/// The listener of a VM on a port, if there is one.
pub open spec fn listener_at(s: Set<Listener>, vm: u128, port: u16) -> Option<Listener> {
    if exists|l: Listener| #[trigger] s.contains(l) && l.vm == vm && l.port == port {
        Some(choose|l: Listener| #[trigger] s.contains(l) && l.vm == vm && l.port == port)
    } else {
        None
    }
}

/// The listeners without that of a VM on a port.
pub open spec fn without_listener(s: Set<Listener>, vm: u128, port: u16) -> Set<Listener> {
    match listener_at(s, vm, port) {
        Some(l) => s.remove(l),
        None => s,
    }
}

/// The listeners with one more, in the place of the one that had its port.
pub open spec fn with_listener(s: Set<Listener>, listener: Listener) -> Set<Listener> {
    without_listener(s, listener.vm, listener.port).insert(listener)
}

/// All listeners of a VM were taken out.
pub open spec fn all_taken(
    before: Set<Listener>,
    vm: u128,
    taken: Seq<Listener>,
    after: Set<Listener>,
) -> bool {
    &&& forall|l: Listener| #[trigger] taken.contains(l) <==> before.contains(l) && l.vm == vm
    &&& forall|l: Listener| #[trigger] after.contains(l) <==> before.contains(l) && l.vm != vm
}

/// No two of the listeners have the same port of the same VM.
pub open spec fn ports_are_apart(s: Set<Listener>) -> bool {
    forall|a: Listener, b: Listener|
        #![trigger s.contains(a), s.contains(b)]
        s.contains(a) && s.contains(b) && a.vm == b.vm && a.port == b.port ==> a == b
}

/// A listener that was entered is the one on its port, and stays apart from all others. It
/// takes the place of the earlier one alone: the listeners of other VMs and of other ports
/// are left as they are, when it comes and when it goes.
pub proof fn listeners_have_their_port_to_themselves(
    s: Set<Listener>,
    listener: Listener,
    other: Listener,
)
    requires
        ports_are_apart(s),
    ensures
        listener_at(with_listener(s, listener), listener.vm, listener.port) == Some(listener),
        ports_are_apart(with_listener(s, listener)),
        listener_at(without_listener(s, listener.vm, listener.port), listener.vm, listener.port)
            is None,
        other.vm != listener.vm || other.port != listener.port ==> {
            &&& with_listener(s, listener).contains(other) <==> s.contains(other)
            &&& without_listener(s, listener.vm, listener.port).contains(other) <==> s.contains(
                other,
            )
        },
        s.contains(other) ==> listener_at(s, other.vm, other.port) == Some(other),
{
    let t = with_listener(s, listener);
    assert(t.contains(listener));
    let found = listener_at(t, listener.vm, listener.port)->0;
    if found != listener {
        assert(s.contains(found));
        let old_one = listener_at(s, listener.vm, listener.port)->0;
        assert(s.contains(old_one));
    }
    assert forall|a: Listener, b: Listener|
        #![trigger t.contains(a), t.contains(b)]
        t.contains(a) && t.contains(b) && a.vm == b.vm && a.port == b.port implies a == b by {
        if a != b {
            let x = if a == listener { b } else { a };
            assert(s.contains(x));
            if a != listener && b != listener {
                assert(s.contains(a) && s.contains(b));
            } else {
                let old_one = listener_at(s, listener.vm, listener.port)->0;
                assert(s.contains(old_one));
            }
        }
    }
    let u = without_listener(s, listener.vm, listener.port);
    if listener_at(u, listener.vm, listener.port) is Some {
        let x = listener_at(u, listener.vm, listener.port)->0;
        assert(u.contains(x));
        assert(s.contains(x));
        let old_one = listener_at(s, listener.vm, listener.port)->0;
        assert(s.contains(old_one));
    }
    if s.contains(other) {
        let x = listener_at(s, other.vm, other.port)->0;
        assert(s.contains(x));
    }
}

/// Once a VM's listeners are taken out, none of its ports has one, and every one of them
/// was handed out; those of other VMs are still there.
pub proof fn vms_lose_all_their_listeners(
    before: Set<Listener>,
    vm: u128,
    taken: Seq<Listener>,
    after: Set<Listener>,
    l: Listener,
    port: u16,
)
    requires
        all_taken(before, vm, taken, after),
    ensures
        listener_at(after, vm, port) is None,
        before.contains(l) && l.vm == vm ==> taken.contains(l) && !after.contains(l),
        before.contains(l) && l.vm != vm ==> !taken.contains(l) && after.contains(l),
        !before.contains(l) ==> !taken.contains(l) && !after.contains(l),
{
    if listener_at(after, vm, port) is Some {
        let x = listener_at(after, vm, port)->0;
        assert(after.contains(x));
    }
}

proof fn pushed_contains(s: Seq<Listener>, l: Listener)
    ensures
        forall|x: Listener| #[trigger] s.push(l).contains(x) <==> s.contains(x) || x == l,
{
    assert forall|x: Listener| #[trigger] s.push(l).contains(x) <==> s.contains(x) || x == l by {
        if s.contains(x) {
            let i = choose|i: int| 0 <= i < s.len() && s[i] == x;
            assert(s.push(l)[i] == x);
        }
        if s.push(l).contains(x) {
            let i = choose|i: int| 0 <= i < s.push(l).len() && s.push(l)[i] == x;
            if i < s.len() {
                assert(s[i] == x);
            }
        }
        assert(s.push(l)[s.len() as int] == l);
    }
}

proof fn grows_by_one(s: Seq<Listener>, i: int)
    requires
        0 <= i < s.len(),
    ensures
        forall|x: Listener| #[trigger]
            s.take(i + 1).contains(x) <==> s.take(i).contains(x) || x == s[i],
{
    assert(s.take(i + 1) =~= s.take(i).push(s[i]));
    pushed_contains(s.take(i), s[i]);
}

proof fn none_listens(s: Seq<Listener>, vm: u128, port: u16)
    requires
        forall|i: int| 0 <= i < s.len() ==> (#[trigger] s[i]).vm != vm || s[i].port != port,
    ensures
        listener_at(s.to_set(), vm, port) is None,
{
}

proof fn no_listener_left(s: Seq<Listener>, vm: u128, port: u16)
    requires
        listener_at(s.to_set(), vm, port) is None,
    ensures
        forall|i: int| 0 <= i < s.len() ==> (#[trigger] s[i]).vm != vm || s[i].port != port,
{
    assert forall|i: int| 0 <= i < s.len() implies (#[trigger] s[i]).vm != vm || s[i].port
        != port by {
        assert(s.to_set().contains(s[i]));
    }
}

proof fn the_listener(s: Seq<Listener>, i: int)
    requires
        one_per_port(s),
        0 <= i < s.len(),
    ensures
        listener_at(s.to_set(), s[i].vm, s[i].port) == Some(s[i]),
{
    assert(s.to_set().contains(s[i]));
    let l = listener_at(s.to_set(), s[i].vm, s[i].port)->0;
    assert(s.contains(l));
    let j = choose|j: int| 0 <= j < s.len() && s[j] == l;
}

proof fn removed_listener(s: Seq<Listener>, i: int)
    requires
        one_per_port(s),
        0 <= i < s.len(),
    ensures
        one_per_port(s.remove(i)),
        s.remove(i).to_set() =~= s.to_set().remove(s[i]),
        forall|k: int|
            0 <= k < s.remove(i).len() ==> (#[trigger] s.remove(i)[k]).vm != s[i].vm || s.remove(
                i,
            )[k].port != s[i].port,
{
    let t = s.remove(i);
    assert forall|a: int, b: int| 0 <= a < b < t.len() implies (#[trigger] t[a]).vm != (
    #[trigger] t[b]).vm || t[a].port != t[b].port by {
        let x = if a < i { a } else { a + 1 };
        let y = if b < i { b } else { b + 1 };
        assert(t[a] == s[x] && t[b] == s[y]);
    }
    assert forall|k: int| 0 <= k < t.len() implies (#[trigger] t[k]).vm != s[i].vm || t[k].port
        != s[i].port by {
        let x = if k < i { k } else { k + 1 };
        assert(t[k] == s[x]);
    }
    assert forall|x: Listener| #[trigger] t.to_set().contains(x) <==> s.to_set().remove(
        s[i],
    ).contains(x) by {
        if t.contains(x) {
            let k = choose|k: int| 0 <= k < t.len() && t[k] == x;
            let y = if k < i { k } else { k + 1 };
            assert(s[y] == x);
        }
        if s.contains(x) && x != s[i] {
            let y = choose|y: int| 0 <= y < s.len() && s[y] == x;
            let k = if y < i { y } else { y - 1 };
            assert(t[k] == x);
        }
    }
}

} // verus!
