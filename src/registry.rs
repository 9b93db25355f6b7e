//! Tracking of locally spawned helper processes: one watchdog per entry and a
//! sweep at shutdown, with removal from the map as the single reclaim point.
use vstd::prelude::*;
use std::collections::HashMap;
use crate::session::ActionError;

verus! {

broadcast use vstd::std_specs::hash::group_hash_axioms;

/// Seconds a helper process may live before its watchdog reclaims it.
pub const WATCHDOG_TIMEOUT_SECS: u64 = 30;

/// A watchdog that the caller must schedule once: after `timeout_secs`
/// it fires for `pid`.
#[derive(Debug, Clone, Copy, PartialEq, Eq, Structural)]
pub struct Watchdog {
    pub pid: u32,
    pub timeout_secs: u64,
}

/// What a non-blocking status probe said of a process.
#[derive(Debug, Clone, Copy, PartialEq, Eq, Structural)]
pub enum ProbeStatus {
    /// It has exited on its own.
    Exited,
    /// It is still running.
    Running,
    /// The probe itself failed.
    Unknown,
}

/// How a removed process is reclaimed.
#[derive(Debug, Clone, Copy, PartialEq, Eq, Structural)]
pub enum Reclaim {
    /// Release the handle without killing: the process has already exited.
    Release,
    /// Force-terminate the process.
    Terminate,
}

/// A watchdog reclaims by release only a process known to have exited.
pub open spec fn reclaim_of(probe: ProbeStatus) -> Reclaim {
    if probe == ProbeStatus::Exited {
        Reclaim::Release
    } else {
        Reclaim::Terminate
    }
}

/// Decides how a watchdog reclaims the process it removed.
pub fn reclaim_action(probe: ProbeStatus) -> (r: Reclaim)
    ensures
        r == reclaim_of(probe),
{
    match probe {
        ProbeStatus::Exited => Reclaim::Release,
        _ => Reclaim::Terminate,
    }
}

/// The registry after a watchdog fires for `pid`: the entry is gone.
pub open spec fn after_fire<H>(m: Map<u32, H>, pid: u32) -> Map<u32, H> {
    m.remove(pid)
}

/// The handle a watchdog firing for `pid` takes out, if the entry is still there.
pub open spec fn fired<H>(m: Map<u32, H>, pid: u32) -> Option<H> {
    if m.contains_key(pid) {
        Some(m[pid])
    } else {
        None
    }
}

/// `drained` holds each entry of `m` exactly once.
pub open spec fn drains<H>(m: Map<u32, H>, drained: Seq<(u32, H)>) -> bool {
    &&& forall|i: int| 0 <= i < drained.len() ==> #[trigger] m.contains_key(drained[i].0)
        && m[drained[i].0] == drained[i].1
    &&& forall|pid: u32| m.contains_key(pid) ==> exists|i: int|
        0 <= i < drained.len() && #[trigger] drained[i].0 == pid
    &&& forall|i: int, j: int| 0 <= i < j < drained.len() ==> drained[i].0 != drained[j].0
}

/// A process that has exited on its own by the time its watchdog fires is
/// taken out of the registry and released without being terminated.
pub proof fn lemma_exited_process_released<H>(m: Map<u32, H>, pid: u32, handle: H)
    ensures
        fired(m.insert(pid, handle), pid) == Some(handle),
        !after_fire(m.insert(pid, handle), pid).contains_key(pid),
        reclaim_of(ProbeStatus::Exited) == Reclaim::Release,
{
}

/// A process still running when its watchdog fires is taken out and
/// terminated; the entry is then gone, so no later fire for the same
/// identifier takes a handle again and it is terminated once only.
pub proof fn lemma_overdue_process_terminated_once<H>(m: Map<u32, H>, pid: u32, handle: H)
    ensures
        fired(m.insert(pid, handle), pid) == Some(handle),
        reclaim_of(ProbeStatus::Running) == Reclaim::Terminate,
        fired(after_fire(m.insert(pid, handle), pid), pid) is None,
        after_fire(after_fire(m.insert(pid, handle), pid), pid) == after_fire(m.insert(pid, handle), pid),
{
    assert(after_fire(after_fire(m.insert(pid, handle), pid), pid) =~= after_fire(m.insert(pid, handle), pid));
}

/// The exit sweep hands over every outstanding entry, two distinct ones
/// included, and leaves the registry empty; watchdogs firing afterwards for
/// those entries take nothing and change nothing.
pub proof fn lemma_sweep_leaves_watchdogs_nothing<H>(
    m: Map<u32, H>,
    p: u32,
    hp: H,
    q: u32,
    hq: H,
    drained: Seq<(u32, H)>,
)
    requires
        p != q,
        drains(m.insert(p, hp).insert(q, hq), drained),
    ensures
        exists|i: int| 0 <= i < drained.len() && drained[i] == (p, hp),
        exists|i: int| 0 <= i < drained.len() && drained[i] == (q, hq),
        fired(Map::<u32, H>::empty(), p) is None,
        fired(Map::<u32, H>::empty(), q) is None,
        after_fire(after_fire(Map::<u32, H>::empty(), p), q) == Map::<u32, H>::empty(),
{
    let full = m.insert(p, hp).insert(q, hq);
    assert(full.contains_key(p));
    assert(full.contains_key(q));
    let i = choose|i: int| 0 <= i < drained.len() && #[trigger] drained[i].0 == p;
    let j = choose|j: int| 0 <= j < drained.len() && #[trigger] drained[j].0 == q;
    assert(full.contains_key(drained[i].0));
    assert(full.contains_key(drained[j].0));
    assert(drained[i] == (p, hp));
    assert(drained[j] == (q, hq));
    assert(after_fire(after_fire(Map::<u32, H>::empty(), p), q) =~= Map::<u32, H>::empty());
}

/// Helper processes by identifier, each with the handle that owns it.
pub struct ProcessTracker<H> {
    processes: HashMap<u32, H>,
}

impl<H> View for ProcessTracker<H> {
    type V = Map<u32, H>;

    closed spec fn view(&self) -> Map<u32, H> {
        self.processes@
    }
}

impl<H> ProcessTracker<H> {
    /// An empty registry.
    pub fn new() -> (r: ProcessTracker<H>)
        ensures
            r@ == Map::<u32, H>::empty(),
    {
        ProcessTracker { processes: HashMap::new() }
    }

    /// Number of outstanding entries.
    pub fn len(&self) -> (r: usize)
        ensures
            r == self@.dom().len(),
    {
        self.processes.len()
    }

    /// Whether `pid` is still outstanding.
    pub fn contains(&self, pid: u32) -> (r: bool)
        ensures
            r == self@.contains_key(pid),
    {
        self.processes.contains_key(&pid)
    }

    /// Takes ownership of `handle` under `pid` and returns the one watchdog
    /// the caller must schedule for it.
    pub fn register(&mut self, pid: u32, handle: H) -> (w: Watchdog)
        ensures
            final(self)@ == old(self)@.insert(pid, handle),
            w == (Watchdog { pid, timeout_secs: WATCHDOG_TIMEOUT_SECS }),
    {
        let _ = self.processes.insert(pid, handle);
        Watchdog { pid, timeout_secs: WATCHDOG_TIMEOUT_SECS }
    }

    /// Takes the outcome of spawning a helper: a refused spawn registers
    /// nothing and fails with `Spawn`; a started one is registered and its
    /// watchdog returned.
    pub fn track_spawn<E>(&mut self, spawned: Result<(u32, H), E>) -> (r: Result<Watchdog, ActionError>)
        ensures
            match spawned {
                Ok((pid, handle)) => final(self)@ == old(self)@.insert(pid, handle)
                    && r == Ok::<Watchdog, ActionError>(Watchdog { pid, timeout_secs: WATCHDOG_TIMEOUT_SECS }),
                Err(_) => final(self)@ == old(self)@
                    && r == Err::<Watchdog, ActionError>(ActionError::Spawn),
            },
    {
        match spawned {
            Ok((pid, handle)) => Ok(self.register(pid, handle)),
            Err(_) => Err(ActionError::Spawn),
        }
    }

    /// A watchdog fires: removes the entry for `pid` and hands its handle
    /// over for reclaiming; does nothing when the entry is already gone.
    pub fn fire_watchdog(&mut self, pid: u32) -> (r: Option<H>)
        ensures
            final(self)@ == after_fire(old(self)@, pid),
            r == fired(old(self)@, pid),
    {
        self.processes.remove(&pid)
    }

    /// The exit sweep: removes every entry and hands each one over for
    /// termination.
    pub fn drain_all(&mut self) -> (r: Vec<(u32, H)>)
        ensures
            final(self)@ == Map::<u32, H>::empty(),
            drains(old(self)@, r@),
    {
        let ghost start = self.processes@;
        let mut pids: Vec<u32> = Vec::new();
        for k in it: self.processes.keys()
            invariant
                it.seq().unref().to_set() == start.dom(),
                it.seq().unref().no_duplicates(),
                pids@ == it.seq().unref().take(it.index()),
                it.index() == it.seq().len() ==> pids@ == it.seq().unref(),
        {
            pids.push(*k);
            proof {
                assert(*k == *it.seq()[it.index()]);
                assert(pids@ =~= it.seq().unref().take(it.index() + 1));
                assert(it.seq().unref().take(it.seq().len() as int) =~= it.seq().unref());
            }
        }
        let mut drained: Vec<(u32, H)> = Vec::new();
        let mut i: usize = 0;
        while i < pids.len()
            invariant
                0 <= i <= pids@.len(),
                pids@.no_duplicates(),
                pids@.to_set() == start.dom(),
                forall|p: u32| #[trigger] self.processes@.contains_key(p) <==> (start.contains_key(p)
                    && !pids@.take(i as int).contains(p)),
                forall|p: u32| #[trigger] self.processes@.contains_key(p) ==> self.processes@[p] == start[p],
                drained@.len() == i,
                forall|j: int| 0 <= j < i ==> (#[trigger] drained@[j]).0 == pids@[j]
                    && start[pids@[j]] == drained@[j].1,
            decreases pids@.len() - i,
        {
            let pid = pids[i];
            proof {
                assert(pids@.to_set().contains(pid));
                assert(!pids@.take(i as int).contains(pid)) by {
                    if pids@.take(i as int).contains(pid) {
                        let j = choose|j: int| 0 <= j < i && #[trigger] pids@.take(i as int)[j] == pid;
                        assert(pids@[j] == pids@[i as int]);
                    }
                }
            }
            let h = self.processes.remove(&pid);
            match h {
                Some(h) => drained.push((pid, h)),
                None => {},
            }
            proof {
                assert forall|p: u32| #[trigger] self.processes@.contains_key(p) <==> (start.contains_key(p)
                    && !pids@.take(i + 1).contains(p)) by {
                    assert(pids@.take(i + 1).contains(p) <==> (pids@.take(i as int).contains(p) || p == pid)) by {
                        if pids@.take(i + 1).contains(p) && p != pid {
                            let j = choose|j: int| 0 <= j < i + 1 && #[trigger] pids@.take(i + 1)[j] == p;
                            assert(pids@.take(i as int)[j] == p);
                        }
                        if p == pid {
                            assert(pids@.take(i + 1)[i as int] == p);
                        }
                        if pids@.take(i as int).contains(p) {
                            let j = choose|j: int| 0 <= j < i && #[trigger] pids@.take(i as int)[j] == p;
                            assert(pids@.take(i + 1)[j] == p);
                        }
                    }
                }
            }
            i = i + 1;
        }
        proof {
            assert(pids@.take(i as int) =~= pids@);
            assert(self.processes@ =~= Map::<u32, H>::empty()) by {
                assert forall|p: u32| !self.processes@.contains_key(p) by {
                    if start.contains_key(p) {
                        assert(pids@.to_set().contains(p));
                    }
                }
            }
            assert forall|p: u32| start.contains_key(p) implies exists|j: int|
                0 <= j < drained@.len() && #[trigger] drained@[j].0 == p by {
                assert(pids@.to_set().contains(p));
                let j = choose|j: int| 0 <= j < pids@.len() && #[trigger] pids@[j] == p;
                assert(drained@[j].0 == p);
            }
            assert forall|j: int| 0 <= j < drained@.len() implies #[trigger] start.contains_key(
                drained@[j].0) by {
                assert(pids@.to_set().contains(pids@[j]));
            }
        }
        drained
    }
}

} // verus!
