//! The host's record of the applets it has launched: one entry for each
//! process id.
//!
//! The registry belongs to the host's control task alone. Launching adds an
//! entry, an accepted connection looks its peer up, closing removes the entry.
//! A registry is, mathematically, a finite map from process ids to records.

use crate::applet::interface::{Applet, AppletRequest};
use crate::applet::runtime::RuntimeRequest;
use vstd::prelude::*;

verus! {

/// The number of events that may wait in one applet's channel. A subscriber
/// that falls further behind loses the oldest of them; the sender never waits.
pub const EVENT_CHANNEL_CAPACITY: usize = 100;

/// Whether no two entries have the same process id.
spec fn distinct<H>(entries: Seq<Applet<H>>) -> bool {
    forall|i: int, j: int|
        0 <= i < j < entries.len() ==> (#[trigger] entries[i]).id != (#[trigger] entries[j]).id
}

/// Whether some entry belongs to the process `pid`.
spec fn holds<H>(entries: Seq<Applet<H>>, pid: u32) -> bool {
    exists|i: int| 0 <= i < entries.len() && (#[trigger] entries[i]).id == pid
}

/// The place of the entry that belongs to the process `pid`.
spec fn place<H>(entries: Seq<Applet<H>>, pid: u32) -> int {
    choose|i: int| 0 <= i < entries.len() && (#[trigger] entries[i]).id == pid
}

/// The map that a list of entries stands for.
spec fn as_map<H>(entries: Seq<Applet<H>>) -> Map<u32, Applet<H>> {
    Map::new(|pid: u32| holds(entries, pid), |pid: u32| entries[place(entries, pid)])
}

/// Each entry of a list without doubles is the map's value at its own id.
proof fn lemma_entry<H>(entries: Seq<Applet<H>>, i: int)
    requires
        distinct(entries),
        0 <= i < entries.len(),
    ensures
        as_map(entries).contains_key(entries[i].id),
        as_map(entries)[entries[i].id] == entries[i],
        place(entries, entries[i].id) == i,
{
    let pid = entries[i].id;
    assert(holds(entries, pid));
    let j = place(entries, pid);
    assert(0 <= j < entries.len() && entries[j].id == pid);
    if j < i {
        assert(entries[j].id != entries[i].id);
    } else if i < j {
        assert(entries[i].id != entries[j].id);
    }
}

/// A new entry behind a list that does not hold its id adds one key.
proof fn lemma_push<H>(entries: Seq<Applet<H>>, applet: Applet<H>)
    requires
        distinct(entries),
        !holds(entries, applet.id),
    ensures
        distinct(entries.push(applet)),
        as_map(entries.push(applet)) == as_map(entries).insert(applet.id, applet),
{
    let longer = entries.push(applet);
    assert forall|i: int, j: int| 0 <= i < j < longer.len() implies (#[trigger] longer[i]).id != (
    #[trigger] longer[j]).id by {
        if j < entries.len() {
            assert(entries[i].id != entries[j].id);
        } else {
            assert(longer[i] == entries[i]);
            assert(entries[i].id != applet.id);
        }
    }
    let left = as_map(longer);
    let right = as_map(entries).insert(applet.id, applet);
    assert forall|pid: u32| left.contains_key(pid) <==> right.contains_key(pid) by {
        if holds(longer, pid) {
            let i = place(longer, pid);
            if i < entries.len() {
                assert(entries[i].id == pid);
            }
        }
        if holds(entries, pid) {
            let i = place(entries, pid);
            assert(longer[i].id == pid);
        }
        if pid == applet.id {
            assert(longer[entries.len() as int].id == pid);
        }
    }
    assert forall|pid: u32| left.contains_key(pid) implies left[pid] == right[pid] by {
        let i = place(longer, pid);
        lemma_entry(longer, i);
        if i < entries.len() {
            lemma_entry(entries, i);
        }
    }
    assert(left =~= right);
}

/// Taking an entry out of a list without doubles takes its key out of the map.
proof fn lemma_remove<H>(entries: Seq<Applet<H>>, i: int)
    requires
        distinct(entries),
        0 <= i < entries.len(),
    ensures
        distinct(entries.remove(i)),
        !holds(entries.remove(i), entries[i].id),
        as_map(entries.remove(i)) == as_map(entries).remove(entries[i].id),
{
    let shorter = entries.remove(i);
    let gone = entries[i].id;
    assert forall|a: int, b: int| 0 <= a < b < shorter.len() implies (#[trigger] shorter[a]).id
        != (#[trigger] shorter[b]).id by {
        let a0 = if a < i {
            a
        } else {
            a + 1
        };
        let b0 = if b < i {
            b
        } else {
            b + 1
        };
        assert(shorter[a] == entries[a0] && shorter[b] == entries[b0]);
        assert(entries[a0].id != entries[b0].id);
    }
    if holds(shorter, gone) {
        let a = place(shorter, gone);
        let a0 = if a < i {
            a
        } else {
            a + 1
        };
        assert(shorter[a] == entries[a0]);
        if a0 < i {
            assert(entries[a0].id != entries[i].id);
        } else {
            assert(entries[i].id != entries[a0].id);
        }
    }
    let left = as_map(shorter);
    let right = as_map(entries).remove(gone);
    assert forall|pid: u32| left.contains_key(pid) <==> right.contains_key(pid) by {
        if holds(shorter, pid) {
            let a = place(shorter, pid);
            let a0 = if a < i {
                a
            } else {
                a + 1
            };
            assert(shorter[a] == entries[a0]);
            assert(entries[a0].id == pid);
        }
        if pid != gone && holds(entries, pid) {
            let a0 = place(entries, pid);
            let a = if a0 < i {
                a0
            } else {
                a0 - 1
            };
            assert(shorter[a] == entries[a0]);
            assert(shorter[a].id == pid);
        }
    }
    assert forall|pid: u32| left.contains_key(pid) implies left[pid] == right[pid] by {
        let a = place(shorter, pid);
        let a0 = if a < i {
            a
        } else {
            a + 1
        };
        assert(shorter[a] == entries[a0]);
        lemma_entry(shorter, a);
        lemma_entry(entries, a0);
    }
    assert(left =~= right);
}

/// A list without doubles stands for a finite map with as many keys as the
/// list has entries.
proof fn lemma_count<H>(entries: Seq<Applet<H>>)
    requires
        distinct(entries),
    ensures
        as_map(entries).dom().finite(),
        as_map(entries).len() == entries.len(),
    decreases entries.len(),
{
    broadcast use vstd::set::group_set_axioms;
    broadcast use vstd::map::group_map_axioms;

    if entries.len() == 0 {
        assert(as_map(entries).dom() =~= Set::<u32>::empty());
    } else {
        let front = entries.drop_last();
        let last = entries.last();
        assert(distinct(front)) by {
            assert forall|i: int, j: int| 0 <= i < j < front.len() implies (#[trigger] front[i]).id
                != (#[trigger] front[j]).id by {
                assert(entries[i].id != entries[j].id);
            }
        }
        if holds(front, last.id) {
            let i = place(front, last.id);
            assert(entries[i].id != entries[entries.len() - 1].id);
        }
        lemma_count(front);
        lemma_push(front, last);
        assert(front.push(last) =~= entries);
        assert(!as_map(front).dom().contains(last.id));
    }
}

/// The applets that the host has launched, by process id.
pub struct Registry<H> {
    applets: Vec<Applet<H>>,
}

impl<H> View for Registry<H> {
    type V = Map<u32, Applet<H>>;

    closed spec fn view(&self) -> Map<u32, Applet<H>> {
        as_map(self.applets@)
    }
}

impl<H> Registry<H> {
    #[verifier::type_invariant]
    spec fn no_doubles(&self) -> bool {
        distinct(self.applets@)
    }

    /// An empty registry.
    pub fn new() -> (r: Self)
        ensures
            r@ == Map::<u32, Applet<H>>::empty(),
    {
        let r = Registry { applets: Vec::new() };
        assert(r@ =~= Map::<u32, Applet<H>>::empty());
        r
    }

    /// The number of launched applets.
    pub fn len(&self) -> (r: usize)
        ensures
            r == self@.len(),
            self@.dom().finite(),
    {
        proof {
            use_type_invariant(self);
            lemma_count(self.applets@);
        }
        self.applets.len()
    }

    /// Whether no applet is launched.
    pub fn is_empty(&self) -> (r: bool)
        ensures
            r == (self@.len() == 0),
            self@.dom().finite(),
    {
        proof {
            use_type_invariant(self);
            lemma_count(self.applets@);
        }
        self.applets.len() == 0
    }

    /// Where the entry of the process `pid` stands.
    fn find(&self, pid: u32) -> (r: Option<usize>)
        ensures
            r is Some <==> holds(self.applets@, pid),
            r matches Some(i) ==> i < self.applets@.len() && self.applets@[i as int].id == pid,
    {
        let mut i: usize = 0;
        while i < self.applets.len()
            invariant
                i <= self.applets@.len(),
                forall|k: int| 0 <= k < i ==> (#[trigger] self.applets@[k]).id != pid,
            decreases self.applets@.len() - i,
        {
            if self.applets[i].id == pid {
                return Some(i);
            }
            i += 1;
        }
        None
    }

    /// Takes the entries out, to work on them.
    fn take(&mut self) -> (entries: Vec<Applet<H>>)
        ensures
            entries@ == old(self).applets@,
            distinct(entries@),
    {
        proof {
            use_type_invariant(&*self);
        }
        let mut entries: Vec<Applet<H>> = Vec::new();
        std::mem::swap(&mut self.applets, &mut entries);
        entries
    }

    /// Puts entries back.
    fn put(&mut self, entries: Vec<Applet<H>>)
        requires
            distinct(entries@),
        ensures
            final(self).applets@ == entries@,
    {
        let mut entries = entries;
        std::mem::swap(&mut self.applets, &mut entries);
    }

    /// Whether the process `pid` is a launched applet.
    pub fn contains(&self, pid: u32) -> (r: bool)
        ensures
            r == self@.contains_key(pid),
    {
        self.find(pid).is_some()
    }

    /// The record of the process `pid`, or `None` where the process is no
    /// launched applet.
    pub fn lookup(&self, pid: u32) -> (r: Option<&Applet<H>>)
        ensures
            r is Some <==> self@.contains_key(pid),
            r matches Some(applet) ==> *applet == self@[pid] && applet.id == pid,
    {
        proof {
            use_type_invariant(self);
        }
        match self.find(pid) {
            Some(i) => {
                proof {
                    lemma_entry(self.applets@, i as int);
                }
                Some(&self.applets[i])
            },
            None => None,
        }
    }

    /// Enters `applet` under its process id. An older entry under the same id
    /// belongs to a process that is gone: it is replaced and handed back.
    pub fn insert(&mut self, applet: Applet<H>) -> (r: Option<Applet<H>>)
        ensures
            final(self)@ == old(self)@.insert(applet.id, applet),
            r is Some <==> old(self)@.contains_key(applet.id),
            r matches Some(before) ==> before == old(self)@[applet.id],
    {
        proof {
            use_type_invariant(&*self);
        }
        let found = self.find(applet.id);
        let mut entries = self.take();
        let ghost before = entries@;
        let gone = match found {
            Some(i) => {
                proof {
                    lemma_entry(before, i as int);
                    lemma_remove(before, i as int);
                }
                Some(entries.remove(i))
            },
            None => None,
        };
        proof {
            lemma_push(entries@, applet);
            assert(as_map(before).remove(applet.id).insert(applet.id, applet) =~= as_map(
                before,
            ).insert(applet.id, applet));
        }
        entries.push(applet);
        self.put(entries);
        gone
    }

    /// Removes the entry of the process `pid` and hands it back. The process
    /// itself is not touched: it lives as long as the hold on it that the
    /// entry carries.
    pub fn close(&mut self, pid: u32) -> (r: Option<Applet<H>>)
        ensures
            final(self)@ == old(self)@.remove(pid),
            r is Some <==> old(self)@.contains_key(pid),
            r matches Some(before) ==> before == old(self)@[pid] && before.id == pid,
    {
        proof {
            use_type_invariant(&*self);
        }
        match self.find(pid) {
            Some(i) => {
                let mut entries = self.take();
                proof {
                    lemma_entry(entries@, i as int);
                    lemma_remove(entries@, i as int);
                }
                let gone = entries.remove(i);
                self.put(entries);
                Some(gone)
            },
            None => {
                assert(self@.remove(pid) =~= self@);
                None
            },
        }
    }

    /// Books the outcome of a launch. `child` is what starting the process
    /// gave: its process id and what the host keeps for it, or `None` where
    /// the process could not be started.
    ///
    /// A failed start leaves the registry as it was. A started applet is
    /// entered with nothing known of its layout yet, and its process id is
    /// returned for the announcement to the rest of the host.
    pub fn register(&mut self, request: RuntimeRequest, child: Option<(u32, H)>) -> (r: Option<
        u32,
    >)
        ensures
            final(self)@ == registered(old(self)@, request, child),
            r == match child {
                Some((pid, _)) => Some(pid),
                None => None,
            },
    {
        match child {
            Some((pid, handle)) => {
                match request {
                    RuntimeRequest::Launch { info, order, position } => {
                        let _ = self.insert(Applet::new(info, order, position, pid, handle));
                    },
                }
                Some(pid)
            },
            None => None,
        }
    }

    /// Notes what the applet `pid` asked for: its limits or its intrinsic
    /// size. A request of a process that is no launched applet is dropped, and
    /// `false` returned.
    pub fn apply_request(&mut self, pid: u32, request: AppletRequest) -> (r: bool)
        ensures
            r == old(self)@.contains_key(pid),
            final(self)@ == request_result(old(self)@, pid, request),
    {
        proof {
            use_type_invariant(&*self);
        }
        match self.find(pid) {
            Some(i) => {
                let mut entries = self.take();
                let ghost before = entries@;
                proof {
                    lemma_entry(before, i as int);
                    lemma_remove(before, i as int);
                }
                let mut applet = entries.remove(i);
                match request {
                    AppletRequest::Limits(limits) => {
                        applet.limits = Some(limits);
                    },
                    AppletRequest::Intrinsic(size) => {
                        applet.intrinsic = Some(size);
                    },
                }
                proof {
                    lemma_push(entries@, applet);
                    assert(as_map(before).remove(pid).insert(pid, applet) =~= as_map(before).insert(
                        pid,
                        applet,
                    ));
                }
                entries.push(applet);
                self.put(entries);
                true
            },
            None => false,
        }
    }
}

/// The registry after a launch whose process start gave `child`.
pub open spec fn registered<H>(
    registry: Map<u32, Applet<H>>,
    request: RuntimeRequest,
    child: Option<(u32, H)>,
) -> Map<u32, Applet<H>> {
    match child {
        Some((pid, handle)) => registry.insert(
            pid,
            Applet::launched(
                request->info,
                request->order,
                request->position,
                pid,
                handle,
            ),
        ),
        None => registry,
    }
}

/// A record with a request of its applet noted in it.
pub open spec fn noted<H>(applet: Applet<H>, request: AppletRequest) -> Applet<H> {
    match request {
        AppletRequest::Limits(limits) => Applet { limits: Some(limits), ..applet },
        AppletRequest::Intrinsic(size) => Applet { intrinsic: Some(size), ..applet },
    }
}

/// The registry after the applet `pid` sent `request`.
pub open spec fn request_result<H>(
    registry: Map<u32, Applet<H>>,
    pid: u32,
    request: AppletRequest,
) -> Map<u32, Applet<H>> {
    if registry.contains_key(pid) {
        registry.insert(pid, noted(registry[pid], request))
    } else {
        registry
    }
}

} // verus!
