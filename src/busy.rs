use vstd::prelude::*;
use crate::installworker::InstallAsyncHandlerMsg;
use crate::work::{InstallType, PkgMsg, WorkPkg};

verus! {

/// A busy entry: the package's name and the profile it belongs to.
pub type BusyKey = (Seq<char>, InstallType);

/// The entry that marks `w` as busy: a user package goes by its profile name,
/// a system package by its attribute name.
pub open spec fn busy_key(w: WorkPkg) -> BusyKey {
    if w.pkgtype == InstallType::User {
        (w.pname@, w.pkgtype)
    } else {
        (w.pkg@, w.pkgtype)
    }
}

/// What the dispatcher refreshes after an outcome.
#[derive(Clone, Copy, Debug, PartialEq, Eq, Structural)]
pub enum Refresh {
    /// The installed-package inventory.
    Inventory,
    /// The installed-package inventory and the icon cache.
    InventoryAndIcons,
}

/// The packages with an operation in flight, each with its profile.
///
/// An entry is added when work is dispatched and removed when its outcome is
/// observed. A second request for a busy package is refused, so that no entry
/// is ever held twice.
#[derive(Debug)]
pub struct BusySet {
    entries: Vec<(String, InstallType)>,
}

impl BusySet {
    /// The entries in the order they were added.
    pub closed spec fn keys(&self) -> Seq<BusyKey> {
        self.entries@.map_values(|e: (String, InstallType)| (e.0@, e.1))
    }

    /// No entry is held twice.
    pub open spec fn wf(&self) -> bool {
        self.keys().no_duplicates()
    }
}

impl View for BusySet {
    type V = Set<BusyKey>;

    open spec fn view(&self) -> Set<BusyKey> {
        self.keys().to_set()
    }
}

fn key_name(work: &WorkPkg) -> (r: &String)
    ensures
        (r@, work.pkgtype) == busy_key(*work),
{
    match work.pkgtype {
        InstallType::User => &work.pname,
        InstallType::System => &work.pkg,
    }
}

impl BusySet {
    /// An empty set.
    pub fn new() -> (r: BusySet)
        ensures
            r.wf(),
            r@ == Set::<BusyKey>::empty(),
    {
        let r = BusySet { entries: Vec::new() };
        assert(r.keys() =~= Seq::<BusyKey>::empty());
        r
    }

    fn position(&self, name: &String, pkgtype: InstallType) -> (r: Option<usize>)
        ensures
            match r {
                Some(i) => i < self.keys().len() && self.keys()[i as int] == (name@, pkgtype),
                None => !self.keys().contains((name@, pkgtype)),
            },
    {
        let mut i: usize = 0;
        while i < self.entries.len()
            invariant
                i <= self.entries.len(),
                forall|j: int| 0 <= j < i ==> self.keys()[j] != (name@, pkgtype),
            decreases self.entries.len() - i,
        {
            let e = &self.entries[i];
            if e.0 == *name && e.1 == pkgtype {
                return Some(i);
            }
            i = i + 1;
        }
        None
    }

    /// Whether the package `name` of profile `pkgtype` is busy.
    pub fn contains(&self, name: &String, pkgtype: InstallType) -> (r: bool)
        ensures
            r == self@.contains((name@, pkgtype)),
    {
        self.position(name, pkgtype).is_some()
    }

    /// Marks `work` busy and hands it on to the supervisor, unless its package
    /// is busy already: then the request is refused and the set is unchanged.
    pub fn add_to_work_queue(&mut self, work: WorkPkg) -> (r: Option<InstallAsyncHandlerMsg>)
        requires
            old(self).wf(),
        ensures
            final(self).wf(),
            old(self)@.contains(busy_key(work)) ==> r is None && final(self)@ == old(self)@,
            !old(self)@.contains(busy_key(work)) ==> r == Some(InstallAsyncHandlerMsg::Process(work))
                && final(self)@ == old(self)@.insert(busy_key(work)),
    {
        let found = self.position(key_name(&work), work.pkgtype);
        if found.is_some() {
            return None;
        }
        let name = key_name(&work).clone();
        let ghost before = self.keys();
        self.entries.push((name, work.pkgtype));
        assert(self.keys() =~= before.push(busy_key(work)));
        assert(self@ =~= old(self)@.insert(busy_key(work))) by {
            assert forall|k: BusyKey| self.keys().contains(k) <==> (before.contains(k) || k == busy_key(work)) by {
                if self.keys().contains(k) {
                    let j = choose|j: int| 0 <= j < self.keys().len() && self.keys()[j] == k;
                    if j < before.len() {
                        assert(before[j] == k);
                    }
                }
                if before.contains(k) {
                    let j = choose|j: int| 0 <= j < before.len() && before[j] == k;
                    assert(self.keys()[j] == k);
                }
                if k == busy_key(work) {
                    assert(self.keys()[before.len() as int] == k);
                }
            }
        }
        Some(InstallAsyncHandlerMsg::Process(work))
    }

    /// Removes the entry of `work`; says whether there was one.
    pub fn remove_busy(&mut self, work: &WorkPkg) -> (r: bool)
        requires
            old(self).wf(),
        ensures
            final(self).wf(),
            r == old(self)@.contains(busy_key(*work)),
            final(self)@ == old(self)@.remove(busy_key(*work)),
    {
        match self.position(key_name(work), work.pkgtype) {
            None => {
                assert(self@ =~= old(self)@.remove(busy_key(*work)));
                false
            },
            Some(i) => {
                let ghost before = self.keys();
                self.entries.remove(i);
                assert(self.keys() =~= before.remove(i as int));
                assert(self@ =~= old(self)@.remove(busy_key(*work))) by {
                    assert forall|k: BusyKey| self.keys().contains(k) <==> (before.contains(k) && k != busy_key(*work)) by {
                        if self.keys().contains(k) {
                            let j = choose|j: int| 0 <= j < self.keys().len() && self.keys()[j] == k;
                            if j < i {
                                assert(before[j] == k);
                            } else {
                                assert(before[j + 1] == k);
                            }
                        }
                        if before.contains(k) && k != busy_key(*work) {
                            let j = choose|j: int| 0 <= j < before.len() && before[j] == k;
                            if j < i {
                                assert(self.keys()[j] == k);
                            } else {
                                assert(self.keys()[j - 1] == k);
                            }
                        }
                    }
                }
                true
            },
        }
    }

    /// Reconciles the set with an outcome: the entry of its work item goes, and
    /// the inventory is refreshed, together with the icon cache after a success.
    pub fn reconcile(&mut self, outcome: &PkgMsg) -> (r: Refresh)
        requires
            old(self).wf(),
        ensures
            final(self).wf(),
            final(self)@ == old(self)@.remove(busy_key(outcome.spec_work())),
            r == (if outcome is FinishedProcess {
                Refresh::InventoryAndIcons
            } else {
                Refresh::Inventory
            }),
    {
        self.remove_busy(outcome.work());
        match outcome {
            PkgMsg::FinishedProcess(_) => Refresh::InventoryAndIcons,
            PkgMsg::FailedProcess(_) => Refresh::Inventory,
        }
    }
}

} // verus!
