//! Bookkeeping of the node handles that are owned independently and must be
//! freed when their owner is torn down.
use vstd::prelude::*;

use crate::forest::CMarkNodePtr;

verus! {

/// The set of tracked roots of one owner of nodes.
#[derive(Debug)]
pub struct ResourceManager {
    roots: Vec<usize>,
}

impl View for ResourceManager {
    type V = Set<usize>;

    /// The indices of the tracked root handles.
    closed spec fn view(&self) -> Set<usize> {
        Set::new(|i: usize| self.roots@.contains(i))
    }
}

impl ResourceManager {
    /// Constructs a manager that tracks nothing.
    pub fn new() -> (r: ResourceManager)
        ensures
            r@ == Set::<usize>::empty(),
    {
        let r = ResourceManager { roots: Vec::new() };
        assert(r@ =~= Set::<usize>::empty());
        r
    }

    /// Tracks the given handle as a root; tracking it again changes nothing.
    pub fn track_root(&mut self, pointer: &CMarkNodePtr)
        ensures
            final(self)@ == old(self)@.insert(pointer.id),
    {
        let ghost before = self.roots@;
        if !self.is_tracking(pointer) {
            self.roots.push(pointer.id);
            assert(self.roots@[self.roots@.len() - 1] == pointer.id);
            assert forall|x: usize| self.roots@.contains(x) implies before.contains(x) || x
                == pointer.id by {
                let k = choose|k: int| 0 <= k < self.roots@.len() && self.roots@[k] == x;
                if k < before.len() {
                    assert(before[k] == x);
                }
            }
            assert forall|x: usize| before.contains(x) implies self.roots@.contains(x) by {
                let k = choose|k: int| 0 <= k < before.len() && before[k] == x;
                assert(self.roots@[k] == x);
            }
        }
        assert(self@ =~= Set::new(|i: usize| before.contains(i)).insert(pointer.id));
    }

    /// Stops tracking the given handle; a handle that is not tracked is ignored.
    pub fn untrack_root(&mut self, pointer: &CMarkNodePtr)
        ensures
            final(self)@ == old(self)@.remove(pointer.id),
    {
        let ghost before = self.roots@;
        let mut kept: Vec<usize> = Vec::new();
        let mut i: usize = 0;
        while i < self.roots.len()
            invariant
                self.roots@ == before,
                0 <= i <= before.len(),
                forall|j: int|
                    0 <= j < kept@.len() ==> kept@[j] != pointer.id && exists|k: int|
                        0 <= k < i && before[k] == kept@[j],
                forall|k: int|
                    0 <= k < i && before[k] != pointer.id ==> exists|j: int|
                        0 <= j < kept@.len() && kept@[j] == before[k],
            decreases before.len() - i,
        {
            let r = self.roots[i];
            let ghost old_kept = kept@;
            if r != pointer.id {
                kept.push(r);
            }
            proof {
                assert forall|j: int| 0 <= j < kept@.len() implies kept@[j] != pointer.id
                    && exists|k: int| 0 <= k < i + 1 && before[k] == kept@[j] by {
                    if j < old_kept.len() {
                        assert(kept@[j] == old_kept[j]);
                    } else {
                        assert(before[i as int] == kept@[j]);
                    }
                }
                assert forall|k: int| 0 <= k < i + 1 && before[k] != pointer.id implies exists|
                    j: int,
                | 0 <= j < kept@.len() && kept@[j] == before[k] by {
                    if k < i {
                        let j = choose|j: int| 0 <= j < old_kept.len() && old_kept[j] == before[k];
                        assert(kept@[j] == before[k]);
                    } else {
                        assert(kept@[kept@.len() - 1] == before[k]);
                    }
                }
            }
            i = i + 1;
        }
        self.roots = kept;
        assert forall|x: usize| self.roots@.contains(x) <==> (before.contains(x) && x
            != pointer.id) by {
            if before.contains(x) && x != pointer.id {
                let k = choose|k: int| 0 <= k < before.len() && before[k] == x;
                let j = choose|j: int| 0 <= j < self.roots@.len() && self.roots@[j] == before[k];
            }
            if self.roots@.contains(x) {
                let j = choose|j: int| 0 <= j < self.roots@.len() && self.roots@[j] == x;
                let k = choose|k: int| 0 <= k < before.len() && before[k] == self.roots@[j];
            }
        }
        assert(self@ =~= Set::new(|i: usize| before.contains(i)).remove(pointer.id));
    }

    /// Returns whether the given handle is tracked as a root.
    pub fn is_tracking(&self, pointer: &CMarkNodePtr) -> (r: bool)
        ensures
            r == self@.contains(pointer.id),
    {
        let mut i: usize = 0;
        while i < self.roots.len()
            invariant
                0 <= i <= self.roots@.len(),
                forall|k: int| 0 <= k < i ==> self.roots@[k] != pointer.id,
            decreases self.roots@.len() - i,
        {
            if self.roots[i] == pointer.id {
                return true;
            }
            i = i + 1;
        }
        false
    }

    /// Hands out the tracked handles and leaves the manager tracking nothing.
    pub fn take_roots(&mut self) -> (r: Vec<usize>)
        ensures
            final(self)@ == Set::<usize>::empty(),
            forall|i: usize| r@.contains(i) <==> old(self)@.contains(i),
    {
        let mut r: Vec<usize> = Vec::new();
        std::mem::swap(&mut r, &mut self.roots);
        assert(self@ =~= Set::<usize>::empty());
        r
    }
}

} // verus!
