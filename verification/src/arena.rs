use vstd::prelude::*;

use crate::errors::PokerError;

verus! {

/// One handle table of the process-wide store: objects live under small
/// integer handles that a host frees explicitly. The handles themselves are
/// drawn by the store layer from a single counter shared by all tables, so a
/// handle is unique across the whole store and is never reused after it is
/// freed; looking up a freed or never-issued handle fails with
/// `MissingHandle`.
pub struct Arena<T> {
    slots: Vec<Option<T>>,
}

impl<T> Arena<T> {
    /// The live objects, as a map from handle to stored value.
    pub closed spec fn contents(self) -> Map<u32, T> {
        Map::new(
            |h: u32| 1 <= h && h <= self.slots@.len() && self.slots@[h - 1] is Some,
            |h: u32| self.slots@[h - 1]->0,
        )
    }

    /// The highest handle this table has ever stored under (0 when none).
    pub closed spec fn top(self) -> nat {
        self.slots@.len()
    }

    /// Every live handle lies between 1 and `top`.
    pub proof fn lemma_keys_bounded(self)
        ensures
            forall|k: u32| #[trigger] self.contents().dom().contains(k) ==> 1 <= k && k
                <= self.top(),
    {
    }

    pub fn new() -> (r: Self)
        ensures
            r.contents() == Map::<u32, T>::empty(),
            r.top() == 0,
    {
        let r = Arena { slots: Vec::new() };
        proof {
            assert(r.contents() =~= Map::<u32, T>::empty());
        }
        r
    }

    /// Stores a value under the handle `h` the store layer allocated, which
    /// must lie above every handle this table has stored under — the store's
    /// shared counter guarantees that, and thereby uniqueness across tables.
    pub fn insert(&mut self, h: u32, t: T)
        requires
            old(self).top() < h,
        ensures
            final(self).contents() == old(self).contents().insert(h, t),
            final(self).top() == h,
    {
        let target: usize = (h - 1) as usize;
        while self.slots.len() < target
            invariant
                old(self).slots@.len() <= self.slots@.len() <= target,
                target == h - 1,
                forall|i: int| 0 <= i < old(self).slots@.len() ==> self.slots@[i] == old(
                    self,
                ).slots@[i],
                forall|i: int|
                    old(self).slots@.len() <= i < self.slots@.len() ==> self.slots@[i] is None,
            decreases target - self.slots@.len(),
        {
            self.slots.push(None);
        }
        self.slots.push(Some(t));
        proof {
            assert(self.contents() =~= old(self).contents().insert(h, t));
        }
    }

    /// Looks a handle up, failing with `MissingHandle` for a freed or unknown
    /// one.
    pub fn get(&self, h: u32) -> (r: Result<&T, PokerError>)
        ensures
            self.contents().dom().contains(h) ==> (r matches Ok(t) && *t
                == self.contents()[h]),
            !self.contents().dom().contains(h) ==> r == Err::<&T, PokerError>(
                PokerError::MissingHandle,
            ),
    {
        if 1 <= h && (h as usize) <= self.slots.len() {
            match &self.slots[(h - 1) as usize] {
                Some(t) => Ok(t),
                None => Err(PokerError::MissingHandle),
            }
        } else {
            Err(PokerError::MissingHandle)
        }
    }

    /// Removes a handle's object, if present. The handle is not reused later:
    /// the store's counter never goes back.
    pub fn free(&mut self, h: u32)
        ensures
            final(self).contents() == old(self).contents().remove(h),
            final(self).top() == old(self).top(),
    {
        if 1 <= h && (h as usize) <= self.slots.len() {
            self.slots[(h - 1) as usize] = None;
        }
        proof {
            assert(self.contents() =~= old(self).contents().remove(h));
        }
    }
}

} // verus!
