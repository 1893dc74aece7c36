//! The handle table: integer handles that stand for objects and in-flight
//! operations on the native side of the boundary.
//!
//! Handles come from a counter that only grows. A handle is never issued
//! twice, so a released handle stays unknown for good, and the handle 0 is
//! never issued: it is free to signal a failure.

use vstd::prelude::*;
use std::collections::HashMap;

verus! {

broadcast use vstd::std_specs::hash::group_hash_axioms;

/// Why an operation on a handle table failed.
#[derive(Debug, Clone, Copy, PartialEq, Eq, Structural)]
pub enum HandleError {
    /// The handle is not live: native code presented a handle that it was
    /// never given, or one that was released.
    UnknownHandle,
    /// The counter of handles is used up.
    Exhausted,
}

/// A table from handles to values.
pub struct HandleMap<T> {
    entries: HashMap<u64, T>,
    next: u64,
}

impl<T> View for HandleMap<T> {
    type V = Map<u64, T>;

    closed spec fn view(&self) -> Map<u64, T> {
        self.entries@
    }
}

impl<T> HandleMap<T> {
    /// The handle that the next insertion issues.
    pub closed spec fn next_handle(&self) -> u64 {
        self.next
    }

    /// Every live handle was issued by the counter, and 0 never is.
    pub open spec fn wf(&self) -> bool {
        &&& self.next_handle() >= 1
        &&& forall|h: u64| #[trigger] self@.contains_key(h) ==> 1 <= h < self.next_handle()
    }

    /// The empty table.
    pub fn new() -> (table: Self)
        ensures
            table.wf(),
            table@ == Map::<u64, T>::empty(),
            table.next_handle() == 1,
    {
        HandleMap { entries: HashMap::new(), next: 1 }
    }

    /// Registers `value` under a fresh handle: one that is not live and was
    /// never issued before. Fails only when the counter is used up.
    pub fn insert(&mut self, value: T) -> (r: Result<u64, HandleError>)
        requires
            old(self).wf(),
        ensures
            final(self).wf(),
            r is Ok <==> old(self).next_handle() < u64::MAX,
            r matches Ok(h) ==> h == old(self).next_handle() && h != 0 && !old(self)@.contains_key(
                h,
            ) && final(self)@ == old(self)@.insert(h, value) && final(self).next_handle() == h + 1,
            r matches Err(e) ==> e == HandleError::Exhausted && final(self)@ == old(self)@
                && final(self).next_handle() == old(self).next_handle(),
    {
        if self.next == u64::MAX {
            return Err(HandleError::Exhausted);
        }
        let handle = self.next;
        self.entries.insert(handle, value);
        self.next = handle + 1;
        proof {
            assert forall|h: u64| #[trigger] self@.contains_key(h) implies 1 <= h
                < self.next_handle() by {
                if h != handle {
                    assert(old(self)@.contains_key(h));
                }
            }
        }
        Ok(handle)
    }

    /// True when `handle` is live.
    pub fn contains(&self, handle: u64) -> (live: bool)
        ensures
            live == self@.contains_key(handle),
    {
        self.entries.contains_key(&handle)
    }

    /// The value behind `handle`. An unknown handle is an error of that
    /// call.
    pub fn get(&self, handle: u64) -> (r: Result<&T, HandleError>)
        ensures
            r is Ok <==> self@.contains_key(handle),
            r matches Ok(v) ==> *v == self@[handle],
            r matches Err(e) ==> e == HandleError::UnknownHandle,
    {
        match self.entries.get(&handle) {
            Some(v) => Ok(v),
            None => Err(HandleError::UnknownHandle),
        }
    }

    /// Releases `handle` and hands its value out. Releasing a handle that is
    /// not live changes nothing.
    pub fn remove(&mut self, handle: u64) -> (removed: Option<T>)
        requires
            old(self).wf(),
        ensures
            final(self).wf(),
            final(self)@ == old(self)@.remove(handle),
            final(self).next_handle() == old(self).next_handle(),
            removed is Some <==> old(self)@.contains_key(handle),
            removed matches Some(v) ==> v == old(self)@[handle],
    {
        let removed = self.entries.remove(&handle);
        proof {
            assert forall|h: u64| #[trigger] self@.contains_key(h) implies 1 <= h
                < self.next_handle() by {
                assert(old(self)@.contains_key(h));
            }
        }
        removed
    }

    /// Number of live handles.
    pub fn len(&self) -> (n: usize)
        ensures
            n == self@.len(),
    {
        self.entries.len()
    }
}

/// What was inserted is found under its handle, and nothing else moved.
pub proof fn lemma_get_after_insert<T>(table: Map<u64, T>, h: u64, value: T, other: u64)
    requires
        !table.contains_key(h),
    ensures
        table.insert(h, value)[h] == value,
        other != h ==> (table.insert(h, value).contains_key(other) <==> table.contains_key(other)),
        table.insert(h, value).remove(h) == table,
{
    assert(table.insert(h, value).remove(h) =~= table);
}

/// Releasing a handle twice is the same as releasing it once.
pub proof fn lemma_remove_idempotent<T>(table: Map<u64, T>, h: u64)
    ensures
        table.remove(h).remove(h) == table.remove(h),
        !table.remove(h).contains_key(h),
{
    assert(table.remove(h).remove(h) =~= table.remove(h));
}

} // verus!
