use std::sync::Arc;
use vstd::prelude::*;
use vstd::rwlock::{RwLock, RwLockPredicate, WriteHandle};

verus! {

/// The lock predicate of a shared cell: every value may be stored.
pub struct AnyValue;

impl<V> RwLockPredicate<V> for AnyValue {
    open spec fn inv(self, v: V) -> bool {
        true
    }
}

/// A value shared between handles and threads behind one lock. Cloning a
/// cell clones the handle: both handles reach the same lock and value.
pub struct SharedCell<T> {
    pub(crate) lock: Arc<RwLock<T, AnyValue>>,
}

impl<T> SharedCell<T> {
    pub fn new(value: T) -> (s: Self) {
        SharedCell { lock: Arc::new(RwLock::new(value, Ghost(AnyValue))) }
    }

    /// Takes the value out and holds the lock until `release` hands a value back.
    pub(crate) fn acquire(&self) -> (r: (T, WriteHandle<'_, T, AnyValue>))
        ensures
            r.1.rwlock() == *self.lock,
    {
        self.lock.acquire_write()
    }

    /// Stores `value` and lets go of the lock taken by `acquire`.
    pub(crate) fn release(&self, value: T, handle: WriteHandle<'_, T, AnyValue>)
        requires
            handle.rwlock() == *self.lock,
    {
        handle.release_write(value);
    }

    /// Replaces the stored value.
    pub fn set(&self, value: T) {
        let (_old, handle) = self.acquire();
        self.release(value, handle);
    }
}

impl<T: Clone> SharedCell<T> {
    /// A copy of the stored value.
    pub fn get(&self) -> T {
        let (value, handle) = self.acquire();
        let copy = value.clone();
        self.release(value, handle);
        copy
    }
}

impl<T> SharedCell<Vec<T>> {
    /// The number of elements stored.
    pub fn len(&self) -> usize {
        let (items, handle) = self.acquire();
        let n = items.len();
        self.release(items, handle);
        n
    }

    /// Appends `value` to the stored elements.
    pub fn push(&self, value: T) {
        let (mut items, handle) = self.acquire();
        items.push(value);
        self.release(items, handle);
    }
}

impl<T> Clone for SharedCell<T> {
    fn clone(&self) -> (r: Self)
        ensures
            r == *self,
    {
        SharedCell { lock: self.lock.clone() }
    }
}

} // verus!
