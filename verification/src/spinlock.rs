//! A spin lock for data shared between harts.
//!
//! Acquiring the lock is a wait on the other harts: it loops until an
//! atomic exchange succeeds.  That wait cannot be shown to end, so it is
//! left to the caller, which repeats [`RawSpinLock::try_acquire`]; what one
//! attempt does, and everything around the protected data, is here.
use vstd::prelude::*;
use core::sync::atomic::{AtomicBool, Ordering};

verus! {

/// Failure of a lock operation.
#[derive(Debug, Clone, Copy, PartialEq, Eq, Structural)]
pub enum Error {
    Undefined,
}

/// A lock flag shared between harts: `true` while held.
pub struct RawSpinLock {
    inner: AtomicBool,
}

impl RawSpinLock {
    /// A lock that nobody holds.
    pub fn new() -> Self {
        RawSpinLock { inner: AtomicBool::new(false) }
    }

    /// One attempt to take the lock: succeeds exactly when the flag was
    /// clear and this call set it.  Other harts change the flag at any
    /// time, so either answer can come back.
    pub fn try_acquire(&self) -> bool {
        let r = self.inner.compare_exchange(false, true, Ordering::Acquire, Ordering::Relaxed);
        r.is_ok()
    }

    /// Sets the flag and reports whether it was clear before, that is,
    /// whether this call took the lock.
    pub fn try_lock(&self) -> bool {
        let was_held = self.inner.swap(true, Ordering::Acquire);
        !was_held
    }

    /// Clears the flag, releasing the lock.
    pub fn unlock(&self) {
        self.inner.store(false, Ordering::Release);
    }
}

/// Data guarded by a spin lock.
pub struct SpinLock<T> {
    lock: RawSpinLock,
    data: T,
}

impl<T> View for SpinLock<T> {
    type V = T;

    closed spec fn view(&self) -> T {
        self.data
    }
}

impl<T> SpinLock<T> {
    /// Creates a new spin lock wrapping the supplied data.
    pub fn new(data: T) -> (s: Self)
        ensures
            s@ == data,
    {
        SpinLock { lock: RawSpinLock::new(), data }
    }

    /// Consumes this spin lock, returning the underlying data.
    pub fn into_inner(self) -> (data: T)
        ensures
            data == self@,
    {
        self.data
    }

    /// The guarded data, read without taking the lock.
    pub fn get(&self) -> (data: &T)
        ensures
            *data == self@,
    {
        &self.data
    }

    /// The guarded data, through exclusive access to the lock itself.
    pub fn get_mut(&mut self) -> (data: &mut T)
        ensures
            *data == old(self)@,
            final(self)@ == *final(data),
    {
        &mut self.data
    }

    /// Takes the lock if it is free.  A guard gives access to the data until
    /// it is released.
    pub fn try_lock(&self) -> (r: Result<SpinLockGuard<'_, T>, Error>)
        ensures
            r matches Ok(g) ==> g@ == self@,
            r matches Err(e) ==> e == Error::Undefined,
    {
        if self.lock.try_lock() {
            Ok(SpinLockGuard { lock: self })
        } else {
            Err(Error::Undefined)
        }
    }
}

/// Access to the data of a held spin lock.
pub struct SpinLockGuard<'a, T> {
    lock: &'a SpinLock<T>,
}

impl<'a, T> View for SpinLockGuard<'a, T> {
    type V = T;

    closed spec fn view(&self) -> T {
        self.lock@
    }
}

impl<'a, T> SpinLockGuard<'a, T> {
    /// The guarded data.
    pub fn get(&self) -> (data: &T)
        ensures
            *data == self@,
    {
        &self.lock.data
    }

    /// Gives the lock back.
    pub fn release(self) {
        self.lock.lock.unlock();
    }
}

} // verus!
