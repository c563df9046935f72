use crate::history::{HistoryBuffer, HISTORY_CAPACITY};
use vstd::prelude::*;
use vstd::rwlock::{RwLock, RwLockPredicate};

verus! {

/// What every value held in the lock satisfies: a well-formed history of
/// the given capacity.
pub struct HistoryPred {
    pub capacity: usize,
}

impl<T: Copy> RwLockPredicate<HistoryBuffer<T>> for HistoryPred {
    open spec fn inv(self, v: HistoryBuffer<T>) -> bool {
        v.wf() && v.spec_capacity() == self.capacity
    }
}

/// A history shared by one writer and any number of readers.
///
/// Each operation takes the lock for its whole duration, so a reader sees
/// the history either before or after an append, never in between.
pub struct SharedHistory<T: Copy> {
    lock: RwLock<HistoryBuffer<T>, HistoryPred>,
    capacity: usize,
}

impl<T: Copy> SharedHistory<T> {
    #[verifier::type_invariant]
    spec fn lock_holds_capacity(self) -> bool {
        self.lock.pred() == HistoryPred { capacity: self.capacity }
    }

    pub closed spec fn spec_capacity(self) -> nat {
        self.capacity as nat
    }

    /// An empty shared history that keeps at most `capacity` samples.
    pub fn with_capacity(capacity: usize) -> (r: Self)
        ensures
            r.spec_capacity() == capacity,
    {
        let buf = HistoryBuffer::with_capacity(capacity);
        let lock = RwLock::new(buf, Ghost(HistoryPred { capacity }));
        SharedHistory { lock, capacity }
    }

    /// An empty shared history of the default capacity.
    pub fn new() -> (r: Self)
        ensures
            r.spec_capacity() == HISTORY_CAPACITY,
    {
        Self::with_capacity(HISTORY_CAPACITY)
    }

    pub fn capacity(&self) -> (r: usize)
        ensures
            r == self.spec_capacity(),
    {
        self.capacity
    }

    /// Appends one sample under the write lock.
    pub fn append(&self, sample: T) {
        proof {
            use_type_invariant(self);
        }
        let (mut buf, handle) = self.lock.acquire_write();
        buf.append(sample);
        handle.release_write(buf);
    }

    /// Appends the first channel's sample of each frame of an interleaved
    /// block, all under one write lock.
    pub fn append_frames(&self, block: &[T], channels: usize) {
        proof {
            use_type_invariant(self);
        }
        let (mut buf, handle) = self.lock.acquire_write();
        buf.append_frames(block, channels);
        handle.release_write(buf);
    }

    /// Appends each sample of `samples`, in order, all under one write lock.
    pub fn append_all(&self, samples: &[T]) {
        proof {
            use_type_invariant(self);
        }
        let (mut buf, handle) = self.lock.acquire_write();
        buf.append_all(samples);
        handle.release_write(buf);
    }

    /// A copy of the history as it stands between two writes, oldest first.
    pub fn snapshot(&self) -> (r: Vec<T>)
        ensures
            r@.len() <= self.spec_capacity(),
            exists|b: HistoryBuffer<T>|
                b.wf() && b.spec_capacity() == self.spec_capacity() && #[trigger] b@ == r@,
    {
        proof {
            use_type_invariant(self);
        }
        let handle = self.lock.acquire_read();
        let buf = handle.borrow();
        let r = buf.snapshot();
        handle.release_read();
        r
    }
}

} // verus!
