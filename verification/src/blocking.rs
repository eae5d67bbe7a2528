//! The synchronization wrapper: a bounded `Stack` guarded by a
//! verified reader-writer lock. The lock's invariant pins the capacity
//! bound for every value that can ever be stored in the lock, so the
//! capacity invariant is machine-checked for every interleaving of
//! concurrent callers.
//!
//! Suspension itself — parking a thread until the guard condition
//! changes — is thread scheduling, which the verifier does not model.
//! The verified step is a single atomic check-then-act under the lock
//! (`try_push`, `try_pop`); an embedding program blocks by repeating
//! the step until it succeeds, which re-checks the guard condition
//! under the lock on every attempt.

use vstd::prelude::*;
use vstd::rwlock::RwLock;
use vstd::rwlock::RwLockPredicate;

use crate::stack::Stack;

verus! {

/// The lock invariant of a `BlockingStack`: every stack stored in the
/// lock satisfies the capacity invariant for this fixed capacity.
pub struct CapacityBound {
    pub cap: nat,
}

impl<T> RwLockPredicate<Stack<T>> for CapacityBound {
    open spec fn inv(self, s: Stack<T>) -> bool {
        s.wf() && s.capacity() == self.cap
    }
}

/// A bounded stack shared among threads. All access to the inner
/// `Stack` goes through a verified reader-writer lock, so every
/// check-then-act sequence is atomic with respect to other callers,
/// and every value ever stored satisfies the capacity invariant.
pub struct BlockingStack<T> {
    max_size: usize,
    inner: RwLock<Stack<T>, CapacityBound>,
}

impl<T> BlockingStack<T> {
    /// The fixed capacity chosen at construction.
    pub closed spec fn capacity(&self) -> nat {
        self.max_size as nat
    }

    /// Well-formedness: the lock's invariant is exactly the capacity
    /// bound of this stack. Established by `new` and kept forever,
    /// since neither field is ever reassigned.
    pub closed spec fn wf(&self) -> bool {
        self.inner.pred() == (CapacityBound { cap: self.max_size as nat })
    }

    /// Constructs an empty, capacity-bounded shared stack.
    pub fn new(max_size: usize) -> (s: Self)
        ensures
            s.wf(),
            s.capacity() == max_size,
    {
        let stack = Stack::new(max_size);
        let inner = RwLock::new(stack, Ghost(CapacityBound { cap: max_size as nat }));
        BlockingStack { max_size, inner }
    }

    /// One atomic push attempt: acquires the lock, re-checks the guard
    /// condition, and inserts only if there is room. Returns the item
    /// back when the stack was full at the decision point, so no value
    /// is ever lost. Once the guard condition has been checked true
    /// under the lock, the insertion provably cannot fail.
    pub fn try_push(&self, item: T) -> (r: Option<T>)
        requires
            self.wf(),
        ensures
            r matches Some(v) ==> v == item,
            self.capacity() == 0 ==> r == Some(item),
    {
        let (mut stack, handle) = self.inner.acquire_write();
        if !stack.is_full() {
            let inserted = stack.push(item);
            proof {
                assert(inserted is Ok);
            }
            handle.release_write(stack);
            None
        } else {
            handle.release_write(stack);
            Some(item)
        }
    }

    /// One atomic pop attempt: acquires the lock, re-checks the guard
    /// condition, and removes the top element only if one is present.
    /// Returns `None` when the stack was empty at the decision point.
    /// Once the guard condition has been checked true under the lock,
    /// the removal provably cannot fail.
    pub fn try_pop(&self) -> (r: Option<T>)
        requires
            self.wf(),
        ensures
            self.capacity() == 0 ==> r is None,
    {
        let (mut stack, handle) = self.inner.acquire_write();
        if !stack.is_empty() {
            let popped = stack.pop();
            proof {
                assert(popped is Ok);
            }
            handle.release_write(stack);
            match popped {
                Ok(v) => Some(v),
                Err(_) => None,
            }
        } else {
            handle.release_write(stack);
            None
        }
    }

    /// A snapshot of the current element count, taken under the lock.
    /// It is provably within the capacity, but immediately stale in
    /// the presence of concurrent mutators: never use it as a basis
    /// for a subsequent unlocked decision.
    pub fn size(&self) -> (r: usize)
        requires
            self.wf(),
        ensures
            r <= self.capacity(),
    {
        let read_handle = self.inner.acquire_read();
        let n = read_handle.borrow().size();
        read_handle.release_read();
        n
    }

    /// A snapshot of emptiness, with the same staleness caveat as
    /// `size`. A stack of capacity 0 is provably always empty.
    pub fn is_empty(&self) -> (r: bool)
        requires
            self.wf(),
        ensures
            self.capacity() == 0 ==> r,
    {
        self.size() == 0
    }

    /// Empties the inner stack under the lock; the capacity is kept.
    /// Never suspends and has no failure mode: clearing an already
    /// empty stack leaves it empty. Because a waiting caller re-checks
    /// its guard condition under the lock on every attempt, the
    /// capacity freed by a clear is observed by the next push attempt
    /// without any separate notification.
    pub fn clear(&self)
        requires
            self.wf(),
    {
        let (mut stack, handle) = self.inner.acquire_write();
        stack.clear();
        handle.release_write(stack);
    }
}

} // verus!
