//! The bounded LIFO container: an unsynchronized stack with a fixed
//! maximum capacity whose operations report `StackError` instead of
//! blocking when the capacity bound or emptiness prevents them.

use vstd::prelude::*;

verus! {

/// The two recoverable failures of the non-blocking operations:
/// a pop from an empty stack, and a push onto a full one.
#[derive(Debug, Clone, Copy, PartialEq, Eq, Structural)]
pub enum StackError {
    StackEmpty,
    StackFull,
}

/// A LIFO container holding at most `max_size` elements.
///
/// The abstract state is the sequence of elements from bottom to top
/// (`self@`) together with the fixed capacity (`self.capacity()`).
pub struct Stack<T> {
    contents: Vec<T>,
    max_size: usize,
}

impl<T> View for Stack<T> {
    type V = Seq<T>;

    /// The elements currently held, bottom first, top last.
    closed spec fn view(&self) -> Seq<T> {
        self.contents@
    }
}

impl<T> Stack<T> {
    /// The fixed capacity chosen at construction.
    pub closed spec fn capacity(&self) -> nat {
        self.max_size as nat
    }

    /// The capacity invariant: the stack never holds more than
    /// `capacity()` elements.
    pub open spec fn wf(&self) -> bool {
        self@.len() <= self.capacity()
    }

    /// Creates an empty stack with the given capacity. A capacity of 0
    /// is legal and yields a stack that is always both empty and full.
    pub fn new(max_size: usize) -> (s: Self)
        ensures
            s@ == Seq::<T>::empty(),
            s.capacity() == max_size,
            s.wf(),
    {
        Stack { contents: Vec::new(), max_size }
    }

    /// Appends `item` on top if there is room; otherwise fails with
    /// `StackFull` and leaves the stack unchanged.
    pub fn push(&mut self, item: T) -> (r: Result<(), StackError>)
        requires
            old(self).wf(),
        ensures
            final(self).capacity() == old(self).capacity(),
            final(self).wf(),
            old(self)@.len() < old(self).capacity() ==> r == Ok::<(), StackError>(())
                && final(self)@ == old(self)@.push(item),
            old(self)@.len() >= old(self).capacity() ==> r == Err::<(), StackError>(
                StackError::StackFull,
            ) && final(self)@ == old(self)@,
    {
        if self.contents.len() < self.max_size {
            self.contents.push(item);
            Ok(())
        } else {
            Err(StackError::StackFull)
        }
    }

    /// Removes and returns the most recently pushed element still
    /// present; fails with `StackEmpty` and leaves the stack unchanged
    /// if there is none.
    pub fn pop(&mut self) -> (r: Result<T, StackError>)
        requires
            old(self).wf(),
        ensures
            final(self).capacity() == old(self).capacity(),
            final(self).wf(),
            old(self)@.len() > 0 ==> r == Ok::<T, StackError>(old(self)@.last())
                && final(self)@ == old(self)@.drop_last(),
            old(self)@.len() == 0 ==> r == Err::<T, StackError>(StackError::StackEmpty)
                && final(self)@ == old(self)@,
    {
        match self.contents.pop() {
            Some(v) => Ok(v),
            None => Err(StackError::StackEmpty),
        }
    }

    /// The number of elements currently held.
    pub fn size(&self) -> (r: usize)
        ensures
            r == self@.len(),
    {
        self.contents.len()
    }

    /// Whether the stack currently holds no element.
    pub fn is_empty(&self) -> (r: bool)
        ensures
            r == (self@.len() == 0),
    {
        self.size() == 0
    }

    /// Whether the stack is at capacity, so that a push would fail.
    pub fn is_full(&self) -> (r: bool)
        ensures
            r == (self@.len() >= self.capacity()),
    {
        self.contents.len() >= self.max_size
    }

    /// Removes all elements unconditionally; the capacity is kept.
    pub fn clear(&mut self)
        ensures
            final(self)@ == Seq::<T>::empty(),
            final(self).capacity() == old(self).capacity(),
            final(self).wf(),
    {
        self.contents.clear()
    }
}

} // verus!
