//! An error queue that holds at most `CAP` errors.

use vstd::prelude::*;

use super::{Error, ErrorCode, ErrorQueue};

verus! {

/// An error queue with room for `CAP` errors.
///
/// When it is full, a new error replaces the newest one with
/// [`ErrorCode::QueueOverflow`], as SCPI-99 21.8.1 asks.
pub struct ArrayErrorQueue<const CAP: usize> {
    vec: Vec<Error>,
}

impl<const CAP: usize> ArrayErrorQueue<CAP> {
    /// The queue is within its capacity.
    pub closed spec fn wf(&self) -> bool {
        self.vec@.len() <= CAP
    }

    /// An empty queue.
    pub fn new() -> (q: Self)
        ensures
            q.errors().len() == 0,
            q.wf(),
    {
        ArrayErrorQueue { vec: Vec::new() }
    }
}

impl<const CAP: usize> Default for ArrayErrorQueue<CAP> {
    fn default() -> (q: Self)
        ensures
            q.errors().len() == 0,
            q.wf(),
    {
        Self::new()
    }
}

impl<const CAP: usize> ErrorQueue for ArrayErrorQueue<CAP> {
    closed spec fn errors(&self) -> Seq<Error> {
        self.vec@
    }

    /// Appends the error while there is room. In a full queue the newest
    /// error is replaced with [`ErrorCode::QueueOverflow`]; a queue without
    /// room for any error stays empty.
    fn push_back_error(&mut self, err: Error)
        ensures
            old(self).errors().len() < CAP ==> final(self).errors() == old(self).errors().push(err),
            old(self).errors().len() >= CAP && old(self).errors().len() > 0 ==> final(self).errors()
                == old(self).errors().drop_last().push(Error(ErrorCode::QueueOverflow, None)),
            old(self).errors().len() == 0 && CAP == 0 ==> final(self).errors() == old(self).errors(),
            old(self).wf() ==> final(self).wf(),
    {
        if self.vec.len() < CAP {
            self.vec.push(err);
        } else if self.vec.len() > 0 {
            self.vec.pop();
            self.vec.push(Error(ErrorCode::QueueOverflow, None));
        }
    }

    fn pop_front_error(&mut self) -> (err: Error)
        ensures
            old(self).wf() ==> final(self).wf(),
    {
        if self.vec.len() == 0 {
            Error(ErrorCode::NoError, None)
        } else {
            self.vec.remove(0)
        }
    }

    fn len(&self) -> (n: usize) {
        self.vec.len()
    }

    fn clear(&mut self)
        ensures
            final(self).wf(),
    {
        self.vec.clear();
    }
}

} // verus!
