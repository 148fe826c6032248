//! Request values: one non-blocking operation each, with the buffers it uses.
//!
//! A request is pending while its handle is not null. It leaves that state
//! through exactly one of `wait`, a `test` that finds it finished, or `cancel`.
//! All three take the request by value, so it cannot be completed twice, and
//! the buffers it borrowed are free again as soon as the call returns.

use vstd::prelude::*;
use crate::handle::Handle;
use crate::native::{
    calls_to_cancel, calls_to_test, calls_to_wait, cancel_script, test_script, wait_script,
    Completion, NativeCall, Poll,
};
use crate::status::Status;

verus! {

/// What it means to let go of a request in the state it is in.
#[derive(Clone, Copy, PartialEq, Eq, Structural, Debug)]
pub enum Disposal {
    /// The handle is null: nothing is in flight and the request may go.
    Safe,
    /// The handle is not null: the native layer may still use the borrowed
    /// buffers, and the process must not go on.
    Fatal,
}

/// What any in-flight operation offers.
///
/// An implementation says where its handle is kept; the completion operations
/// are written once, against that.
///
/// Each completion operation comes in two forms. `settle`, `complete` and
/// `advance` work in place and say in what state they leave the request.
/// `cancel`, `wait` and `test` do the same and use the request up.
pub trait Request: Sized {
    /// The handle this request holds.
    spec fn handle(&self) -> Handle;

    /// A copy of the handle.
    fn as_raw(&self) -> (raw: Handle)
        ensures
            raw == self.handle(),
    ;

    /// The place where the handle is kept, for the native layer's answer to be
    /// written to.
    fn as_raw_mut(&mut self) -> (raw: &mut Handle)
        ensures
            *raw == old(self).handle(),
            final(self).handle() == *final(raw),
    ;

    /// Returns true for a null request handle.
    fn is_null(&self) -> (null: bool)
        ensures
            null == (self.handle() is Null),
    {
        self.as_raw().is_null()
    }

    /// Says what dropping the request now would mean: it is safe exactly when
    /// the handle is null, and fatal while the operation is pending.
    fn disposal(&self) -> (verdict: Disposal)
        ensures
            verdict == (if self.handle() is Null {
                Disposal::Safe
            } else {
                Disposal::Fatal
            }),
    {
        if self.is_null() {
            Disposal::Safe
        } else {
            Disposal::Fatal
        }
    }

    /// The calls to make before `wait`: one blocking wait on this request's
    /// handle, with the status kept.
    fn wait_calls(&self) -> (calls: Vec<NativeCall>)
        ensures
            calls@ == wait_script(self.handle(), true),
    {
        calls_to_wait(self.as_raw(), true)
    }

    /// The calls to make before `test`: one non-blocking test on this
    /// request's handle.
    fn test_calls(&self) -> (calls: Vec<NativeCall>)
        ensures
            calls@ == test_script(self.handle()),
    {
        calls_to_test(self.as_raw())
    }

    /// The calls to make before `cancel`: a request to cancel, then the
    /// release of the handle.
    fn cancel_calls(&self) -> (calls: Vec<NativeCall>)
        ensures
            calls@ == cancel_script(self.handle()),
    {
        calls_to_cancel(self.as_raw())
    }

    /// Writes into the request the handle as the native layer left it.
    fn settle(&mut self, after: Handle)
        ensures
            final(self).handle() == after,
    {
        let raw = self.as_raw_mut();
        *raw = after;
    }

    /// Takes in the native layer's report of a finished wait: the request gets
    /// the handle the native layer left, which is null, and the status comes
    /// out.
    fn complete(&mut self, done: Completion) -> (status: Status)
        requires
            done.well_formed(),
        ensures
            final(self).handle() is Null,
            status == done.status,
    {
        self.settle(done.handle);
        done.status
    }

    /// Takes in the native layer's answer to one test. A pending operation
    /// leaves the request untouched and gives no status; a finished one is
    /// taken in as by `complete`.
    fn advance(&mut self, poll: Poll) -> (status: Option<Status>)
        requires
            poll.well_formed(),
        ensures
            poll is Pending ==> status is None && *final(self) == *old(self),
            poll matches Poll::Ready(done) ==> status == Some(done.status),
            poll is Ready ==> final(self).handle() is Null,
    {
        match poll {
            Poll::Pending => None,
            Poll::Ready(done) => Some(self.complete(done)),
        }
    }

    /// Wait for an operation to finish.
    ///
    /// `done` is what the native layer reported after it had blocked until the
    /// operation finished. The request is used up and the status of the
    /// finished operation is returned.
    fn wait(self, done: Completion) -> (status: Status)
        requires
            done.well_formed(),
        ensures
            status == done.status,
    {
        let mut request = self;
        request.complete(done)
    }

    /// Test whether an operation has finished.
    ///
    /// `poll` is the native layer's answer to one non-blocking test. If the
    /// operation has finished, the request is used up as by `wait` and the
    /// status is returned. If not, the request comes back exactly as it went
    /// in, to be tested again or handed to a guard.
    fn test(self, poll: Poll) -> (outcome: Result<Status, Self>)
        requires
            poll.well_formed(),
        ensures
            poll is Pending ==> outcome == Err::<Status, Self>(self),
            poll matches Poll::Ready(done) ==> outcome == Ok::<Status, Self>(done.status),
    {
        let mut request = self;
        match request.advance(poll) {
            Some(status) => Ok(status),
            None => Err(request),
        }
    }

    /// Cancel an operation.
    ///
    /// `after` is the handle as the native layer left it once it had been
    /// asked to cancel the operation and had taken the handle back. The
    /// request is used up.
    fn cancel(self, after: Handle)
        requires
            after is Null,
    {
        let mut request = self;
        request.settle(after);
    }
}

} // verus!
