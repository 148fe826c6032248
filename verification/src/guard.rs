//! Guards: a request together with a fixed way of ending it.
//!
//! A guard takes a pending request off its holder's hands. When the guard is
//! torn down it ends the request by its own policy, waiting for it or
//! cancelling it, so that leaving a scope never leaves an operation in flight.
//! A guard whose slot is empty does nothing.

use vstd::prelude::*;
use crate::handle::Handle;
use crate::native::{calls_to_cancel, calls_to_wait, cancel_script, wait_script, NativeCall};
use crate::request::Request;

verus! {

/// Guard object that waits for the completion of an operation when it is torn
/// down. The status of the operation is not asked for.
#[derive(Debug)]
pub struct WaitGuard<Req: Request>(Option<Req>);

impl<Req: Request> WaitGuard<Req> {
    /// The request the guard holds, if it still holds one.
    pub closed spec fn slot(&self) -> Option<Req> {
        self.0
    }

    /// The calls to make before `teardown`: one blocking wait on the held
    /// request's handle, with the status left out. None if the slot is empty.
    pub fn teardown_calls(&self) -> (calls: Vec<NativeCall>)
        ensures
            calls@ == (match self.slot() {
                Some(request) => wait_script(request.handle(), false),
                None => Seq::<NativeCall>::empty(),
            }),
    {
        match &self.0 {
            Some(request) => calls_to_wait(request.as_raw(), false),
            None => Vec::new(),
        }
    }

    /// Ends the held request and empties the slot.
    ///
    /// `after` is the handle as the calls of `teardown_calls` left it. The
    /// request that was held comes back with that handle in it, no longer
    /// pending; nothing is left to be done with it. On an empty slot nothing
    /// happens, whatever `after` is.
    pub fn teardown(&mut self, after: Handle) -> (spent: Option<Req>)
        requires
            old(self).slot() is Some ==> after is Null,
        ensures
            final(self).slot() is None,
            spent is Some <==> old(self).slot() is Some,
            spent matches Some(request) ==> request.handle() == after && request.handle() is Null,
    {
        match self.0.take() {
            Some(mut request) => {
                request.settle(after);
                Some(request)
            },
            None => None,
        }
    }
}

impl<Req: Request> vstd::std_specs::convert::FromSpecImpl<Req> for WaitGuard<Req> {
    open spec fn obeys_from_spec() -> bool {
        true
    }

    closed spec fn from_spec(req: Req) -> Self {
        WaitGuard(Some(req))
    }
}

impl<Req: Request> From<Req> for WaitGuard<Req> {
    /// Puts the request under the guard.
    fn from(req: Req) -> (guard: WaitGuard<Req>)
        ensures
            guard.slot() == Some(req),
    {
        WaitGuard(Some(req))
    }
}

/// Guard object that cancels an operation when it is torn down.
#[derive(Debug)]
pub struct CancelGuard<Req: Request>(Option<Req>);

impl<Req: Request> CancelGuard<Req> {
    /// The request the guard holds, if it still holds one.
    pub closed spec fn slot(&self) -> Option<Req> {
        self.0
    }

    /// The calls to make before `teardown`: a request to cancel the held
    /// request's operation, then the release of its handle. None if the slot
    /// is empty.
    pub fn teardown_calls(&self) -> (calls: Vec<NativeCall>)
        ensures
            calls@ == (match self.slot() {
                Some(request) => cancel_script(request.handle()),
                None => Seq::<NativeCall>::empty(),
            }),
    {
        match &self.0 {
            Some(request) => calls_to_cancel(request.as_raw()),
            None => Vec::new(),
        }
    }

    /// Ends the held request and empties the slot.
    ///
    /// `after` is the handle as the calls of `teardown_calls` left it. The
    /// request that was held comes back with that handle in it, no longer
    /// pending; nothing is left to be done with it. On an empty slot nothing
    /// happens, whatever `after` is.
    pub fn teardown(&mut self, after: Handle) -> (spent: Option<Req>)
        requires
            old(self).slot() is Some ==> after is Null,
        ensures
            final(self).slot() is None,
            spent is Some <==> old(self).slot() is Some,
            spent matches Some(request) ==> request.handle() == after && request.handle() is Null,
    {
        match self.0.take() {
            Some(mut request) => {
                request.settle(after);
                Some(request)
            },
            None => None,
        }
    }
}

impl<Req: Request> vstd::std_specs::convert::FromSpecImpl<Req> for CancelGuard<Req> {
    open spec fn obeys_from_spec() -> bool {
        true
    }

    closed spec fn from_spec(req: Req) -> Self {
        CancelGuard(Some(req))
    }
}

impl<Req: Request> From<Req> for CancelGuard<Req> {
    /// Puts the request under the guard.
    fn from(req: Req) -> (guard: CancelGuard<Req>)
        ensures
            guard.slot() == Some(req),
    {
        CancelGuard(Some(req))
    }
}

} // verus!
