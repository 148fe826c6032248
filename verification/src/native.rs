//! The boundary with the native communication layer, as plain data.
//!
//! [`NativeCall`] is what this layer asks of the native layer; [`Completion`]
//! and [`Poll`] are what comes back. A handle is passed to the native layer by
//! reference, so every reply carries the value the handle has after the call.

use vstd::prelude::*;
use crate::handle::Handle;
use crate::status::Status;

verus! {

/// One call into the native layer, on one handle.
#[derive(Clone, Copy, PartialEq, Eq, Structural, Debug)]
pub enum NativeCall {
    /// Block until the operation has finished. With `keep_status` the native
    /// layer fills in a status; without, it is told to leave the status out.
    Wait { handle: Handle, keep_status: bool },
    /// Ask once, without blocking, whether the operation has finished.
    Test { handle: Handle },
    /// Ask for the operation to be cancelled.
    Cancel { handle: Handle },
    /// Give the handle back to the native layer.
    Free { handle: Handle },
}

/// The calls that make the native layer wait for the operation behind
/// `handle`: one blocking wait.
pub open spec fn wait_script(handle: Handle, keep_status: bool) -> Seq<NativeCall> {
    seq![NativeCall::Wait { handle, keep_status }]
}

/// The calls that ask the native layer once whether the operation behind
/// `handle` has finished: one non-blocking test.
pub open spec fn test_script(handle: Handle) -> Seq<NativeCall> {
    seq![NativeCall::Test { handle }]
}

/// The calls that discharge the operation behind `handle` without waiting for
/// it: a request to cancel, then the release of the handle.
pub open spec fn cancel_script(handle: Handle) -> Seq<NativeCall> {
    seq![NativeCall::Cancel { handle }, NativeCall::Free { handle }]
}

/// Builds [`wait_script`].
pub fn calls_to_wait(handle: Handle, keep_status: bool) -> (calls: Vec<NativeCall>)
    ensures
        calls@ == wait_script(handle, keep_status),
{
    let mut calls = Vec::new();
    calls.push(NativeCall::Wait { handle, keep_status });
    calls
}

/// Builds [`test_script`].
pub fn calls_to_test(handle: Handle) -> (calls: Vec<NativeCall>)
    ensures
        calls@ == test_script(handle),
{
    let mut calls = Vec::new();
    calls.push(NativeCall::Test { handle });
    calls
}

/// Builds [`cancel_script`].
pub fn calls_to_cancel(handle: Handle) -> (calls: Vec<NativeCall>)
    ensures
        calls@ == cancel_script(handle),
{
    let mut calls = Vec::new();
    calls.push(NativeCall::Cancel { handle });
    calls.push(NativeCall::Free { handle });
    calls
}

/// The native layer's report of a finished operation.
#[derive(Clone, Copy, PartialEq, Eq, Structural, Debug)]
pub struct Completion {
    /// The handle as the native layer left it.
    pub handle: Handle,
    /// The outcome of the operation.
    pub status: Status,
}

impl Completion {
    /// A finished operation leaves a null handle behind.
    pub open spec fn well_formed(self) -> bool {
        self.handle is Null
    }
}

/// The native layer's answer to one non-blocking test.
#[derive(Clone, Copy, PartialEq, Eq, Structural, Debug)]
pub enum Poll {
    /// The operation has not finished; the handle was left alone.
    Pending,
    /// The operation has finished.
    Ready(Completion),
}

impl Poll {
    /// If the operation has finished, its report is well formed.
    pub open spec fn well_formed(self) -> bool {
        self matches Poll::Ready(done) ==> done.well_formed()
    }
}

} // verus!
