//! The four shapes of request, told apart by the buffers they borrow.
//!
//! | type               | borrows                                   |
//! |--------------------|-------------------------------------------|
//! | `PlainRequest`     | nothing                                   |
//! | `ReadRequest`      | one buffer, shared                        |
//! | `WriteRequest`     | one buffer, exclusively                   |
//! | `ReadWriteRequest` | one buffer shared, another exclusively    |
//!
//! The borrow lives in the type alone: no request ever reads or copies the
//! buffer. It only keeps the caller from touching it while the request exists.

use vstd::prelude::*;
use std::marker::PhantomData;
use crate::handle::Handle;
use crate::request::Request;

verus! {

/// A request object for a non-blocking operation that holds no references,
/// such as a barrier.
#[must_use]
#[derive(Debug)]
pub struct PlainRequest(Handle);

impl PlainRequest {
    /// Construct a request object from the handle the native layer issued.
    pub fn from_raw(request: Handle) -> (r: PlainRequest)
        ensures
            r.handle() == request,
            request is Live ==> !(r.handle() is Null),
    {
        PlainRequest(request)
    }
}

impl Request for PlainRequest {
    closed spec fn handle(&self) -> Handle {
        self.0
    }

    fn as_raw(&self) -> (raw: Handle) {
        self.0
    }

    fn as_raw_mut(&mut self) -> (raw: &mut Handle) {
        &mut self.0
    }
}

/// A request object for a non-blocking operation that holds a reference to an
/// immutable buffer, such as a send.
#[must_use]
#[derive(Debug)]
pub struct ReadRequest<'b, Buf: 'b + ?Sized>(Handle, PhantomData<&'b Buf>);

impl<'b, Buf: 'b + ?Sized> ReadRequest<'b, Buf> {
    /// Construct a request object from the handle the native layer issued and
    /// the buffer the operation reads.
    pub fn from_raw(request: Handle, _buffer: &'b Buf) -> (r: ReadRequest<'b, Buf>)
        ensures
            r.handle() == request,
            request is Live ==> !(r.handle() is Null),
    {
        ReadRequest(request, PhantomData)
    }
}

impl<'b, Buf: 'b + ?Sized> Request for ReadRequest<'b, Buf> {
    closed spec fn handle(&self) -> Handle {
        self.0
    }

    fn as_raw(&self) -> (raw: Handle) {
        self.0
    }

    fn as_raw_mut(&mut self) -> (raw: &mut Handle) {
        &mut self.0
    }
}

/// A request object for a non-blocking operation that holds a reference to a
/// mutable buffer, such as a receive.
#[must_use]
#[derive(Debug)]
pub struct WriteRequest<'b, Buf: 'b + ?Sized>(Handle, PhantomData<&'b mut Buf>);

impl<'b, Buf: 'b + ?Sized> WriteRequest<'b, Buf> {
    /// Construct a request object from the handle the native layer issued and
    /// the buffer the operation writes.
    pub fn from_raw(request: Handle, _buffer: &'b mut Buf) -> (r: WriteRequest<'b, Buf>)
        ensures
            r.handle() == request,
            request is Live ==> !(r.handle() is Null),
    {
        WriteRequest(request, PhantomData)
    }
}

impl<'b, Buf: 'b + ?Sized> Request for WriteRequest<'b, Buf> {
    closed spec fn handle(&self) -> Handle {
        self.0
    }

    fn as_raw(&self) -> (raw: Handle) {
        self.0
    }

    fn as_raw_mut(&mut self) -> (raw: &mut Handle) {
        &mut self.0
    }
}

/// A request object for a non-blocking operation that holds a reference to an
/// immutable and a mutable buffer, such as an all-gather.
#[must_use]
#[derive(Debug)]
pub struct ReadWriteRequest<'s, 'r, S: 's + ?Sized, R: 'r + ?Sized>(
    Handle,
    PhantomData<&'s S>,
    PhantomData<&'r mut R>,
);

impl<'s, 'r, S: 's + ?Sized, R: 'r + ?Sized> ReadWriteRequest<'s, 'r, S, R> {
    /// Construct a request object from the handle the native layer issued, the
    /// buffer the operation reads and the buffer it writes.
    pub fn from_raw(request: Handle, _send: &'s S, _receive: &'r mut R) -> (r: ReadWriteRequest<
        's,
        'r,
        S,
        R,
    >)
        ensures
            r.handle() == request,
            request is Live ==> !(r.handle() is Null),
    {
        ReadWriteRequest(request, PhantomData, PhantomData)
    }
}

impl<'s, 'r, S: 's + ?Sized, R: 'r + ?Sized> Request for ReadWriteRequest<'s, 'r, S, R> {
    closed spec fn handle(&self) -> Handle {
        self.0
    }

    fn as_raw(&self) -> (raw: Handle) {
        self.0
    }

    fn as_raw_mut(&mut self) -> (raw: &mut Handle) {
        &mut self.0
    }
}

} // verus!
