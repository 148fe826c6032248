//! Completion tracking for non-blocking message-passing operations.
//!
//! A request value stands for one operation that the native communication
//! layer is still working on. It borrows the buffers the operation touches and
//! has to be driven to completion, or cancelled, exactly once.
//!
//! Nothing here talks to the native layer. Each operation is split in two: the
//! calls that have to be made ([`native::NativeCall`]), and what follows from
//! the native layer's reply. The caller makes the calls and hands the reply
//! back, so every decision of this layer is an ordinary function of plain
//! values.

pub mod guard;
pub mod handle;
pub mod native;
pub mod request;
pub mod status;
pub mod traits;
pub mod variant;
