//! A TCP portal: a worker that couples a local TCP stream to a routed
//! message overlay, with the handshake, copying and teardown decisions
//! stated and proved, and the I/O left to the caller.
pub mod codec;
pub mod commands;
pub mod laws;
pub mod receiver;
pub mod route;
pub mod worker;
