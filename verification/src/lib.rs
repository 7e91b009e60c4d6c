//! The verified core of a client that sends one request through a native
//! bridge and prints the text that the bridge returns.
//!
//! The bridge has one operation: it takes four sentinel-terminated texts, the
//! content of a configuration file, a method, a path and a body, in this
//! order, and returns one sentinel-terminated text. What it does with them is
//! not this crate's business. This crate turns text into buffers that can
//! cross to the bridge, turns the buffer that comes back into text, and keeps
//! the steps of a request in their order:
//!
//! - [`buffer`]: the sentinel, encoded buffers, and marshalling text into them;
//! - [`decode`]: decoding a sentinel-terminated buffer into text;
//! - [`request`]: the four fields of a request and the call made of them;
//! - [`pipeline`]: the life of a request as a state machine that a driver
//!   runs, performing each action and reporting what came of it;
//! - [`runs`]: what holds of every run of that machine;
//! - [`error`]: the failures of a request.
//!
//! Who owns which buffer is settled by the types. The four buffers of a call
//! belong to the request: the bridge borrows them while it runs, and they are
//! released when the request leaves the state that holds them. The response
//! buffer belongs to the bridge: the request borrows it to copy its text out
//! and never releases it.

pub mod buffer;
pub mod decode;
pub mod error;
pub mod pipeline;
pub mod request;
pub mod runs;
