//! Client-side core of a bidirectional, streaming, cancellable RPC system
//! over a local stream socket.
//!
//! The crate models the wire messages, the outbound-call handle, the
//! inbound-call context, and the step logic of the IO loop and the
//! dispatcher.  Sockets, threads and dynamically-dispatched handler objects
//! live outside the library.

pub mod chan;
pub mod client;
pub mod dispatcher;
pub mod io_loop;
pub mod list_files;
pub mod message;
pub mod server;
pub mod spinner;
