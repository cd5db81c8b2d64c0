//! A ticket store that one server thread owns and any number of callers
//! reach through a bounded mailbox, with the small value types that go
//! with it.
//!
//! The store itself is in `store`, what it answers to a sequence of requests
//! in `history`, the commands and their answers in `protocol`, the two sides
//! of the mailbox in `client` and `server`.

pub mod bomb;
pub mod channel;
pub mod client;
pub mod data;
pub mod history;
pub mod protocol;
pub mod server;
pub mod status;
pub mod store;
pub mod wrapping;

pub use client::{mailbox, ClientError, OverloadedError, Pending, TicketStoreClient};
pub use protocol::Command;
pub use server::{server, ServerState};
