//! A socket core for hosts that expose the WASI socket calls.
//!
//! The library never crosses the host boundary itself. Every operation is a
//! small state machine: it names the foreign call to make, the embedder makes
//! it, and the library decides from the host's reply what happens next.

pub mod address;
pub mod bridge;
pub mod error;
pub mod fcntl;
pub mod op;
pub mod poll;
pub mod socket;
pub mod stream;

pub use crate::address::{
    AddressFamily, SocketAddr, SocketType, WasiAddress, WasiAddressIPV4, WasiAddressIPV4Port,
};
pub use crate::bridge::{HostCall, IovecRead, IovecWrite, Reply, ReplyKind};
pub use crate::error::{syscall_result, to_result, Error};
pub use crate::fcntl::{fcntl_add, fcntl_remove};
pub use crate::op::{Outcome, Pending, Step};
pub use crate::poll::{wait, Event, Interest, Subscription, EVENTTYPE_CLOCK, EVENTTYPE_FD_READ};
pub use crate::socket::{Shutdown, Socket};
pub use crate::stream::TcpStream;
