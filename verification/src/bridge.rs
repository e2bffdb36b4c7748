//! The boundary to the host: the foreign calls that the library asks for,
//! with every argument fixed, and the replies that the host gives.
//!
//! The host reports failure in one place only. A socket call returns a word
//! that is zero on success and the host's error code otherwise; `fcntl`
//! returns -1 and leaves the code in `errno`.

use vstd::prelude::*;
use crate::address::WasiAddress;
use crate::poll::Event;

verus! {

/// A buffer that the host reads from: the caller's, `size` bytes long. The
/// embedder knows where it lies.
#[derive(Copy, Clone, Debug, PartialEq, Eq, Structural)]
pub struct IovecWrite {
    pub size: usize,
}

/// A buffer that the host writes to: the caller's, `size` bytes long. The
/// embedder knows where it lies.
#[derive(Copy, Clone, Debug, PartialEq, Eq, Structural)]
pub struct IovecRead {
    pub size: usize,
}

/// One foreign call, as the embedder has to make it.
#[allow(inconsistent_fields)]
#[derive(Copy, Clone, Debug, PartialEq, Eq, Structural)]
pub enum HostCall {
    /// `sock_open`: a new descriptor of the given family and kind.
    Open { poll_fd: i32, addr_family: u8, sock_type: u8 },
    /// `sock_connect` to the address.
    Connect { fd: u32, addr: WasiAddress },
    /// `sock_bind` to the address.
    Bind { fd: u32, addr: WasiAddress },
    /// `sock_listen` with the given queue size.
    Listen { fd: u32, backlog: u32 },
    /// `sock_accept` on a listening descriptor.
    Accept { fd: u32 },
    /// `sock_send` from `buf_len` buffers, of which `buf` is the first.
    Send { fd: u32, buf: IovecWrite, buf_len: u32, flags: u16 },
    /// `sock_recv` into `buf_len` buffers, of which `buf` is the first.
    Recv { fd: u32, buf: IovecRead, buf_len: usize, flags: u16 },
    /// `sock_shutdown` in the directions that `flags` names.
    Shutdown { fd: u32, flags: u8 },
    /// `fcntl` with the command and, where the command takes one, its
    /// argument.
    Fcntl { fd: i32, cmd: i32, arg: Option<i32> },
    /// `poll_oneoff` on the caller's `nsubscriptions` subscriptions, with
    /// room for as many events.
    Poll { nsubscriptions: usize },
}

/// The shapes that a reply can have.
#[derive(Copy, Clone, Debug, PartialEq, Eq, Structural)]
pub enum ReplyKind {
    Status,
    Handle,
    Sent,
    Received,
    Fcntl,
    Events,
}

/// What the host answered to one call.
#[derive(Debug, PartialEq, Eq)]
pub enum Reply {
    /// The return word of a call that yields nothing else.
    Status { code: u32 },
    /// The return word, and the descriptor that the call stored.
    Handle { code: u32, fd: u32 },
    /// The return word, and the number of bytes that the host took.
    Sent { code: u32, send_len: u32 },
    /// The return word, the number of bytes that the host stored, and the
    /// flags that it returned.
    Received { code: u32, recv_len: usize, oflags: usize },
    /// The value that `fcntl` returned, and `errno` after the call.
    Fcntl { res: i32, errno: i32 },
    /// The return word, the event records, and the number of them that the
    /// host filled in.
    Events { code: u32, events: Vec<Event>, nevents: usize },
}

impl HostCall {
    /// The shape of the reply that this call gets.
    pub open spec fn spec_reply_kind(&self) -> ReplyKind {
        match *self {
            HostCall::Open { .. } => ReplyKind::Handle,
            HostCall::Connect { .. } => ReplyKind::Status,
            HostCall::Bind { .. } => ReplyKind::Status,
            HostCall::Listen { .. } => ReplyKind::Status,
            HostCall::Accept { .. } => ReplyKind::Handle,
            HostCall::Send { .. } => ReplyKind::Sent,
            HostCall::Recv { .. } => ReplyKind::Received,
            HostCall::Shutdown { .. } => ReplyKind::Status,
            HostCall::Fcntl { .. } => ReplyKind::Fcntl,
            HostCall::Poll { .. } => ReplyKind::Events,
        }
    }

    #[verifier::when_used_as_spec(spec_reply_kind)]
    pub fn reply_kind(&self) -> (kind: ReplyKind)
        ensures
            kind == self.spec_reply_kind(),
    {
        match *self {
            HostCall::Open { .. } => ReplyKind::Handle,
            HostCall::Connect { .. } => ReplyKind::Status,
            HostCall::Bind { .. } => ReplyKind::Status,
            HostCall::Listen { .. } => ReplyKind::Status,
            HostCall::Accept { .. } => ReplyKind::Handle,
            HostCall::Send { .. } => ReplyKind::Sent,
            HostCall::Recv { .. } => ReplyKind::Received,
            HostCall::Shutdown { .. } => ReplyKind::Status,
            HostCall::Fcntl { .. } => ReplyKind::Fcntl,
            HostCall::Poll { .. } => ReplyKind::Events,
        }
    }
}

impl Reply {
    pub open spec fn spec_kind(&self) -> ReplyKind {
        match *self {
            Reply::Status { .. } => ReplyKind::Status,
            Reply::Handle { .. } => ReplyKind::Handle,
            Reply::Sent { .. } => ReplyKind::Sent,
            Reply::Received { .. } => ReplyKind::Received,
            Reply::Fcntl { .. } => ReplyKind::Fcntl,
            Reply::Events { .. } => ReplyKind::Events,
        }
    }

    /// The shape of this reply.
    #[verifier::when_used_as_spec(spec_kind)]
    pub fn kind(&self) -> (kind: ReplyKind)
        ensures
            kind == self.spec_kind(),
    {
        match *self {
            Reply::Status { .. } => ReplyKind::Status,
            Reply::Handle { .. } => ReplyKind::Handle,
            Reply::Sent { .. } => ReplyKind::Sent,
            Reply::Received { .. } => ReplyKind::Received,
            Reply::Fcntl { .. } => ReplyKind::Fcntl,
            Reply::Events { .. } => ReplyKind::Events,
        }
    }
}

} // verus!
