//! The socket handle and its operations.

use vstd::prelude::*;
use crate::address::{encode, AddressFamily, SocketAddr, SocketType, WasiAddress};
use crate::bridge::{HostCall, IovecRead, IovecWrite};
use crate::error::Error;
use crate::fcntl::{f_getfl, f_setfl, fcntl_add, fcntl_remove, o_nonblock};
use crate::op::{flag_update, Pending, Step, StepView};

verus! {

/// The directions in which a socket can be shut down.
#[derive(Copy, Clone, Debug, PartialEq, Eq, Structural)]
pub enum Shutdown {
    Read,
    Write,
    Both,
}

impl Shutdown {
    /// The direction, as the host takes it.
    pub open spec fn spec_flags(self) -> u8 {
        match self {
            Shutdown::Read => 1,
            Shutdown::Write => 2,
            Shutdown::Both => 3,
        }
    }

    #[verifier::when_used_as_spec(spec_flags)]
    pub fn flags(self) -> (flags: u8)
        ensures
            flags == self.spec_flags(),
    {
        match self {
            Shutdown::Read => 1,
            Shutdown::Write => 2,
            Shutdown::Both => 3,
        }
    }
}

/// The step that hands an encoded address to the host, or fails without a
/// call if the address has no wire form.
pub open spec fn with_address(addr: SocketAddr, fd: u32, connect: bool) -> StepView {
    match encode(addr) {
        Ok(wire) => StepView::Call(
            if connect {
                HostCall::Connect { fd, addr: wire }
            } else {
                HostCall::Bind { fd, addr: wire }
            },
            Pending::Status,
        ),
        Err(e) => StepView::Done(Err(e)),
    }
}

/// An IPv6 address ends `connect` and `bind` at once, with the unsupported
/// family as the error and without any call to the host; an IPv4 address
/// always leads to the call, with the address encoded.
pub proof fn lemma_only_ipv4_reaches_the_host(addr: SocketAddr, fd: u32, connect: bool)
    ensures
        addr is V6 <==> with_address(addr, fd, connect) == StepView::Done(
            Err(Error::UnsupportedAddressFamily),
        ),
        addr is V4 <==> with_address(addr, fd, connect) is Call,
        with_address(addr, fd, connect).well_formed(),
{
}

/// One descriptor of the host. The handle is the descriptor's only owner:
/// it cannot be copied, and a new one comes only out of an operation, with
/// the descriptor that the host gave.
#[derive(Debug, PartialEq, Eq)]
pub struct Socket {
    sock_fd: u32,
}

impl View for Socket {
    type V = u32;

    /// The descriptor.
    closed spec fn view(&self) -> u32 {
        self.sock_fd
    }
}

impl Socket {
    pub(crate) fn from_raw(fd: u32) -> (s: Socket)
        ensures
            s@ == fd,
    {
        Socket { sock_fd: fd }
    }

    pub(crate) fn raw(&self) -> (fd: u32)
        ensures
            fd == self@,
    {
        self.sock_fd
    }

    /// Opens a descriptor of the given family and kind.
    pub fn new(addr_family: AddressFamily, sock_kind: SocketType) -> (step: Step)
        ensures
            step@.well_formed(),
            step@ == StepView::Call(
                HostCall::Open {
                    poll_fd: -1i32,
                    addr_family: addr_family.tag(),
                    sock_type: sock_kind.tag(),
                },
                Pending::Open,
            ),
    {
        Step::Call(
            HostCall::Open {
                poll_fd: -1i32,
                addr_family: addr_family.tag(),
                sock_type: sock_kind.tag(),
            },
            Pending::Open,
        )
    }

    /// Connects the socket to `addrs`.
    pub fn connect(&self, addrs: &SocketAddr) -> (step: Step)
        ensures
            step@.well_formed(),
            step@ == with_address(*addrs, self@, true),
    {
        match WasiAddress::from_socket_addr(addrs) {
            Ok(addr) => Step::Call(HostCall::Connect { fd: self.sock_fd, addr }, Pending::Status),
            Err(e) => Step::Done(Err(e)),
        }
    }

    /// Sends the bytes of `buf`. The operation yields how many the host
    /// took, which may be fewer than `buf` holds.
    pub fn send(&self, buf: &[u8]) -> (step: Step)
        ensures
            step@.well_formed(),
            step@ == StepView::Call(
                HostCall::Send {
                    fd: self@,
                    buf: IovecWrite { size: buf.len() },
                    buf_len: 1,
                    flags: 0,
                },
                Pending::Send,
            ),
    {
        Step::Call(
            HostCall::Send {
                fd: self.sock_fd,
                buf: IovecWrite { size: buf.len() },
                buf_len: 1,
                flags: 0,
            },
            Pending::Send,
        )
    }

    /// Receives into a buffer as long as `buf`. The operation yields how
    /// many bytes the host stored; on a stream, none means that the peer
    /// has closed.
    pub fn recv(&self, buf: &[u8]) -> (step: Step)
        ensures
            step@.well_formed(),
            step@ == StepView::Call(
                HostCall::Recv {
                    fd: self@,
                    buf: IovecRead { size: buf.len() },
                    buf_len: 1,
                    flags: 0,
                },
                Pending::Recv,
            ),
    {
        Step::Call(
            HostCall::Recv {
                fd: self.sock_fd,
                buf: IovecRead { size: buf.len() },
                buf_len: 1,
                flags: 0,
            },
            Pending::Recv,
        )
    }

    /// Lets the socket take connections, with room for `backlog` of them
    /// to wait.
    pub fn listen(&self, backlog: i32) -> (step: Step)
        ensures
            step@.well_formed(),
            step@ == StepView::Call(
                HostCall::Listen { fd: self@, backlog: backlog as u32 },
                Pending::Status,
            ),
    {
        Step::Call(
            HostCall::Listen { fd: self.sock_fd, backlog: #[verifier::truncate] (backlog as u32) },
            Pending::Status,
        )
    }

    /// Puts the socket in non-blocking mode, or back in blocking mode. The
    /// host's flags are read first, and written only if the mode changes.
    pub fn set_nonblocking(&self, nonblocking: bool) -> (step: Step)
        ensures
            step@.well_formed(),
            (step@ matches StepView::Call(
                HostCall::Fcntl { cmd: get_cmd, .. },
                Pending::FlagsRead { set_cmd, flag, .. },
            ) && step@ == flag_update(self@, get_cmd, set_cmd, flag, nonblocking, false)),
    {
        if nonblocking {
            fcntl_add(self.sock_fd, f_getfl(), f_setfl(), o_nonblock())
        } else {
            fcntl_remove(self.sock_fd, f_getfl(), f_setfl(), o_nonblock())
        }
    }

    /// Takes the next connection. The new handle is put in the mode that
    /// `nonblocking` asks for before the operation yields it.
    pub fn accept(&self, nonblocking: bool) -> (step: Step)
        ensures
            step@.well_formed(),
            (step@ matches StepView::Call(call, Pending::Accept { nonblocking: mode, .. })
                && call == (HostCall::Accept { fd: self@ }) && mode == nonblocking),
    {
        Step::Call(
            HostCall::Accept { fd: self.sock_fd },
            Pending::Accept {
                nonblocking,
                get_cmd: f_getfl(),
                set_cmd: f_setfl(),
                flag: o_nonblock(),
            },
        )
    }

    /// Binds the socket to the local address `addrs`.
    pub fn bind(&self, addrs: &SocketAddr) -> (step: Step)
        ensures
            step@.well_formed(),
            step@ == with_address(*addrs, self@, false),
    {
        match WasiAddress::from_socket_addr(addrs) {
            Ok(addr) => Step::Call(HostCall::Bind { fd: self.sock_fd, addr }, Pending::Status),
            Err(e) => Step::Done(Err(e)),
        }
    }

    /// Ends transfer in the directions that `how` names. The descriptor
    /// stays open.
    pub fn shutdown(&self, how: Shutdown) -> (step: Step)
        ensures
            step@.well_formed(),
            step@ == StepView::Call(
                HostCall::Shutdown { fd: self@, flags: how.flags() },
                Pending::Status,
            ),
    {
        Step::Call(HostCall::Shutdown { fd: self.sock_fd, flags: how.flags() }, Pending::Status)
    }
}

} // verus!
