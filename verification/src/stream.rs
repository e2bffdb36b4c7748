//! A byte stream over one socket handle.

use vstd::prelude::*;
use crate::address::{AddressFamily, SocketAddr, SocketType};
use crate::bridge::{HostCall, IovecRead, IovecWrite};
use crate::error::Error;
use crate::op::{Pending, Step, StepView};
use crate::socket::{Shutdown, Socket};

verus! {

/// A stream socket. It owns its handle and holds nothing else.
#[derive(Debug, PartialEq, Eq)]
pub struct TcpStream {
    s: Socket,
}

impl View for TcpStream {
    type V = u32;

    /// The descriptor of the handle that the stream owns.
    closed spec fn view(&self) -> u32 {
        self.s@
    }
}

impl TcpStream {
    pub fn new(s: Socket) -> (stream: Self)
        ensures
            stream@ == s@,
    {
        Self { s }
    }

    pub fn get_fd(&self) -> (fd: u32)
        ensures
            fd == self@,
    {
        self.s.raw()
    }

    /// Opens a stream socket of the family of `addr` and connects it. The
    /// operation yields the stream.
    pub fn connect(addr: &SocketAddr) -> (step: Step)
        ensures
            step@.well_formed(),
            step@ == StepView::Call(
                HostCall::Open {
                    poll_fd: -1i32,
                    addr_family: AddressFamily::of(*addr).tag(),
                    sock_type: SocketType::Stream.tag(),
                },
                Pending::StreamOpen { addr: *addr },
            ),
    {
        Step::Call(
            HostCall::Open {
                poll_fd: -1,
                addr_family: AddressFamily::from(addr).tag(),
                sock_type: SocketType::Stream.tag(),
            },
            Pending::StreamOpen { addr: *addr },
        )
    }

    /// Ends transfer in the directions that `how` names.
    pub fn shutdown(&self, how: Shutdown) -> (step: Step)
        ensures
            step@.well_formed(),
            step@ == StepView::Call(
                HostCall::Shutdown { fd: self@, flags: how.flags() },
                Pending::Status,
            ),
    {
        self.s.shutdown(how)
    }

    /// Reads into a buffer as long as `buf`. The operation yields how many
    /// bytes the host stored; none means that the stream has ended.
    pub fn read(&mut self, buf: &[u8]) -> (step: Step)
        ensures
            step@.well_formed(),
            *final(self) == *old(self),
            step@ == StepView::Call(
                HostCall::Recv {
                    fd: old(self)@,
                    buf: IovecRead { size: buf.len() },
                    buf_len: 1,
                    flags: 0,
                },
                Pending::Recv,
            ),
    {
        self.s.recv(buf)
    }

    /// Writes the bytes of `buf`. The operation yields how many the host
    /// took.
    pub fn write(&mut self, buf: &[u8]) -> (step: Step)
        ensures
            step@.well_formed(),
            *final(self) == *old(self),
            step@ == StepView::Call(
                HostCall::Send {
                    fd: old(self)@,
                    buf: IovecWrite { size: buf.len() },
                    buf_len: 1,
                    flags: 0,
                },
                Pending::Send,
            ),
    {
        self.s.send(buf)
    }

    /// Does nothing: the stream holds no bytes back, so there is nothing to
    /// flush.
    pub fn flush(&mut self) -> (r: Result<(), Error>)
        ensures
            *final(self) == *old(self),
            r == Ok::<(), Error>(()),
    {
        Ok(())
    }
}

} // verus!
