//! Operations in flight.
//!
//! An operation begins with a [`Step`]: either it is over, or it names a
//! call for the host and the state in which the library waits for the
//! reply. [`Pending::resume`] takes the reply and gives the next step. The
//! embedder makes the calls, one after the other, until the operation is
//! over.

use vstd::prelude::*;
use vstd::pervasive::unreached;
use crate::address::{encode, SocketAddr, WasiAddress};
use crate::bridge::{HostCall, Reply, ReplyKind};
use crate::error::{syscall_result, to_result, Error};
use crate::poll::{fired, Event};
use crate::socket::Socket;
use crate::stream::TcpStream;

verus! {

/// What an operation yields when it succeeds.
#[derive(Debug, PartialEq, Eq)]
pub enum Outcome {
    /// Nothing but the success.
    Unit,
    /// The number of bytes transferred.
    Count(usize),
    /// A new handle.
    Socket(Socket),
    /// A new, connected stream.
    Stream(TcpStream),
    /// The events that fired.
    Events(Vec<Event>),
}

/// An [`Outcome`], with each handle seen as its descriptor.
pub enum OutcomeView {
    Unit,
    Count(usize),
    Socket(u32),
    Stream(u32),
    Events(Seq<Event>),
}

impl View for Outcome {
    type V = OutcomeView;

    open spec fn view(&self) -> OutcomeView {
        match self {
            Outcome::Unit => OutcomeView::Unit,
            Outcome::Count(n) => OutcomeView::Count(*n),
            Outcome::Socket(s) => OutcomeView::Socket(s@),
            Outcome::Stream(t) => OutcomeView::Stream(t@),
            Outcome::Events(events) => OutcomeView::Events(events@),
        }
    }
}

/// The state in which the library waits for the reply to a call.
#[derive(Copy, Clone, Debug, PartialEq, Eq)]
pub enum Pending {
    /// A descriptor is being opened.
    Open,
    /// A call that yields only success or failure is under way.
    Status,
    /// Bytes are being sent.
    Send,
    /// Bytes are being received.
    Recv,
    /// A connection is being accepted. The new handle gets the blocking
    /// mode `nonblocking` before it is handed out, by the `fcntl` commands
    /// kept here.
    Accept { nonblocking: bool, get_cmd: i32, set_cmd: i32, flag: i32 },
    /// The flags of `sock_fd` are being read, to add `flag` to them or to
    /// remove it. With `accepted`, the operation yields the handle.
    FlagsRead { sock_fd: u32, set_cmd: i32, flag: i32, add: bool, accepted: bool },
    /// The flags of `sock_fd` are being written.
    FlagsWritten { sock_fd: u32, accepted: bool },
    /// A descriptor is being opened for a stream to `addr`.
    StreamOpen { addr: SocketAddr },
    /// The stream's descriptor is being connected.
    StreamConnect { sock_fd: u32 },
    /// A wait on `nsubscriptions` subscriptions is under way.
    Poll { nsubscriptions: usize },
}

/// Where an operation stands.
#[derive(Debug, PartialEq, Eq)]
pub enum Step {
    /// The host has to make this call; its reply goes to
    /// [`Pending::resume`].
    Call(HostCall, Pending),
    /// The operation is over.
    Done(Result<Outcome, Error>),
}

/// A [`Step`], with each handle seen as its descriptor.
pub enum StepView {
    Call(HostCall, Pending),
    Done(Result<OutcomeView, Error>),
}

impl View for Step {
    type V = StepView;

    open spec fn view(&self) -> StepView {
        match self {
            Step::Call(call, pending) => StepView::Call(*call, *pending),
            Step::Done(Ok(outcome)) => StepView::Done(Ok(outcome@)),
            Step::Done(Err(e)) => StepView::Done(Err(*e)),
        }
    }
}

impl StepView {
    /// The step that ends an operation with the meaning of a return word.
    pub open spec fn status(code: u32, outcome: OutcomeView) -> StepView {
        match to_result(code) {
            Ok(_) => StepView::Done(Ok(outcome)),
            Err(e) => StepView::Done(Err(e)),
        }
    }

    /// The library waits for the shape of reply that the call has.
    pub open spec fn well_formed(self) -> bool {
        self matches StepView::Call(call, pending) ==> call.reply_kind() == pending.awaits()
    }
}

/// The flags after `flag` was added to `previous`, or removed from it.
pub open spec fn with_flag(previous: i32, flag: i32, add: bool) -> i32 {
    if add {
        previous | flag
    } else {
        previous & !flag
    }
}

/// The first step of a flag update on `sock_fd`: read the flags.
pub open spec fn flag_update(
    sock_fd: u32,
    get_cmd: i32,
    set_cmd: i32,
    flag: i32,
    add: bool,
    accepted: bool,
) -> StepView {
    StepView::Call(
        HostCall::Fcntl { fd: sock_fd as i32, cmd: get_cmd, arg: None },
        Pending::FlagsRead { sock_fd, set_cmd, flag, add, accepted },
    )
}

/// What a flag update yields: the handle, if it came from `accept`.
pub open spec fn flag_outcome(sock_fd: u32, accepted: bool) -> OutcomeView {
    if accepted {
        OutcomeView::Socket(sock_fd)
    } else {
        OutcomeView::Unit
    }
}

impl Pending {
    pub open spec fn spec_awaits(&self) -> ReplyKind {
        match *self {
            Pending::Open => ReplyKind::Handle,
            Pending::Status => ReplyKind::Status,
            Pending::Send => ReplyKind::Sent,
            Pending::Recv => ReplyKind::Received,
            Pending::Accept { .. } => ReplyKind::Handle,
            Pending::FlagsRead { .. } => ReplyKind::Fcntl,
            Pending::FlagsWritten { .. } => ReplyKind::Fcntl,
            Pending::StreamOpen { .. } => ReplyKind::Handle,
            Pending::StreamConnect { .. } => ReplyKind::Status,
            Pending::Poll { .. } => ReplyKind::Events,
        }
    }

    /// The shape of the reply that this state waits for.
    #[verifier::when_used_as_spec(spec_awaits)]
    pub fn awaits(&self) -> (kind: ReplyKind)
        ensures
            kind == self.spec_awaits(),
    {
        match *self {
            Pending::Open => ReplyKind::Handle,
            Pending::Status => ReplyKind::Status,
            Pending::Send => ReplyKind::Sent,
            Pending::Recv => ReplyKind::Received,
            Pending::Accept { .. } => ReplyKind::Handle,
            Pending::FlagsRead { .. } => ReplyKind::Fcntl,
            Pending::FlagsWritten { .. } => ReplyKind::Fcntl,
            Pending::StreamOpen { .. } => ReplyKind::Handle,
            Pending::StreamConnect { .. } => ReplyKind::Status,
            Pending::Poll { .. } => ReplyKind::Events,
        }
    }

    /// The number of calls that an operation in this state can still make
    /// once the reply that it waits for is in.
    pub open spec fn calls_left(&self) -> nat {
        match *self {
            Pending::Accept { .. } => 2,
            Pending::FlagsRead { .. } => 1,
            Pending::StreamOpen { .. } => 1,
            _ => 0,
        }
    }

    /// The step that follows this state when the host gives `reply`.
    pub open spec fn spec_resume(self, reply: Reply) -> StepView {
        match (self, reply) {
            (Pending::Open, Reply::Handle { code, fd }) => StepView::status(
                code,
                OutcomeView::Socket(fd),
            ),
            (Pending::Status, Reply::Status { code }) => StepView::status(code, OutcomeView::Unit),
            (Pending::Send, Reply::Sent { code, send_len }) => StepView::status(
                code,
                OutcomeView::Count(send_len as usize),
            ),
            (Pending::Recv, Reply::Received { code, recv_len, oflags }) => StepView::status(
                code,
                OutcomeView::Count(recv_len),
            ),
            (Pending::Accept { nonblocking, get_cmd, set_cmd, flag }, Reply::Handle { code, fd }) =>
                match to_result(code) {
                    Ok(_) => flag_update(fd, get_cmd, set_cmd, flag, nonblocking, true),
                    Err(e) => StepView::Done(Err(e)),
                },
            (
                Pending::FlagsRead { sock_fd, set_cmd, flag, add, accepted },
                Reply::Fcntl { res, errno },
            ) => match syscall_result(res, errno) {
                Ok(previous) => if with_flag(previous, flag, add) != previous {
                    StepView::Call(
                        HostCall::Fcntl {
                            fd: sock_fd as i32,
                            cmd: set_cmd,
                            arg: Some(with_flag(previous, flag, add)),
                        },
                        Pending::FlagsWritten { sock_fd, accepted },
                    )
                } else {
                    StepView::Done(Ok(flag_outcome(sock_fd, accepted)))
                },
                Err(e) => StepView::Done(Err(e)),
            },
            (Pending::FlagsWritten { sock_fd, accepted }, Reply::Fcntl { res, errno }) =>
                match syscall_result(res, errno) {
                    Ok(_) => StepView::Done(Ok(flag_outcome(sock_fd, accepted))),
                    Err(e) => StepView::Done(Err(e)),
                },
            (Pending::StreamOpen { addr }, Reply::Handle { code, fd }) => match to_result(code) {
                Ok(_) => match encode(addr) {
                    Ok(wire) => StepView::Call(
                        HostCall::Connect { fd, addr: wire },
                        Pending::StreamConnect { sock_fd: fd },
                    ),
                    Err(e) => StepView::Done(Err(e)),
                },
                Err(e) => StepView::Done(Err(e)),
            },
            (Pending::StreamConnect { sock_fd }, Reply::Status { code }) => StepView::status(
                code,
                OutcomeView::Stream(sock_fd),
            ),
            (Pending::Poll { nsubscriptions }, Reply::Events { code, events, nevents }) =>
                StepView::status(code, OutcomeView::Events(fired(events@, nevents, nsubscriptions))),
            _ => arbitrary(),
        }
    }
    /// Takes the host's reply to the call that this state waits on, and
    /// gives the next step. The reply must be of the shape that the call
    /// has: that of [`Pending::awaits`].
    pub fn resume(self, reply: Reply) -> (step: Step)
        requires
            reply.kind() == self.awaits(),
        ensures
            step@ == self.spec_resume(reply),
            step@.well_formed(),
    {
        match self {
            Pending::Open => match reply {
                Reply::Handle { code, fd } => match to_result(code) {
                    Ok(()) => Step::Done(Ok(Outcome::Socket(Socket::from_raw(fd)))),
                    Err(e) => Step::Done(Err(e)),
                },
                _ => unreached(),
            },
            Pending::Status => match reply {
                Reply::Status { code } => match to_result(code) {
                    Ok(()) => Step::Done(Ok(Outcome::Unit)),
                    Err(e) => Step::Done(Err(e)),
                },
                _ => unreached(),
            },
            Pending::Send => match reply {
                Reply::Sent { code, send_len } => match to_result(code) {
                    Ok(()) => Step::Done(Ok(Outcome::Count(send_len as usize))),
                    Err(e) => Step::Done(Err(e)),
                },
                _ => unreached(),
            },
            Pending::Recv => match reply {
                Reply::Received { code, recv_len, oflags: _ } => match to_result(code) {
                    Ok(()) => Step::Done(Ok(Outcome::Count(recv_len))),
                    Err(e) => Step::Done(Err(e)),
                },
                _ => unreached(),
            },
            Pending::Accept { nonblocking, get_cmd, set_cmd, flag } => match reply {
                Reply::Handle { code, fd } => match to_result(code) {
                    Ok(()) => begin_flag_update(fd, get_cmd, set_cmd, flag, nonblocking, true),
                    Err(e) => Step::Done(Err(e)),
                },
                _ => unreached(),
            },
            Pending::FlagsRead { sock_fd, set_cmd, flag, add, accepted } => match reply {
                Reply::Fcntl { res, errno } => match syscall_result(res, errno) {
                    Ok(previous) => {
                        let new: i32 = if add {
                            previous | flag
                        } else {
                            previous & !flag
                        };
                        if new != previous {
                            Step::Call(
                                HostCall::Fcntl {
                                    fd: #[verifier::truncate] (sock_fd as i32),
                                    cmd: set_cmd,
                                    arg: Some(new),
                                },
                                Pending::FlagsWritten { sock_fd, accepted },
                            )
                        } else {
                            Step::Done(Ok(end_flag_update(sock_fd, accepted)))
                        }
                    },
                    Err(e) => Step::Done(Err(e)),
                },
                _ => unreached(),
            },
            Pending::FlagsWritten { sock_fd, accepted } => match reply {
                Reply::Fcntl { res, errno } => match syscall_result(res, errno) {
                    Ok(_) => Step::Done(Ok(end_flag_update(sock_fd, accepted))),
                    Err(e) => Step::Done(Err(e)),
                },
                _ => unreached(),
            },
            Pending::StreamOpen { addr } => match reply {
                Reply::Handle { code, fd } => match to_result(code) {
                    Ok(()) => match WasiAddress::from_socket_addr(&addr) {
                        Ok(wire) => Step::Call(
                            HostCall::Connect { fd, addr: wire },
                            Pending::StreamConnect { sock_fd: fd },
                        ),
                        Err(e) => Step::Done(Err(e)),
                    },
                    Err(e) => Step::Done(Err(e)),
                },
                _ => unreached(),
            },
            Pending::StreamConnect { sock_fd } => match reply {
                Reply::Status { code } => match to_result(code) {
                    Ok(()) => Step::Done(
                        Ok(Outcome::Stream(TcpStream::new(Socket::from_raw(sock_fd)))),
                    ),
                    Err(e) => Step::Done(Err(e)),
                },
                _ => unreached(),
            },
            Pending::Poll { nsubscriptions } => match reply {
                Reply::Events { code, events, nevents } => match to_result(code) {
                    Ok(()) => {
                        let mut events = events;
                        let n: usize = if nevents <= nsubscriptions {
                            nevents
                        } else {
                            nsubscriptions
                        };
                        events.truncate(n);
                        Step::Done(Ok(Outcome::Events(events)))
                    },
                    Err(e) => Step::Done(Err(e)),
                },
                _ => unreached(),
            },
        }
    }
}

/// The library always waits for the shape of reply that the call it asked
/// for has: an embedder that answers each call with that call's reply can
/// always resume.
pub proof fn lemma_resume_well_formed(pending: Pending, reply: Reply)
    requires
        reply.kind() == pending.awaits(),
    ensures
        pending.spec_resume(reply).well_formed(),
{
}

/// Every operation ends: each reply leaves it with fewer calls to make, and
/// none makes more than three.
pub proof fn lemma_resume_makes_progress(pending: Pending, reply: Reply)
    requires
        reply.kind() == pending.awaits(),
    ensures
        pending.calls_left() <= 2,
        pending.spec_resume(reply) matches StepView::Call(_, next) ==> next.calls_left()
            < pending.calls_left(),
{
}

/// A return word of zero is success with the operation's outcome, and any
/// other word is the failure that carries it; there is nothing else.
pub proof fn lemma_status_is_the_only_channel(code: u32, outcome: OutcomeView)
    ensures
        code == 0 <==> StepView::status(code, outcome) == StepView::Done(Ok(outcome)),
        code != 0 <==> StepView::status(code, outcome) == StepView::Done(Err(Error::os(code))),
{
}

/// Receiving no bytes is a success like any other: the operation yields
/// the count zero, which on a stream tells the end of it. In general a
/// transfer yields the host's count as it is, be it less than was asked
/// for.
pub proof fn lemma_end_of_stream_is_no_error(recv_len: usize, oflags: usize)
    ensures
        Pending::Recv.spec_resume(Reply::Received { code: 0, recv_len: 0, oflags })
            == StepView::Done(Ok(OutcomeView::Count(0))),
        Pending::Recv.spec_resume(Reply::Received { code: 0, recv_len, oflags })
            == StepView::Done(Ok(OutcomeView::Count(recv_len))),
{
}

/// An accepted handle is never handed out before its blocking mode is as
/// asked. Once the host has given the new descriptor, the next step reads
/// that descriptor's flags. The handle comes out only when the flags read
/// are as asked already, or when the one write of the changed flags has
/// succeeded; if either `fcntl` fails, the operation does.
pub proof fn lemma_accept_sets_the_mode_first(
    nonblocking: bool,
    get_cmd: i32,
    set_cmd: i32,
    flag: i32,
    fd: u32,
    previous: i32,
    written: i32,
    errno: i32,
)
    ensures
        ({
            let accepting = Pending::Accept { nonblocking, get_cmd, set_cmd, flag };
            let reading = Pending::FlagsRead {
                sock_fd: fd,
                set_cmd,
                flag,
                add: nonblocking,
                accepted: true,
            };
            let writing = Pending::FlagsWritten { sock_fd: fd, accepted: true };
            let handle = StepView::Done(Ok(OutcomeView::Socket(fd)));
            let failure = StepView::Done(Err(Error::Os(errno)));
            &&& accepting.spec_resume(Reply::Handle { code: 0, fd }) == StepView::Call(
                HostCall::Fcntl { fd: fd as i32, cmd: get_cmd, arg: None },
                reading,
            )
            &&& reading.spec_resume(Reply::Fcntl { res: -1i32, errno }) == failure
            &&& previous != -1 && with_flag(previous, flag, nonblocking) == previous
                ==> reading.spec_resume(Reply::Fcntl { res: previous, errno }) == handle
            &&& previous != -1 && with_flag(previous, flag, nonblocking) != previous
                ==> reading.spec_resume(Reply::Fcntl { res: previous, errno }) == StepView::Call(
                HostCall::Fcntl {
                    fd: fd as i32,
                    cmd: set_cmd,
                    arg: Some(with_flag(previous, flag, nonblocking)),
                },
                writing,
            )
            &&& writing.spec_resume(Reply::Fcntl { res: -1i32, errno }) == failure
            &&& written != -1 ==> writing.spec_resume(Reply::Fcntl { res: written, errno })
                == handle
        }),
{
}

/// Begins a flag update on `sock_fd`.
pub(crate) fn begin_flag_update(
    sock_fd: u32,
    get_cmd: i32,
    set_cmd: i32,
    flag: i32,
    add: bool,
    accepted: bool,
) -> (step: Step)
    ensures
        step@ == flag_update(sock_fd, get_cmd, set_cmd, flag, add, accepted),
{
    Step::Call(
        HostCall::Fcntl { fd: #[verifier::truncate] (sock_fd as i32), cmd: get_cmd, arg: None },
        Pending::FlagsRead { sock_fd, set_cmd, flag, add, accepted },
    )
}

fn end_flag_update(sock_fd: u32, accepted: bool) -> (outcome: Outcome)
    ensures
        outcome@ == flag_outcome(sock_fd, accepted),
{
    if accepted {
        Outcome::Socket(Socket::from_raw(sock_fd))
    } else {
        Outcome::Unit
    }
}

} // verus!
