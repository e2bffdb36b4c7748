use wasi_socket::{
    fcntl_add, fcntl_remove, AddressFamily, Error, HostCall, IovecRead, IovecWrite, Outcome, Pending, Reply, ReplyKind,
    Shutdown, Socket, SocketAddr, SocketType, Step, WasiAddress, WasiAddressIPV4,
    WasiAddressIPV4Port,
};

/// Opens a handle on a host that answers with the descriptor `fd`.
fn opened(fd: u32) -> Socket {
    match Socket::new(AddressFamily::Inet4, SocketType::Stream) {
        Step::Call(_, pending) => match pending.resume(Reply::Handle { code: 0, fd }) {
            Step::Done(Ok(Outcome::Socket(s))) => s,
            other => panic!("the descriptor was not handed out: {:?}", other),
        },
        other => panic!("no call was asked for: {:?}", other),
    }
}

fn call_of(step: &Step) -> HostCall {
    match step {
        Step::Call(call, _) => *call,
        other => panic!("no call was asked for: {:?}", other),
    }
}

fn pending_of(step: &Step) -> Pending {
    match step {
        Step::Call(_, pending) => *pending,
        other => panic!("no call was asked for: {:?}", other),
    }
}

fn loopback(port: u16) -> SocketAddr {
    SocketAddr::V4 { ip: [127, 0, 0, 1], port }
}

fn loopback_wire(port: u16) -> WasiAddress {
    WasiAddress {
        kind: AddressFamily::Inet4,
        addr: WasiAddressIPV4Port { addr: WasiAddressIPV4 { n0: 127, n1: 0, n2: 0, n3: 1 }, port },
    }
}

#[test]
fn new_asks_for_a_descriptor_of_the_family_and_kind() {
    assert_eq!(
        Socket::new(AddressFamily::Inet4, SocketType::Stream),
        Step::Call(HostCall::Open { poll_fd: -1, addr_family: 0, sock_type: 1 }, Pending::Open)
    );
    assert_eq!(
        Socket::new(AddressFamily::Inet6, SocketType::Dgram),
        Step::Call(HostCall::Open { poll_fd: -1, addr_family: 1, sock_type: 0 }, Pending::Open)
    );
}

#[test]
fn new_yields_the_descriptor_that_the_host_gave() {
    let a = opened(7);
    let b = opened(8);
    assert_ne!(a, b);
    assert_eq!(call_of(&a.listen(1)), HostCall::Listen { fd: 7, backlog: 1 });
    assert_eq!(call_of(&b.listen(1)), HostCall::Listen { fd: 8, backlog: 1 });
}

#[test]
fn new_fails_with_the_code_of_the_host() {
    let pending = pending_of(&Socket::new(AddressFamily::Inet4, SocketType::Stream));
    assert_eq!(pending.resume(Reply::Handle { code: 24, fd: 0 }), Step::Done(Err(Error::Os(24))));
    assert_eq!(pending.resume(Reply::Handle { code: 24, fd: 9 }), Step::Done(Err(Error::Os(24))));
}

#[test]
fn connect_hands_the_encoded_address_to_the_host() {
    let s = opened(5);
    let step = s.connect(&loopback(9000));
    assert_eq!(
        step,
        Step::Call(HostCall::Connect { fd: 5, addr: loopback_wire(9000) }, Pending::Status)
    );
    let pending = pending_of(&step);
    assert_eq!(pending.resume(Reply::Status { code: 0 }), Step::Done(Ok(Outcome::Unit)));
    assert_eq!(pending.resume(Reply::Status { code: 14 }), Step::Done(Err(Error::Os(14))));
}

#[test]
fn connect_to_ipv6_fails_without_a_call() {
    let s = opened(5);
    let addr = SocketAddr::V6 { ip: [0; 16], port: 9000 };
    assert_eq!(s.connect(&addr), Step::Done(Err(Error::UnsupportedAddressFamily)));
}

#[test]
fn bind_hands_the_encoded_address_to_the_host() {
    let s = opened(5);
    let step = s.bind(&loopback(1234));
    assert_eq!(
        step,
        Step::Call(HostCall::Bind { fd: 5, addr: loopback_wire(1234) }, Pending::Status)
    );
    let pending = pending_of(&step);
    assert_eq!(pending.resume(Reply::Status { code: 0 }), Step::Done(Ok(Outcome::Unit)));
    assert_eq!(pending.resume(Reply::Status { code: 3 }), Step::Done(Err(Error::Os(3))));
}

#[test]
fn bind_to_ipv6_fails_without_a_call() {
    let s = opened(5);
    let addr = SocketAddr::V6 { ip: [0; 16], port: 1234 };
    assert_eq!(s.bind(&addr), Step::Done(Err(Error::UnsupportedAddressFamily)));
}

#[test]
fn listen_passes_the_backlog() {
    let s = opened(5);
    let step = s.listen(3);
    assert_eq!(step, Step::Call(HostCall::Listen { fd: 5, backlog: 3 }, Pending::Status));
    assert_eq!(
        pending_of(&step).resume(Reply::Status { code: 0 }),
        Step::Done(Ok(Outcome::Unit))
    );
    assert_eq!(
        pending_of(&step).resume(Reply::Status { code: 28 }),
        Step::Done(Err(Error::Os(28)))
    );
}

#[test]
fn listen_passes_the_bits_of_a_negative_backlog() {
    let s = opened(5);
    assert_eq!(call_of(&s.listen(-1)), HostCall::Listen { fd: 5, backlog: u32::MAX });
    assert_eq!(call_of(&s.listen(0)), HostCall::Listen { fd: 5, backlog: 0 });
}

#[test]
fn send_describes_one_buffer_and_no_flags() {
    let s = opened(5);
    let step = s.send("hello\n".as_bytes());
    assert_eq!(
        step,
        Step::Call(HostCall::Send { fd: 5, buf: IovecWrite { size: 6 }, buf_len: 1, flags: 0 }, Pending::Send)
    );
    assert_eq!(
        call_of(&s.send(&[])),
        HostCall::Send { fd: 5, buf: IovecWrite { size: 0 }, buf_len: 1, flags: 0 }
    );
}

#[test]
fn send_yields_the_count_of_the_host() {
    let s = opened(5);
    let pending = pending_of(&s.send(&[1, 2, 3, 4]));
    assert_eq!(
        pending.resume(Reply::Sent { code: 0, send_len: 4 }),
        Step::Done(Ok(Outcome::Count(4)))
    );
    assert_eq!(
        pending.resume(Reply::Sent { code: 0, send_len: 1 }),
        Step::Done(Ok(Outcome::Count(1)))
    );
    assert_eq!(
        pending.resume(Reply::Sent { code: 0, send_len: 0 }),
        Step::Done(Ok(Outcome::Count(0)))
    );
    assert_eq!(
        pending.resume(Reply::Sent { code: 6, send_len: 4 }),
        Step::Done(Err(Error::Os(6)))
    );
}

#[test]
fn recv_describes_one_buffer_and_no_flags() {
    let s = opened(5);
    let buf = [0u8; 128];
    assert_eq!(
        s.recv(&buf),
        Step::Call(HostCall::Recv { fd: 5, buf: IovecRead { size: 128 }, buf_len: 1, flags: 0 }, Pending::Recv)
    );
}

#[test]
fn recv_yields_the_count_of_the_host() {
    let s = opened(5);
    let buf = [0u8; 128];
    let pending = pending_of(&s.recv(&buf));
    assert_eq!(
        pending.resume(Reply::Received { code: 0, recv_len: 6, oflags: 0 }),
        Step::Done(Ok(Outcome::Count(6)))
    );
    assert_eq!(
        pending.resume(Reply::Received { code: 0, recv_len: 128, oflags: 1 }),
        Step::Done(Ok(Outcome::Count(128)))
    );
}

#[test]
fn recv_of_nothing_is_the_end_of_the_stream_and_no_error() {
    let s = opened(5);
    let buf = [0u8; 128];
    let pending = pending_of(&s.recv(&buf));
    assert_eq!(
        pending.resume(Reply::Received { code: 0, recv_len: 0, oflags: 0 }),
        Step::Done(Ok(Outcome::Count(0)))
    );
}

#[test]
fn recv_that_would_block_is_an_error_with_its_code() {
    let s = opened(5);
    let buf = [0u8; 128];
    let pending = pending_of(&s.recv(&buf));
    assert_eq!(
        pending.resume(Reply::Received { code: 6, recv_len: 0, oflags: 0 }),
        Step::Done(Err(Error::Os(6)))
    );
}

#[test]
fn shutdown_names_the_directions() {
    let s = opened(5);
    assert_eq!(
        s.shutdown(Shutdown::Read),
        Step::Call(HostCall::Shutdown { fd: 5, flags: 1 }, Pending::Status)
    );
    assert_eq!(
        s.shutdown(Shutdown::Write),
        Step::Call(HostCall::Shutdown { fd: 5, flags: 2 }, Pending::Status)
    );
    assert_eq!(
        s.shutdown(Shutdown::Both),
        Step::Call(HostCall::Shutdown { fd: 5, flags: 3 }, Pending::Status)
    );
    assert_eq!(Shutdown::Read.flags(), 1);
    assert_eq!(Shutdown::Write.flags(), 2);
    assert_eq!(Shutdown::Both.flags(), 3);
}

#[test]
fn shutdown_leaves_the_handle_in_use() {
    let s = opened(5);
    let pending = pending_of(&s.shutdown(Shutdown::Write));
    assert_eq!(pending.resume(Reply::Status { code: 0 }), Step::Done(Ok(Outcome::Unit)));
    let buf = [0u8; 4];
    assert_eq!(call_of(&s.recv(&buf)), HostCall::Recv { fd: 5, buf: IovecRead { size: 4 }, buf_len: 1, flags: 0 });
    assert_eq!(
        pending_of(&s.shutdown(Shutdown::Both)).resume(Reply::Status { code: 57 }),
        Step::Done(Err(Error::Os(57)))
    );
}

#[test]
fn fcntl_add_reads_the_flags_first() {
    assert_eq!(
        fcntl_add(5, 3, 4, 0x800),
        Step::Call(
            HostCall::Fcntl { fd: 5, cmd: 3, arg: None },
            Pending::FlagsRead { sock_fd: 5, set_cmd: 4, flag: 0x800, add: true, accepted: false },
        )
    );
}

#[test]
fn fcntl_add_writes_the_flags_with_the_flag_set() {
    let pending = pending_of(&fcntl_add(5, 3, 4, 0x800));
    let step = pending.resume(Reply::Fcntl { res: 0x2, errno: 0 });
    assert_eq!(
        step,
        Step::Call(
            HostCall::Fcntl { fd: 5, cmd: 4, arg: Some(0x802) },
            Pending::FlagsWritten { sock_fd: 5, accepted: false },
        )
    );
    assert_eq!(
        pending_of(&step).resume(Reply::Fcntl { res: 0, errno: 0 }),
        Step::Done(Ok(Outcome::Unit))
    );
}

#[test]
fn fcntl_add_writes_nothing_if_the_flag_is_set() {
    let pending = pending_of(&fcntl_add(5, 3, 4, 0x800));
    assert_eq!(
        pending.resume(Reply::Fcntl { res: 0x802, errno: 0 }),
        Step::Done(Ok(Outcome::Unit))
    );
}

#[test]
fn fcntl_remove_reads_the_flags_first() {
    assert_eq!(
        fcntl_remove(5, 3, 4, 0x800),
        Step::Call(
            HostCall::Fcntl { fd: 5, cmd: 3, arg: None },
            Pending::FlagsRead { sock_fd: 5, set_cmd: 4, flag: 0x800, add: false, accepted: false },
        )
    );
}

#[test]
fn fcntl_remove_writes_the_flags_with_the_flag_clear() {
    let pending = pending_of(&fcntl_remove(5, 3, 4, 0x800));
    let step = pending.resume(Reply::Fcntl { res: 0x802, errno: 0 });
    assert_eq!(
        step,
        Step::Call(
            HostCall::Fcntl { fd: 5, cmd: 4, arg: Some(0x2) },
            Pending::FlagsWritten { sock_fd: 5, accepted: false },
        )
    );
    assert_eq!(
        pending_of(&step).resume(Reply::Fcntl { res: 0, errno: 0 }),
        Step::Done(Ok(Outcome::Unit))
    );
}

#[test]
fn fcntl_remove_writes_nothing_if_the_flag_is_clear() {
    let pending = pending_of(&fcntl_remove(5, 3, 4, 0x800));
    assert_eq!(pending.resume(Reply::Fcntl { res: 0x2, errno: 0 }), Step::Done(Ok(Outcome::Unit)));
}

#[test]
fn a_failed_read_of_the_flags_ends_the_update() {
    let pending = pending_of(&fcntl_add(5, 3, 4, 0x800));
    assert_eq!(pending.resume(Reply::Fcntl { res: -1, errno: 9 }), Step::Done(Err(Error::Os(9))));
}

#[test]
fn a_failed_write_of_the_flags_fails_the_update() {
    let pending = pending_of(&fcntl_add(5, 3, 4, 0x800));
    let step = pending.resume(Reply::Fcntl { res: 0, errno: 0 });
    assert_eq!(
        pending_of(&step).resume(Reply::Fcntl { res: -1, errno: 22 }),
        Step::Done(Err(Error::Os(22)))
    );
}

#[test]
fn the_descriptor_goes_to_fcntl_with_its_bits() {
    assert_eq!(call_of(&fcntl_add(u32::MAX, 3, 4, 1)), HostCall::Fcntl { fd: -1, cmd: 3, arg: None });
    assert_eq!(
        call_of(&fcntl_remove(0x8000_0000, 3, 4, 1)),
        HostCall::Fcntl { fd: i32::MIN, cmd: 3, arg: None }
    );
}

#[test]
fn set_nonblocking_uses_the_commands_of_libc() {
    let s = opened(5);
    assert_eq!(s.set_nonblocking(true), fcntl_add(5, libc::F_GETFL, libc::F_SETFL, libc::O_NONBLOCK));
    assert_eq!(
        s.set_nonblocking(false),
        fcntl_remove(5, libc::F_GETFL, libc::F_SETFL, libc::O_NONBLOCK)
    );
    assert_eq!(
        s.set_nonblocking(true),
        Step::Call(
            HostCall::Fcntl { fd: 5, cmd: libc::F_GETFL, arg: None },
            Pending::FlagsRead {
                sock_fd: 5,
                set_cmd: libc::F_SETFL,
                flag: libc::O_NONBLOCK,
                add: true,
                accepted: false,
            },
        )
    );
}

#[test]
fn accept_asks_for_a_connection_and_keeps_the_mode() {
    let s = opened(5);
    assert_eq!(
        s.accept(true),
        Step::Call(
            HostCall::Accept { fd: 5 },
            Pending::Accept {
                nonblocking: true,
                get_cmd: libc::F_GETFL,
                set_cmd: libc::F_SETFL,
                flag: libc::O_NONBLOCK,
            },
        )
    );
    assert_eq!(
        pending_of(&s.accept(false)),
        Pending::Accept {
            nonblocking: false,
            get_cmd: libc::F_GETFL,
            set_cmd: libc::F_SETFL,
            flag: libc::O_NONBLOCK,
        }
    );
}

#[test]
fn accept_fails_with_the_code_of_the_host() {
    let s = opened(5);
    let pending = pending_of(&s.accept(true));
    assert_eq!(pending.resume(Reply::Handle { code: 6, fd: 0 }), Step::Done(Err(Error::Os(6))));
}

#[test]
fn accept_sets_the_mode_before_it_yields_the_handle() {
    let s = opened(5);
    let pending = pending_of(&s.accept(true));
    let read = pending.resume(Reply::Handle { code: 0, fd: 9 });
    assert_eq!(
        read,
        Step::Call(
            HostCall::Fcntl { fd: 9, cmd: libc::F_GETFL, arg: None },
            Pending::FlagsRead {
                sock_fd: 9,
                set_cmd: libc::F_SETFL,
                flag: libc::O_NONBLOCK,
                add: true,
                accepted: true,
            },
        )
    );
    let write = pending_of(&read).resume(Reply::Fcntl { res: 2, errno: 0 });
    assert_eq!(
        write,
        Step::Call(
            HostCall::Fcntl { fd: 9, cmd: libc::F_SETFL, arg: Some(2 | libc::O_NONBLOCK) },
            Pending::FlagsWritten { sock_fd: 9, accepted: true },
        )
    );
    match pending_of(&write).resume(Reply::Fcntl { res: 0, errno: 0 }) {
        Step::Done(Ok(Outcome::Socket(new))) => {
            assert_ne!(new, s);
            assert_eq!(call_of(&new.listen(0)), HostCall::Listen { fd: 9, backlog: 0 });
        }
        other => panic!("the handle was not handed out: {:?}", other),
    }
}

#[test]
fn accept_yields_the_handle_at_once_if_the_mode_is_as_asked() {
    let s = opened(5);
    let read = pending_of(&s.accept(false)).resume(Reply::Handle { code: 0, fd: 9 });
    match pending_of(&read).resume(Reply::Fcntl { res: 2 & !libc::O_NONBLOCK, errno: 0 }) {
        Step::Done(Ok(Outcome::Socket(new))) => {
            assert_eq!(call_of(&new.listen(0)), HostCall::Listen { fd: 9, backlog: 0 });
        }
        other => panic!("the handle was not handed out: {:?}", other),
    }
}

#[test]
fn accept_fails_if_the_mode_cannot_be_set() {
    let s = opened(5);
    let read = pending_of(&s.accept(true)).resume(Reply::Handle { code: 0, fd: 9 });
    assert_eq!(
        pending_of(&read).resume(Reply::Fcntl { res: -1, errno: 9 }),
        Step::Done(Err(Error::Os(9)))
    );
    let write = pending_of(&read).resume(Reply::Fcntl { res: 0, errno: 0 });
    assert_eq!(
        pending_of(&write).resume(Reply::Fcntl { res: -1, errno: 1 }),
        Step::Done(Err(Error::Os(1)))
    );
}

#[test]
fn each_call_is_awaited_with_its_kind_of_reply() {
    let s = opened(5);
    let buf = [0u8; 8];
    let steps = [
        Socket::new(AddressFamily::Inet4, SocketType::Dgram),
        s.connect(&loopback(1)),
        s.bind(&loopback(1)),
        s.listen(1),
        s.accept(false),
        s.send(&buf),
        s.recv(&buf),
        s.shutdown(Shutdown::Both),
        s.set_nonblocking(true),
    ];
    let kinds = [
        ReplyKind::Handle,
        ReplyKind::Status,
        ReplyKind::Status,
        ReplyKind::Status,
        ReplyKind::Handle,
        ReplyKind::Sent,
        ReplyKind::Received,
        ReplyKind::Status,
        ReplyKind::Fcntl,
    ];
    for (step, kind) in steps.iter().zip(kinds) {
        assert_eq!(call_of(step).reply_kind(), kind);
        assert_eq!(pending_of(step).awaits(), kind);
    }
    assert_eq!(Reply::Status { code: 0 }.kind(), ReplyKind::Status);
    assert_eq!(Reply::Handle { code: 0, fd: 1 }.kind(), ReplyKind::Handle);
    assert_eq!(Reply::Sent { code: 0, send_len: 1 }.kind(), ReplyKind::Sent);
    assert_eq!(Reply::Received { code: 0, recv_len: 1, oflags: 0 }.kind(), ReplyKind::Received);
    assert_eq!(Reply::Fcntl { res: 0, errno: 0 }.kind(), ReplyKind::Fcntl);
    assert_eq!(Reply::Events { code: 0, events: vec![], nevents: 0 }.kind(), ReplyKind::Events);
}
