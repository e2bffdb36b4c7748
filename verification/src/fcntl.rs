//! Updates of a descriptor's status flags: read the flags, change one, and
//! write them back only if that changed anything.

use vstd::prelude::*;
use crate::bridge::{HostCall, Reply};
use crate::op::{begin_flag_update, flag_outcome, flag_update, with_flag, Pending, Step, StepView};

verus! {

/// libc's `F_GETFL`, the `fcntl` command that reads a descriptor's status
/// flags. Its value depends on the target, and nothing is claimed of it.
#[verifier::external_body]
pub(crate) fn f_getfl() -> (cmd: i32) {
    libc::F_GETFL
}

/// libc's `F_SETFL`, the `fcntl` command that writes a descriptor's status
/// flags. Its value depends on the target, and nothing is claimed of it.
#[verifier::external_body]
pub(crate) fn f_setfl() -> (cmd: i32) {
    libc::F_SETFL
}

/// libc's `O_NONBLOCK`, the status flag of a descriptor in non-blocking
/// mode. Its value depends on the target, and nothing is claimed of it.
#[verifier::external_body]
pub(crate) fn o_nonblock() -> (flag: i32) {
    libc::O_NONBLOCK
}

/// Adds `flag` to the flags that `get_cmd` reads on `fd`, and writes them
/// with `set_cmd` if `flag` was not among them.
pub fn fcntl_add(fd: u32, get_cmd: i32, set_cmd: i32, flag: i32) -> (step: Step)
    ensures
        step@.well_formed(),
        step@ == flag_update(fd, get_cmd, set_cmd, flag, true, false),
{
    begin_flag_update(fd, get_cmd, set_cmd, flag, true, false)
}

/// Removes `flag` from the flags that `get_cmd` reads on `fd`, and writes
/// them with `set_cmd` if `flag` was among them.
pub fn fcntl_remove(fd: u32, get_cmd: i32, set_cmd: i32, flag: i32) -> (step: Step)
    ensures
        step@.well_formed(),
        step@ == flag_update(fd, get_cmd, set_cmd, flag, false, false),
{
    begin_flag_update(fd, get_cmd, set_cmd, flag, false, false)
}

/// The number of writes that a flag update makes on a descriptor whose
/// flags are `previous`, on a host that lets `fcntl` succeed.
pub open spec fn flag_writes(previous: i32, flag: i32, add: bool) -> nat {
    if with_flag(previous, flag, add) != previous {
        1
    } else {
        0
    }
}

/// A flag update writes only what differs from what it read: once the flags
/// are read, either they already are as asked and the update is over
/// without a write, or one write of the changed flags follows, and the
/// update is over after it.
pub proof fn lemma_flag_update_writes_once(
    sock_fd: u32,
    set_cmd: i32,
    flag: i32,
    add: bool,
    accepted: bool,
    previous: i32,
    errno: i32,
    written: i32,
)
    requires
        previous != -1,
        written != -1,
    ensures
        ({
            let read = Pending::FlagsRead { sock_fd, set_cmd, flag, add, accepted };
            let over = StepView::Done(Ok(flag_outcome(sock_fd, accepted)));
            if flag_writes(previous, flag, add) == 0 {
                read.spec_resume(Reply::Fcntl { res: previous, errno }) == over
            } else {
                &&& read.spec_resume(Reply::Fcntl { res: previous, errno }) == StepView::Call(
                    HostCall::Fcntl {
                        fd: sock_fd as i32,
                        cmd: set_cmd,
                        arg: Some(with_flag(previous, flag, add)),
                    },
                    Pending::FlagsWritten { sock_fd, accepted },
                )
                &&& (Pending::FlagsWritten { sock_fd, accepted }).spec_resume(
                    Reply::Fcntl { res: written, errno },
                ) == over
            }
        }),
{
}

/// The same update, applied again to the flags that it left, changes
/// nothing: of two updates in a row the second never writes, so the two
/// together write exactly once if the flags were not as asked before, and
/// not at all if they were.
pub proof fn lemma_flag_update_idempotent(previous: i32, flag: i32, add: bool)
    ensures
        with_flag(with_flag(previous, flag, add), flag, add) == with_flag(previous, flag, add),
        flag_writes(with_flag(previous, flag, add), flag, add) == 0,
        flag_writes(previous, flag, add) + flag_writes(with_flag(previous, flag, add), flag, add)
            == if with_flag(previous, flag, add) != previous { 1nat } else { 0nat },
{
    assert((previous | flag) | flag == previous | flag) by (bit_vector);
    assert((previous & !flag) & !flag == previous & !flag) by (bit_vector);
}

/// A second update to the same mode makes no write. When the first update
/// is over, the descriptor's flags are `with_flag(previous, ..)`, whether
/// the update wrote them or found them so; the second update reads these
/// and is over at once.
pub proof fn lemma_same_mode_twice_writes_once(
    sock_fd: u32,
    set_cmd: i32,
    flag: i32,
    add: bool,
    accepted: bool,
    previous: i32,
    errno: i32,
)
    requires
        with_flag(previous, flag, add) != -1,
    ensures
        (Pending::FlagsRead { sock_fd, set_cmd, flag, add, accepted }).spec_resume(
            Reply::Fcntl { res: with_flag(previous, flag, add), errno },
        ) == StepView::Done(Ok(flag_outcome(sock_fd, accepted))),
{
    lemma_flag_update_idempotent(previous, flag, add);
}

/// After an update the flag is set if it was added and clear if it was
/// removed, and the other flags are as they were.
pub proof fn lemma_flag_update_sets_mode(previous: i32, flag: i32, add: bool, other: i32)
    requires
        other & flag == 0,
    ensures
        with_flag(previous, flag, add) & flag == if add { flag } else { 0i32 },
        with_flag(previous, flag, add) & other == previous & other,
{
    assert((previous | flag) & flag == flag) by (bit_vector);
    assert((previous & !flag) & flag == 0i32) by (bit_vector);
    assert(other & flag == 0 ==> (previous | flag) & other == previous & other) by (bit_vector);
    assert(other & flag == 0 ==> (previous & !flag) & other == previous & other) by (bit_vector);
}

} // verus!
