//! The error type of every fallible operation, and the one place where a
//! host return word becomes a `Result`.

use vstd::prelude::*;

verus! {

/// Why an operation failed.
#[derive(Copy, Clone, Debug, PartialEq, Eq, Structural)]
pub enum Error {
    /// The address is of a family that has no wire form.
    UnsupportedAddressFamily,
    /// The host reported this error code.
    Os(i32),
}

impl Error {
    /// The error for a non-zero return word of the host: the word's 32 bits,
    /// read as the signed code that operating-system errors carry.
    pub open spec fn spec_os(code: u32) -> Error {
        Error::Os(code as i32)
    }

    #[verifier::when_used_as_spec(spec_os)]
    pub fn os(code: u32) -> (e: Error)
        ensures
            e == Error::spec_os(code),
    {
        Error::Os(#[verifier::truncate] (code as i32))
    }

    pub open spec fn spec_raw_os_error(&self) -> Option<i32> {
        match *self {
            Error::UnsupportedAddressFamily => None,
            Error::Os(code) => Some(code),
        }
    }

    /// The host's error code, if the host is where the error came from.
    #[verifier::when_used_as_spec(spec_raw_os_error)]
    pub fn raw_os_error(&self) -> (code: Option<i32>)
        ensures
            code == self.spec_raw_os_error(),
    {
        match *self {
            Error::UnsupportedAddressFamily => None,
            Error::Os(code) => Some(code),
        }
    }
}

/// What a host return word means: zero is success, anything else is the
/// host's error code.
pub open spec fn spec_to_result(code: u32) -> Result<(), Error> {
    if code == 0 {
        Ok(())
    } else {
        Err(Error::os(code))
    }
}

#[verifier::when_used_as_spec(spec_to_result)]
pub fn to_result(code: u32) -> (r: Result<(), Error>)
    ensures
        r == spec_to_result(code),
{
    if code == 0 {
        Ok(())
    } else {
        Err(Error::os(code))
    }
}

/// What a libc-style return value means: -1 is failure, with the reason in
/// `errno`; any other value is the call's result.
pub open spec fn spec_syscall_result(res: i32, errno: i32) -> Result<i32, Error> {
    if res == -1 {
        Err(Error::Os(errno))
    } else {
        Ok(res)
    }
}

#[verifier::when_used_as_spec(spec_syscall_result)]
pub fn syscall_result(res: i32, errno: i32) -> (r: Result<i32, Error>)
    ensures
        r == spec_syscall_result(res, errno),
{
    if res == -1 {
        Err(Error::Os(errno))
    } else {
        Ok(res)
    }
}

/// A host error code survives the mapping unchanged: a non-zero word never
/// becomes success or the code zero, and two words that differ give errors
/// that differ.
pub proof fn lemma_code_is_kept(a: u32, b: u32)
    ensures
        a != 0 ==> to_result(a) is Err && to_result(a) != Err::<(), Error>(Error::Os(0)),
        a == 0 <==> to_result(a) is Ok,
        to_result(a) == to_result(b) ==> a == b,
        0 < a <= i32::MAX ==> to_result(a) == Err::<(), Error>(Error::Os(a as i32)),
{
    assert(a != 0 ==> a as i32 != 0) by (bit_vector);
    assert(a as i32 == b as i32 ==> a == b) by (bit_vector);
}

} // verus!
