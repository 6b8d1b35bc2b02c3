//! Numbers of the Linux interface that decisions depend on, taken from `libc`.

use vstd::prelude::*;

verus! {

/// A call was interrupted by a signal.
pub open spec fn eintr() -> i32 {
    4
}

/// A file may not be opened by this user.
pub open spec fn eacces() -> i32 {
    13
}

/// An argument was invalid.
pub open spec fn einval() -> i32 {
    22
}

/// The poll flag for "there is data to read".
pub open spec fn pollin() -> i16 {
    1
}

/// Reads the constant `libc::EINTR`; on Linux its value is the one named by [`eintr`].
#[verifier::external_body]
pub(crate) fn libc_eintr() -> (errno: i32)
    ensures
        errno == eintr(),
{
    libc::EINTR
}

/// Reads the constant `libc::EACCES`; on Linux its value is the one named by [`eacces`].
#[verifier::external_body]
pub(crate) fn libc_eacces() -> (errno: i32)
    ensures
        errno == eacces(),
{
    libc::EACCES
}

/// Reads the constant `libc::EINVAL`; on Linux its value is the one named by [`einval`].
#[verifier::external_body]
pub(crate) fn libc_einval() -> (errno: i32)
    ensures
        errno == einval(),
{
    libc::EINVAL
}

/// Reads the constant `libc::POLLIN`; on Linux its value is the one named by [`pollin`].
#[verifier::external_body]
pub(crate) fn libc_pollin() -> (flag: i16)
    ensures
        flag == pollin(),
{
    libc::POLLIN
}

/// The device behind a poll entry has data to read.
pub open spec fn readable(revents: i16) -> bool {
    revents & pollin() != 0
}

/// Whether the device behind a poll entry has data to read.
pub fn is_readable(revents: i16) -> (r: bool)
    ensures
        r == readable(revents),
        r <==> revents & 1 != 0,
{
    (revents & libc_pollin()) != 0
}

/// A poll entry has data to read exactly if its lowest flag is set, whatever other flags are.
pub proof fn law_the_lowest_flag_decides(revents: i16, others: i16)
    ensures
        readable(revents) <==> revents & 1 != 0,
        readable(1),
        readable(revents | 1),
        !readable(revents & !1i16),
        readable(revents | (others & !1i16)) == readable(revents),
{
    assert(1i16 & 1 != 0) by (bit_vector);
    assert((revents | 1) & 1 != 0) by (bit_vector);
    assert((revents & !1i16) & 1 == 0) by (bit_vector);
    assert((revents | (others & !1i16)) & 1 == revents & 1) by (bit_vector);
}

} // verus!
