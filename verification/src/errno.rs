//! The error numbers that mean "the kernel interface is not there".
use vstd::prelude::*;

verus! {

/// `libc::ENOENT` ("no such file or directory"): 2 on every Linux target that libc supports.
#[verifier::external_body]
fn errno_enoent() -> (r: i32)
    ensures
        r == 2,
{
    libc::ENOENT
}

/// `libc::ENODEV` ("no such device"): 19 on every Linux target that libc supports.
#[verifier::external_body]
fn errno_enodev() -> (r: i32)
    ensures
        r == 19,
{
    libc::ENODEV
}

/// `libc::ENOTTY` ("inappropriate ioctl for device"): 25 on every Linux
/// target that libc supports.
#[verifier::external_body]
fn errno_enotty() -> (r: i32)
    ensures
        r == 25,
{
    libc::ENOTTY
}

/// `libc::EOPNOTSUPP` ("operation not supported"). libc defines it per
/// target: 95 on most Linux architectures (x86_64, x86, arm, aarch64,
/// riscv, powerpc, s390x, loongarch), 122 on MIPS and 45 on SPARC. The
/// contract states only that it is one of these.
#[verifier::external_body]
fn errno_eopnotsupp() -> (r: i32)
    ensures
        r == 95 || r == 122 || r == 45,
{
    libc::EOPNOTSUPP
}

/// The OS error numbers that say the `fbppid` kernel interface is not
/// available: the device node is missing (`ENOENT`), no driver backs it
/// (`ENODEV`), or the ioctl is unknown to it (`ENOTTY`, `EOPNOTSUPP`).
/// Their values are the target's, as libc gives them.
#[derive(Debug, Clone, Copy, PartialEq, Eq, Structural)]
pub struct UnavailableErrnos {
    pub enoent: i32,
    pub enodev: i32,
    pub enotty: i32,
    pub eopnotsupp: i32,
}

impl UnavailableErrnos {
    /// The values these numbers have on the Linux targets of libc.
    pub open spec fn is_linux(self) -> bool {
        &&& self.enoent == 2
        &&& self.enodev == 19
        &&& self.enotty == 25
        &&& (self.eopnotsupp == 95 || self.eopnotsupp == 122 || self.eopnotsupp == 45)
    }

    /// Whether `errno` is one of these numbers.
    pub open spec fn contains(self, errno: i32) -> bool {
        errno == self.enoent || errno == self.enodev || errno == self.enotty || errno
            == self.eopnotsupp
    }

    /// The numbers as libc defines them for the target being built.
    pub fn from_libc() -> (r: Self)
        ensures
            r.is_linux(),
    {
        UnavailableErrnos {
            enoent: errno_enoent(),
            enodev: errno_enodev(),
            enotty: errno_enotty(),
            eopnotsupp: errno_eopnotsupp(),
        }
    }
}

/// Whether a failure whose OS error number is `errno` (if the error carried
/// one) is answered with the fallback instead of an error.
pub open spec fn spec_should_fallback(errno: Option<i32>, unavailable: UnavailableErrnos) -> bool {
    match errno {
        Some(e) => unavailable.contains(e),
        None => false,
    }
}

/// Decides whether a failed open or ioctl switches to the fallback, given
/// the numbers that mean the interface is unavailable.
pub fn should_fallback(errno: Option<i32>, unavailable: &UnavailableErrnos) -> (r: bool)
    ensures
        r == spec_should_fallback(errno, *unavailable),
        r <==> (errno matches Some(e) && unavailable.contains(e)),
        errno is None ==> !r,
        (errno matches Some(e) && e != unavailable.enoent && e != unavailable.enodev && e
            != unavailable.enotty && e != unavailable.eopnotsupp) ==> !r,
{
    match errno {
        Some(e) => e == unavailable.enoent || e == unavailable.enodev || e == unavailable.enotty
            || e == unavailable.eopnotsupp,
        None => false,
    }
}

/// A failure falls back exactly when it carries an OS error number and that
/// number is one of the four that mean the interface is unavailable; a
/// failure without a number, or with any other number, does not.
pub proof fn law_fallback_only_for_unavailable_errnos(errno: Option<i32>, unavailable: UnavailableErrnos)
    ensures
        spec_should_fallback(errno, unavailable) <==> (errno == Some(unavailable.enoent) || errno
            == Some(unavailable.enodev) || errno == Some(unavailable.enotty) || errno == Some(
            unavailable.eopnotsupp)),
{
}

} // verus!
