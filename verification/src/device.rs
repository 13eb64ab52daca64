//! What the caller reports back after touching the device.
use vstd::prelude::*;
use vstd::string::StringExecFns;

use crate::constants::DEVICE_PATH;

verus! {

/// `std::io::Error`: the OS error behind a failed open, ioctl or procfs read.
/// The library carries it through into its own errors and never looks
/// inside it; what it reads of the error (its OS error number) is handed
/// over next to it as a plain value.
#[verifier::external_type_specification]
#[verifier::external_body]
pub struct ExIoError(std::io::Error);

/// Outcome of opening `/dev/fbppid` (read-only, close-on-exec).
#[derive(Debug)]
pub enum DeviceOpen {
    /// The device is open.
    Opened,
    /// Opening failed with `err`, whose OS error number is `errno` where it has one.
    Failed { err: std::io::Error, errno: Option<i32> },
}

/// Message of a failure to open the device, `cause` being the text of the
/// OS error.
pub open spec fn spec_open_failure_text(cause: Seq<char>) -> Seq<char> {
    "fbppid: failed to open "@ + DEVICE_PATH@ + ": "@ + cause
}

/// `fbppid: failed to open /dev/fbppid: <cause>`.
pub fn open_failure_text(cause: &str) -> (r: String)
    ensures
        r@ == spec_open_failure_text(cause@),
{
    let mut r = String::new();
    r.append("fbppid: failed to open ");
    r.append(DEVICE_PATH);
    r.append(": ");
    r.append(cause);
    r
}

} // verus!
