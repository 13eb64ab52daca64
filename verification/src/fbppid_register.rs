//! Registering the broker process with the kernel (done by PID 1).
//!
//! The caller runs the steps: `register_begin`, then, when asked, opens the
//! device and reports the outcome to `register_after_open`, then, when
//! asked, issues `REGISTER_BROKER` and reports the return value to
//! `register_after_ioctl`. Each step names what to do next.
use vstd::prelude::*;

use vstd::string::{to_string_from_display_ensures, StringExecFns};

use crate::device::{open_failure_text, spec_open_failure_text, DeviceOpen};
use crate::text::{decimal, push_decimal};
use crate::errno::{should_fallback, spec_should_fallback, UnavailableErrnos};
use crate::fbppid_uapi::FbppidRegisterBrokerArgs;

verus! {

/// Why broker registration failed.
#[derive(Debug)]
pub enum RegisterError {
    /// The device could not be opened.
    OpenDevice(std::io::Error),
    /// The broker PID is not positive.
    InvalidPid(i32),
    /// The `REGISTER_BROKER` ioctl failed.
    Ioctl(std::io::Error),
}

/// Message of `InvalidPid(pid)`.
pub open spec fn spec_register_invalid_pid_text(pid: i32) -> Seq<char> {
    "fbppid: invalid broker PID: "@ + decimal(pid as int)
}

/// Message of an ioctl failure, `cause` being the text of the OS error.
pub open spec fn spec_register_ioctl_text(cause: Seq<char>) -> Seq<char> {
    "fbppid: REGISTER_BROKER ioctl failed: "@ + cause
}

/// The message of an error, with `cause` the text of the OS error it carries.
pub open spec fn spec_register_error_text(e: RegisterError, cause: Seq<char>) -> Seq<char> {
    match e {
        RegisterError::OpenDevice(_) => spec_open_failure_text(cause),
        RegisterError::InvalidPid(pid) => spec_register_invalid_pid_text(pid),
        RegisterError::Ioctl(_) => spec_register_ioctl_text(cause),
    }
}

impl RegisterError {
    /// `fbppid: invalid broker PID: <pid>`.
    pub fn invalid_pid_text(pid: i32) -> (r: String)
        ensures
            r@ == spec_register_invalid_pid_text(pid),
    {
        let mut r = String::new();
        r.append("fbppid: invalid broker PID: ");
        push_decimal(&mut r, pid);
        r
    }

    /// `fbppid: REGISTER_BROKER ioctl failed: <cause>`.
    pub fn ioctl_text(cause: &str) -> (r: String)
        ensures
            r@ == spec_register_ioctl_text(cause@),
    {
        let mut r = String::new();
        r.append("fbppid: REGISTER_BROKER ioctl failed: ");
        r.append(cause);
        r
    }

    /// The error's message; the OS error it carries is rendered by its
    /// `Display`.
    pub fn message(&self) -> (r: String)
        ensures
            match self {
                RegisterError::InvalidPid(pid) => r@ == spec_register_error_text(*self, Seq::empty()),
                RegisterError::OpenDevice(e) => exists|cause: String|
                    to_string_from_display_ensures::<std::io::Error>(e, cause) && r@
                        == spec_register_error_text(*self, cause@),
                RegisterError::Ioctl(e) => exists|cause: String|
                    to_string_from_display_ensures::<std::io::Error>(e, cause) && r@
                        == spec_register_error_text(*self, cause@),
            },
    {
        match self {
            RegisterError::OpenDevice(e) => {
                let cause = e.to_string();
                open_failure_text(cause.as_str())
            },
            RegisterError::InvalidPid(pid) => Self::invalid_pid_text(*pid),
            RegisterError::Ioctl(e) => {
                let cause = e.to_string();
                Self::ioctl_text(cause.as_str())
            },
        }
    }
}

/// What broker registration does next.
#[derive(Debug)]
pub enum RegisterAction {
    /// Open `/dev/fbppid` read-only and close-on-exec, and report to `register_after_open`.
    OpenDevice,
    /// Issue `REGISTER_BROKER` with this argument on the open device, and
    /// report to `register_after_ioctl`.
    Ioctl(FbppidRegisterBrokerArgs),
    /// The kernel interface is unavailable: log the line of
    /// `register_broker_fallback` for this PID and report success.
    Fallback(i32),
    /// Registration is over, with this result.
    Finish(Result<(), RegisterError>),
}

/// The registration request for `pid`.
pub open spec fn register_request(pid: i32) -> FbppidRegisterBrokerArgs {
    FbppidRegisterBrokerArgs { pid, __pad: 0 }
}

pub open spec fn spec_register_begin(pid: i32) -> RegisterAction {
    if pid <= 0 {
        RegisterAction::Finish(Err(RegisterError::InvalidPid(pid)))
    } else {
        RegisterAction::OpenDevice
    }
}

pub open spec fn spec_register_after_open(
    pid: i32,
    open: DeviceOpen,
    unavailable: UnavailableErrnos,
) -> RegisterAction {
    match open {
        DeviceOpen::Opened => RegisterAction::Ioctl(register_request(pid)),
        DeviceOpen::Failed { err, errno } => if spec_should_fallback(errno, unavailable) {
            RegisterAction::Fallback(pid)
        } else {
            RegisterAction::Finish(Err(RegisterError::OpenDevice(err)))
        },
    }
}

pub open spec fn spec_register_after_ioctl(
    pid: i32,
    ret: i32,
    err: std::io::Error,
    errno: Option<i32>,
    unavailable: UnavailableErrnos,
) -> RegisterAction {
    if ret >= 0 {
        RegisterAction::Finish(Ok(()))
    } else if spec_should_fallback(errno, unavailable) {
        RegisterAction::Fallback(pid)
    } else {
        RegisterAction::Finish(Err(RegisterError::Ioctl(err)))
    }
}

/// First step of registering `broker_pid` as the broker: a PID that is not
/// positive is refused before the device is touched.
pub fn register_begin(broker_pid: i32) -> (r: RegisterAction)
    ensures
        r == spec_register_begin(broker_pid),
        broker_pid <= 0 ==> r == RegisterAction::Finish(Err(RegisterError::InvalidPid(broker_pid))),
        broker_pid > 0 ==> r == RegisterAction::OpenDevice,
{
    if broker_pid <= 0 {
        return RegisterAction::Finish(Err(RegisterError::InvalidPid(broker_pid)));
    }
    RegisterAction::OpenDevice
}

/// Step after opening the device: send the request, or fall back when the
/// interface is unavailable, or fail with the open error.
pub fn register_after_open(
    broker_pid: i32,
    open: DeviceOpen,
    unavailable: &UnavailableErrnos,
) -> (r: RegisterAction)
    ensures
        r == spec_register_after_open(broker_pid, open, *unavailable),
        open is Opened ==> r == RegisterAction::Ioctl(
            FbppidRegisterBrokerArgs { pid: broker_pid, __pad: 0 },
        ),
        match open {
            DeviceOpen::Failed { err, errno } => {
                &&& (errno matches Some(e) && unavailable.contains(e)) ==> r
                    == RegisterAction::Fallback(broker_pid)
                &&& !(errno matches Some(e) && unavailable.contains(e)) ==> r
                    == RegisterAction::Finish(Err(RegisterError::OpenDevice(err)))
            },
            DeviceOpen::Opened => true,
        },
{
    match open {
        DeviceOpen::Opened => RegisterAction::Ioctl(FbppidRegisterBrokerArgs { pid: broker_pid, __pad: 0 }),
        DeviceOpen::Failed { err, errno } => {
            if should_fallback(errno, unavailable) {
                RegisterAction::Fallback(broker_pid)
            } else {
                RegisterAction::Finish(Err(RegisterError::OpenDevice(err)))
            }
        },
    }
}

/// Step after the ioctl returned `ret` (with `err`, the OS error read right
/// after it, and its number `errno`): a negative return is a failure, which
/// falls back when the interface is unavailable.
pub fn register_after_ioctl(
    broker_pid: i32,
    ret: i32,
    err: std::io::Error,
    errno: Option<i32>,
    unavailable: &UnavailableErrnos,
) -> (r: RegisterAction)
    ensures
        r == spec_register_after_ioctl(broker_pid, ret, err, errno, *unavailable),
        ret >= 0 ==> r == RegisterAction::Finish(Ok(())),
        ret < 0 && (errno matches Some(e) && unavailable.contains(e)) ==> r
            == RegisterAction::Fallback(broker_pid),
        ret < 0 && !(errno matches Some(e) && unavailable.contains(e)) ==> r
            == RegisterAction::Finish(Err(RegisterError::Ioctl(err))),
{
    if ret >= 0 {
        RegisterAction::Finish(Ok(()))
    } else if should_fallback(errno, unavailable) {
        RegisterAction::Fallback(broker_pid)
    } else {
        RegisterAction::Finish(Err(RegisterError::Ioctl(err)))
    }
}

/// The result a step settles registration with, if it settles it: a
/// finished step gives its result, a fallback gives success.
pub open spec fn register_settled(action: RegisterAction) -> Option<Result<(), RegisterError>> {
    match action {
        RegisterAction::Finish(result) => Some(result),
        RegisterAction::Fallback(_) => Some(Ok(())),
        _ => None,
    }
}

/// The result that registering `pid` ends with, given how opening the
/// device turns out and, if the ioctl is issued, its return value `ret`
/// and the OS error `err` (number `errno`) read after it; `unavailable`
/// are the numbers that mean the interface is unavailable.
pub open spec fn spec_register_result(
    pid: i32,
    open: DeviceOpen,
    ret: i32,
    err: std::io::Error,
    errno: Option<i32>,
    unavailable: UnavailableErrnos,
) -> Result<(), RegisterError> {
    match register_settled(spec_register_begin(pid)) {
        Some(result) => result,
        None => match register_settled(spec_register_after_open(pid, open, unavailable)) {
            Some(result) => result,
            None => match register_settled(
                spec_register_after_ioctl(pid, ret, err, errno, unavailable),
            ) {
                Some(result) => result,
                None => Ok(()),
            },
        },
    }
}

/// A broker PID that is not positive is refused with `InvalidPid`, whatever
/// the device would have done, and the device is not opened for it.
pub proof fn law_register_rejects_invalid_pid(
    pid: i32,
    open: DeviceOpen,
    ret: i32,
    err: std::io::Error,
    errno: Option<i32>,
    unavailable: UnavailableErrnos,
)
    requires
        pid <= 0,
    ensures
        spec_register_begin(pid) == RegisterAction::Finish(Err(RegisterError::InvalidPid(pid))),
        spec_register_result(pid, open, ret, err, errno, unavailable) == Err::<(), RegisterError>(
            RegisterError::InvalidPid(pid),
        ),
{
}

/// When opening the device or the ioctl fails because the kernel interface
/// is unavailable, registration falls back, and a fallback is success.
pub proof fn law_register_unavailable_interface_succeeds(
    pid: i32,
    open_err: std::io::Error,
    ret: i32,
    err: std::io::Error,
    errno: Option<i32>,
    unavailable: UnavailableErrnos,
)
    requires
        pid > 0,
        errno matches Some(e) && unavailable.contains(e),
    ensures
        spec_register_after_open(pid, DeviceOpen::Failed { err: open_err, errno }, unavailable)
            == RegisterAction::Fallback(pid),
        spec_register_result(
            pid,
            DeviceOpen::Failed { err: open_err, errno },
            ret,
            err,
            errno,
            unavailable,
        ) == Ok::<(), RegisterError>(()),
        ret < 0 ==> spec_register_after_ioctl(pid, ret, err, errno, unavailable)
            == RegisterAction::Fallback(pid),
        spec_register_result(pid, DeviceOpen::Opened, ret, err, errno, unavailable) == Ok::<
            (),
            RegisterError,
        >(()),
{
}

/// Any other failure is reported with the OS error that caused it: that of
/// the open when the device could not be opened, that of the ioctl when
/// the request failed.
pub proof fn law_register_failure_keeps_cause(
    pid: i32,
    open_err: std::io::Error,
    open_errno: Option<i32>,
    ret: i32,
    err: std::io::Error,
    errno: Option<i32>,
    unavailable: UnavailableErrnos,
)
    requires
        pid > 0,
    ensures
        !(open_errno matches Some(e) && unavailable.contains(e)) ==> spec_register_result(
            pid,
            DeviceOpen::Failed { err: open_err, errno: open_errno },
            ret,
            err,
            errno,
            unavailable,
        ) == Err::<(), RegisterError>(RegisterError::OpenDevice(open_err)),
        ret < 0 && !(errno matches Some(e) && unavailable.contains(e)) ==> spec_register_result(
            pid,
            DeviceOpen::Opened,
            ret,
            err,
            errno,
            unavailable,
        ) == Err::<(), RegisterError>(RegisterError::Ioctl(err)),
        ret >= 0 ==> spec_register_result(pid, DeviceOpen::Opened, ret, err, errno, unavailable)
            == Ok::<(), RegisterError>(()),
{
}

/// The request sent to the kernel names the broker and satisfies the
/// kernel's rules (`pid > 0`, `__pad == 0`).
pub proof fn law_register_request_well_formed(pid: i32, unavailable: UnavailableErrnos)
    requires
        pid > 0,
    ensures
        spec_register_begin(pid) == RegisterAction::OpenDevice,
        spec_register_after_open(pid, DeviceOpen::Opened, unavailable) == RegisterAction::Ioctl(
            register_request(pid),
        ),
        register_request(pid).pid == pid,
        register_request(pid).is_well_formed(),
{
}

} // verus!
