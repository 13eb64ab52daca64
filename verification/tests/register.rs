use std::io;

use fbppid_rs::{
    klog_line, register_after_ioctl, register_after_open, register_begin,
    register_broker_fallback, DeviceOpen, RegisterAction, RegisterError, UnavailableErrnos,
};

fn os_error(code: i32) -> (io::Error, Option<i32>) {
    let err = io::Error::from_raw_os_error(code);
    let errno = err.raw_os_error();
    (err, errno)
}

#[test]
fn fbppid_register_reject_invalid_pid() {
    assert!(matches!(
        register_begin(0),
        RegisterAction::Finish(Err(RegisterError::InvalidPid(0)))
    ));
    assert!(matches!(
        register_begin(-1),
        RegisterAction::Finish(Err(RegisterError::InvalidPid(-1)))
    ));
}

#[test]
fn valid_pid_opens_device() {
    assert!(matches!(register_begin(1), RegisterAction::OpenDevice));
    assert!(matches!(register_begin(i32::MAX), RegisterAction::OpenDevice));
    assert!(matches!(
        register_begin(i32::MIN),
        RegisterAction::Finish(Err(RegisterError::InvalidPid(i32::MIN)))
    ));
}

#[test]
fn opened_device_gets_well_formed_request() {
    match register_after_open(4242, DeviceOpen::Opened, &UnavailableErrnos::from_libc()) {
        RegisterAction::Ioctl(args) => {
            assert_eq!(args.pid, 4242);
            assert_eq!(args.__pad, 0);
        }
        other => panic!("unexpected step {:?}", other),
    }
}

#[test]
fn missing_device_falls_back() {
    for code in [libc::ENOENT, libc::ENODEV, libc::ENOTTY, libc::EOPNOTSUPP] {
        let (err, errno) = os_error(code);
        assert!(matches!(
            register_after_open(77, DeviceOpen::Failed { err, errno }, &UnavailableErrnos::from_libc()),
            RegisterAction::Fallback(77)
        ));
    }
}

#[test]
fn open_failure_keeps_cause() {
    let (err, errno) = os_error(libc::EACCES);
    match register_after_open(77, DeviceOpen::Failed { err, errno }, &UnavailableErrnos::from_libc()) {
        RegisterAction::Finish(Err(RegisterError::OpenDevice(e))) => {
            assert_eq!(e.raw_os_error(), Some(libc::EACCES));
        }
        other => panic!("unexpected step {:?}", other),
    }
    let err = io::Error::new(io::ErrorKind::Other, "no os error");
    assert!(matches!(
        register_after_open(77, DeviceOpen::Failed { err, errno: None }, &UnavailableErrnos::from_libc()),
        RegisterAction::Finish(Err(RegisterError::OpenDevice(_)))
    ));
}

#[test]
fn ioctl_outcomes() {
    let (err, errno) = os_error(0);
    assert!(matches!(register_after_ioctl(5, 0, err, errno, &UnavailableErrnos::from_libc()), RegisterAction::Finish(Ok(()))));
    let (err, errno) = os_error(libc::ENOTTY);
    assert!(matches!(register_after_ioctl(5, -1, err, errno, &UnavailableErrnos::from_libc()), RegisterAction::Fallback(5)));
    let (err, errno) = os_error(libc::EPERM);
    match register_after_ioctl(5, -1, err, errno, &UnavailableErrnos::from_libc()) {
        RegisterAction::Finish(Err(RegisterError::Ioctl(e))) => {
            assert_eq!(e.raw_os_error(), Some(libc::EPERM));
        }
        other => panic!("unexpected step {:?}", other),
    }
}

#[test]
fn fallback_log_line() {
    assert_eq!(
        register_broker_fallback(123),
        "[FBPPID] fbppid kernel interface unavailable, skipping broker registration for pid 123\n"
    );
    assert_eq!(
        register_broker_fallback(-7),
        "[FBPPID] fbppid kernel interface unavailable, skipping broker registration for pid -7\n"
    );
    assert_eq!(
        register_broker_fallback(i32::MIN),
        format!(
            "[FBPPID] fbppid kernel interface unavailable, skipping broker registration for pid {}\n",
            i32::MIN
        )
    );
}

#[test]
fn klog_line_frames_message() {
    assert_eq!(klog_line("hello"), "[FBPPID] hello\n");
    assert_eq!(klog_line(""), "[FBPPID] \n");
}

#[test]
fn register_error_messages() {
    assert_eq!(RegisterError::InvalidPid(-3).message(), "fbppid: invalid broker PID: -3");
    let e = io::Error::from_raw_os_error(libc::EACCES);
    let text = e.to_string();
    assert_eq!(
        RegisterError::OpenDevice(e).message(),
        format!("fbppid: failed to open /dev/fbppid: {}", text)
    );
    let e = io::Error::from_raw_os_error(libc::EPERM);
    let text = e.to_string();
    assert_eq!(
        RegisterError::Ioctl(e).message(),
        format!("fbppid: REGISTER_BROKER ioctl failed: {}", text)
    );
}
