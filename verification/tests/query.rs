use std::io;

use fbppid_rs::{
    finish_fallback, query_after_ioctl, query_begin, select_backend, DeviceOpen, FallbackRoute,
    FbppidQueryArgs, QueryAction, QueryBackendKind, QueryError, UnavailableErrnos,
};

fn os_error(code: i32) -> (io::Error, Option<i32>) {
    let err = io::Error::from_raw_os_error(code);
    let errno = err.raw_os_error();
    (err, errno)
}

#[test]
fn fbppid_query_reject_invalid_pid() {
    assert!(matches!(
        query_begin(0, None),
        QueryAction::Finish(Err(QueryError::InvalidPid(0)))
    ));
    assert!(matches!(
        query_begin(-1, None),
        QueryAction::Finish(Err(QueryError::InvalidPid(-1)))
    ));
}

#[test]
fn invalid_pid_rejected_with_any_backend() {
    for backend in [None, Some(QueryBackendKind::Kernel), Some(QueryBackendKind::Fallback)] {
        assert!(matches!(
            query_begin(-42, backend),
            QueryAction::Finish(Err(QueryError::InvalidPid(-42)))
        ));
    }
}

#[test]
fn backend_chosen_once() {
    assert!(matches!(query_begin(10, None), QueryAction::InitBackend));
    match query_begin(10, Some(QueryBackendKind::Kernel)) {
        QueryAction::Ioctl(args) => {
            assert_eq!((args.pid, args.ppid, args.flags, args.__pad), (10, 0, 0, 0));
        }
        other => panic!("unexpected step {:?}", other),
    }
    assert!(matches!(
        query_begin(10, Some(QueryBackendKind::Fallback)),
        QueryAction::ProcFallback(10, FallbackRoute::Backend)
    ));
}

#[test]
fn backend_selection() {
    assert!(matches!(select_backend(DeviceOpen::Opened, &UnavailableErrnos::from_libc()), Ok(QueryBackendKind::Kernel)));
    let (err, errno) = os_error(libc::ENOENT);
    assert!(matches!(
        select_backend(DeviceOpen::Failed { err, errno }, &UnavailableErrnos::from_libc()),
        Ok(QueryBackendKind::Fallback)
    ));
    let (err, errno) = os_error(libc::EACCES);
    match select_backend(DeviceOpen::Failed { err, errno }, &UnavailableErrnos::from_libc()) {
        Err(QueryError::OpenDevice(e)) => assert_eq!(e.raw_os_error(), Some(libc::EACCES)),
        other => panic!("unexpected choice {:?}", other),
    }
}

#[test]
fn kernel_answer_passed_through() {
    let reply = FbppidQueryArgs { pid: 300, ppid: 17, flags: 0, __pad: 0 };
    let (err, errno) = os_error(0);
    assert!(matches!(
        query_after_ioctl(300, 0, reply, err, errno, &UnavailableErrnos::from_libc()),
        QueryAction::Finish(Ok(17))
    ));
    let (err, errno) = os_error(libc::EOPNOTSUPP);
    assert!(matches!(
        query_after_ioctl(300, -1, reply, err, errno, &UnavailableErrnos::from_libc()),
        QueryAction::ProcFallback(300, FallbackRoute::IoctlUnavailable)
    ));
    let (err, errno) = os_error(libc::ESRCH);
    match query_after_ioctl(300, -1, reply, err, errno, &UnavailableErrnos::from_libc()) {
        QueryAction::Finish(Err(QueryError::Ioctl(e))) => {
            assert_eq!(e.raw_os_error(), Some(libc::ESRCH))
        }
        other => panic!("unexpected step {:?}", other),
    }
}

#[test]
fn procfs_errors_follow_route() {
    assert!(matches!(finish_fallback(FallbackRoute::Backend, Ok(9)), Ok(9)));
    assert!(matches!(finish_fallback(FallbackRoute::IoctlUnavailable, Ok(9)), Ok(9)));
    let e = io::Error::new(io::ErrorKind::NotFound, "gone");
    assert!(matches!(
        finish_fallback(FallbackRoute::Backend, Err(e)),
        Err(QueryError::OpenDevice(_))
    ));
    let e = io::Error::new(io::ErrorKind::NotFound, "gone");
    assert!(matches!(
        finish_fallback(FallbackRoute::IoctlUnavailable, Err(e)),
        Err(QueryError::Ioctl(_))
    ));
}

#[test]
fn query_error_messages() {
    assert_eq!(QueryError::InvalidPid(0).message(), "fbppid: invalid target PID: 0");
    let e = io::Error::from_raw_os_error(libc::ENOENT);
    let text = e.to_string();
    assert_eq!(
        QueryError::OpenDevice(e).message(),
        format!("fbppid: failed to open /dev/fbppid: {}", text)
    );
    let e = io::Error::from_raw_os_error(libc::ESRCH);
    let text = e.to_string();
    assert_eq!(
        QueryError::Ioctl(e).message(),
        format!("fbppid: QUERY_PPID ioctl failed: {}", text)
    );
}
