//! Querying the current parent PID of a process (done by the broker).
//!
//! The backend is chosen once per process: the kernel device when it opens,
//! the procfs fallback when the kernel interface is unavailable. The caller
//! keeps the choice and runs the steps: `query_begin` with the backend
//! chosen so far; when asked, it opens the device and lets
//! `select_backend` choose, then begins again with that backend; when
//! asked, it issues `QUERY_PPID` and reports to `query_after_ioctl`; when
//! asked, it reads procfs and reports to `finish_fallback`.
use vstd::prelude::*;

use vstd::string::{to_string_from_display_ensures, StringExecFns};

use crate::device::{open_failure_text, spec_open_failure_text, DeviceOpen};
use crate::text::{decimal, push_decimal};
use crate::errno::{should_fallback, spec_should_fallback, UnavailableErrnos};
use crate::fbppid_uapi::FbppidQueryArgs;

verus! {

/// Why a parent PID query failed.
#[derive(Debug)]
pub enum QueryError {
    /// The device could not be opened, or the procfs fallback failed while
    /// it is the chosen backend.
    OpenDevice(std::io::Error),
    /// The target PID is not positive.
    InvalidPid(i32),
    /// The `QUERY_PPID` ioctl failed, or the procfs fallback taken after it
    /// reported the interface unavailable failed.
    Ioctl(std::io::Error),
}

/// Message of `InvalidPid(pid)`.
pub open spec fn spec_query_invalid_pid_text(pid: i32) -> Seq<char> {
    "fbppid: invalid target PID: "@ + decimal(pid as int)
}

/// Message of an ioctl failure, `cause` being the text of the OS error.
pub open spec fn spec_query_ioctl_text(cause: Seq<char>) -> Seq<char> {
    "fbppid: QUERY_PPID ioctl failed: "@ + cause
}

/// The message of an error, with `cause` the text of the OS error it carries.
pub open spec fn spec_query_error_text(e: QueryError, cause: Seq<char>) -> Seq<char> {
    match e {
        QueryError::OpenDevice(_) => spec_open_failure_text(cause),
        QueryError::InvalidPid(pid) => spec_query_invalid_pid_text(pid),
        QueryError::Ioctl(_) => spec_query_ioctl_text(cause),
    }
}

impl QueryError {
    /// `fbppid: invalid target PID: <pid>`.
    pub fn invalid_pid_text(pid: i32) -> (r: String)
        ensures
            r@ == spec_query_invalid_pid_text(pid),
    {
        let mut r = String::new();
        r.append("fbppid: invalid target PID: ");
        push_decimal(&mut r, pid);
        r
    }

    /// `fbppid: QUERY_PPID ioctl failed: <cause>`.
    pub fn ioctl_text(cause: &str) -> (r: String)
        ensures
            r@ == spec_query_ioctl_text(cause@),
    {
        let mut r = String::new();
        r.append("fbppid: QUERY_PPID ioctl failed: ");
        r.append(cause);
        r
    }

    /// The error's message; the OS error it carries is rendered by its
    /// `Display`.
    pub fn message(&self) -> (r: String)
        ensures
            match self {
                QueryError::InvalidPid(pid) => r@ == spec_query_error_text(*self, Seq::empty()),
                QueryError::OpenDevice(e) => exists|cause: String|
                    to_string_from_display_ensures::<std::io::Error>(e, cause) && r@
                        == spec_query_error_text(*self, cause@),
                QueryError::Ioctl(e) => exists|cause: String|
                    to_string_from_display_ensures::<std::io::Error>(e, cause) && r@
                        == spec_query_error_text(*self, cause@),
            },
    {
        match self {
            QueryError::OpenDevice(e) => {
                let cause = e.to_string();
                open_failure_text(cause.as_str())
            },
            QueryError::InvalidPid(pid) => Self::invalid_pid_text(*pid),
            QueryError::Ioctl(e) => {
                let cause = e.to_string();
                Self::ioctl_text(cause.as_str())
            },
        }
    }
}

/// The backend that answers queries for the rest of the process's life.
#[derive(Debug, Clone, Copy, PartialEq, Eq, Structural)]
pub enum QueryBackendKind {
    /// The open `/dev/fbppid` device.
    Kernel,
    /// `/proc/<pid>/status`.
    Fallback,
}

/// Why a query goes to procfs, which decides the error a procfs failure becomes.
#[derive(Debug, Clone, Copy, PartialEq, Eq, Structural)]
pub enum FallbackRoute {
    /// The procfs backend was chosen for the process: failures are `OpenDevice`.
    Backend,
    /// The ioctl reported the interface unavailable: failures are `Ioctl`.
    IoctlUnavailable,
}

/// What a parent PID query does next.
#[derive(Debug)]
pub enum QueryAction {
    /// No backend is chosen yet: open `/dev/fbppid` read-only and
    /// close-on-exec, let `select_backend` choose, keep the choice, and
    /// begin again with it.
    InitBackend,
    /// Issue `QUERY_PPID` with this argument on the kept device, and report
    /// to `query_after_ioctl`.
    Ioctl(FbppidQueryArgs),
    /// Read the parent PID of this process from procfs, and report to
    /// `finish_fallback` with the route.
    ProcFallback(i32, FallbackRoute),
    /// The query is over, with this result.
    Finish(Result<i32, QueryError>),
}

/// The query request for `pid`.
pub open spec fn query_request(pid: i32) -> FbppidQueryArgs {
    FbppidQueryArgs { pid, ppid: 0, flags: 0, __pad: 0 }
}

pub open spec fn spec_query_begin(pid: i32, backend: Option<QueryBackendKind>) -> QueryAction {
    if pid <= 0 {
        QueryAction::Finish(Err(QueryError::InvalidPid(pid)))
    } else {
        match backend {
            None => QueryAction::InitBackend,
            Some(QueryBackendKind::Fallback) => QueryAction::ProcFallback(pid, FallbackRoute::Backend),
            Some(QueryBackendKind::Kernel) => QueryAction::Ioctl(query_request(pid)),
        }
    }
}

pub open spec fn spec_select_backend(open: DeviceOpen, unavailable: UnavailableErrnos) -> Result<
    QueryBackendKind,
    QueryError,
> {
    match open {
        DeviceOpen::Opened => Ok(QueryBackendKind::Kernel),
        DeviceOpen::Failed { err, errno } => if spec_should_fallback(errno, unavailable) {
            Ok(QueryBackendKind::Fallback)
        } else {
            Err(QueryError::OpenDevice(err))
        },
    }
}

pub open spec fn spec_query_after_ioctl(
    pid: i32,
    ret: i32,
    reply: FbppidQueryArgs,
    err: std::io::Error,
    errno: Option<i32>,
    unavailable: UnavailableErrnos,
) -> QueryAction {
    if ret >= 0 {
        QueryAction::Finish(Ok(reply.ppid))
    } else if spec_should_fallback(errno, unavailable) {
        QueryAction::ProcFallback(pid, FallbackRoute::IoctlUnavailable)
    } else {
        QueryAction::Finish(Err(QueryError::Ioctl(err)))
    }
}

pub open spec fn spec_finish_fallback(route: FallbackRoute, procfs: Result<i32, std::io::Error>) -> Result<
    i32,
    QueryError,
> {
    match procfs {
        Ok(ppid) => Ok(ppid),
        Err(e) => match route {
            FallbackRoute::Backend => Err(QueryError::OpenDevice(e)),
            FallbackRoute::IoctlUnavailable => Err(QueryError::Ioctl(e)),
        },
    }
}

/// First step of querying the parent PID of `pid`, with the backend chosen
/// so far (`None` before the first choice): a PID that is not positive is
/// refused before any backend is set up, and every later step asks about
/// `pid` itself.
pub fn query_begin(pid: i32, backend: Option<QueryBackendKind>) -> (r: QueryAction)
    ensures
        r == spec_query_begin(pid, backend),
        pid <= 0 ==> r == QueryAction::Finish(Err(QueryError::InvalidPid(pid))),
        pid > 0 && backend is None ==> r == QueryAction::InitBackend,
        pid > 0 && backend == Some(QueryBackendKind::Fallback) ==> r == QueryAction::ProcFallback(
            pid,
            FallbackRoute::Backend,
        ),
        pid > 0 && backend == Some(QueryBackendKind::Kernel) ==> r == QueryAction::Ioctl(
            FbppidQueryArgs { pid, ppid: 0, flags: 0, __pad: 0 },
        ),
{
    if pid <= 0 {
        return QueryAction::Finish(Err(QueryError::InvalidPid(pid)));
    }
    match backend {
        None => QueryAction::InitBackend,
        Some(QueryBackendKind::Fallback) => QueryAction::ProcFallback(pid, FallbackRoute::Backend),
        Some(QueryBackendKind::Kernel) => QueryAction::Ioctl(
            FbppidQueryArgs { pid, ppid: 0, flags: 0, __pad: 0 },
        ),
    }
}

/// Chooses the backend from the outcome of opening the device: the device
/// when it opened, procfs when the kernel interface is unavailable, and
/// otherwise the open error.
pub fn select_backend(open: DeviceOpen, unavailable: &UnavailableErrnos) -> (r: Result<
    QueryBackendKind,
    QueryError,
>)
    ensures
        r == spec_select_backend(open, *unavailable),
        open is Opened ==> r == Ok::<QueryBackendKind, QueryError>(QueryBackendKind::Kernel),
        (open matches DeviceOpen::Failed { errno: Some(e), .. } && unavailable.contains(e)) ==> r
            == Ok::<QueryBackendKind, QueryError>(QueryBackendKind::Fallback),
        match open {
            DeviceOpen::Failed { err, errno } => !(errno matches Some(e) && unavailable.contains(e))
                ==> r == Err::<QueryBackendKind, QueryError>(QueryError::OpenDevice(err)),
            DeviceOpen::Opened => true,
        },
{
    match open {
        DeviceOpen::Opened => Ok(QueryBackendKind::Kernel),
        DeviceOpen::Failed { err, errno } => {
            if should_fallback(errno, unavailable) {
                Ok(QueryBackendKind::Fallback)
            } else {
                Err(QueryError::OpenDevice(err))
            }
        },
    }
}

/// Step after the ioctl returned `ret`, with `reply` the argument as the
/// kernel left it and `err` (number `errno`) the OS error read right after:
/// on success the kernel's answer, on failure procfs for the same `pid`
/// when the interface is unavailable, and otherwise the ioctl error.
pub fn query_after_ioctl(
    pid: i32,
    ret: i32,
    reply: FbppidQueryArgs,
    err: std::io::Error,
    errno: Option<i32>,
    unavailable: &UnavailableErrnos,
) -> (r: QueryAction)
    ensures
        r == spec_query_after_ioctl(pid, ret, reply, err, errno, *unavailable),
        ret >= 0 ==> r == QueryAction::Finish(Ok(reply.ppid)),
        ret < 0 && (errno matches Some(e) && unavailable.contains(e)) ==> r
            == QueryAction::ProcFallback(pid, FallbackRoute::IoctlUnavailable),
        ret < 0 && !(errno matches Some(e) && unavailable.contains(e)) ==> r == QueryAction::Finish(
            Err(QueryError::Ioctl(err)),
        ),
{
    if ret >= 0 {
        QueryAction::Finish(Ok(reply.ppid))
    } else if should_fallback(errno, unavailable) {
        QueryAction::ProcFallback(pid, FallbackRoute::IoctlUnavailable)
    } else {
        QueryAction::Finish(Err(QueryError::Ioctl(err)))
    }
}

/// Last step of a query answered by procfs: its value, or its error as the
/// route says.
pub fn finish_fallback(route: FallbackRoute, procfs: Result<i32, std::io::Error>) -> (r: Result<
    i32,
    QueryError,
>)
    ensures
        r == spec_finish_fallback(route, procfs),
        match procfs {
            Ok(ppid) => r == Ok::<i32, QueryError>(ppid),
            Err(e) => {
                &&& route == FallbackRoute::Backend ==> r == Err::<i32, QueryError>(
                    QueryError::OpenDevice(e),
                )
                &&& route == FallbackRoute::IoctlUnavailable ==> r == Err::<i32, QueryError>(
                    QueryError::Ioctl(e),
                )
            },
        },
{
    match procfs {
        Ok(ppid) => Ok(ppid),
        Err(e) => match route {
            FallbackRoute::Backend => Err(QueryError::OpenDevice(e)),
            FallbackRoute::IoctlUnavailable => Err(QueryError::Ioctl(e)),
        },
    }
}

/// What reading `/proc/<pid>/status` gives, for each PID.
pub type ProcfsAnswers = spec_fn(i32) -> Result<i32, std::io::Error>;

/// The result a step settles the query with: a finished step gives its
/// result, a procfs step gives what `finish_fallback` makes of what procfs
/// answers for the PID the step names. (The steps that continue the query
/// settle nothing.)
pub open spec fn query_settled(action: QueryAction, procfs: ProcfsAnswers) -> Result<
    i32,
    QueryError,
> {
    match action {
        QueryAction::Finish(result) => result,
        QueryAction::ProcFallback(target, route) => spec_finish_fallback(route, procfs(target)),
        _ => arbitrary(),
    }
}

/// The result of the query from the step `action` on, once a backend is chosen.
pub open spec fn query_continued(
    action: QueryAction,
    ret: i32,
    reply: FbppidQueryArgs,
    err: std::io::Error,
    errno: Option<i32>,
    procfs: ProcfsAnswers,
    unavailable: UnavailableErrnos,
) -> Result<i32, QueryError> {
    match action {
        QueryAction::Ioctl(request) => query_settled(
            spec_query_after_ioctl(request.pid, ret, reply, err, errno, unavailable),
            procfs,
        ),
        _ => query_settled(action, procfs),
    }
}

/// The result that querying `pid` ends with, given the backend chosen so
/// far, how opening the device would turn out, the ioctl's return value
/// `ret`, the argument `reply` as the kernel leaves it and the OS error
/// `err` (number `errno`) read after it, and what procfs answers for each PID.
pub open spec fn spec_query_result(
    pid: i32,
    backend: Option<QueryBackendKind>,
    open: DeviceOpen,
    ret: i32,
    reply: FbppidQueryArgs,
    err: std::io::Error,
    errno: Option<i32>,
    procfs: ProcfsAnswers,
    unavailable: UnavailableErrnos,
) -> Result<i32, QueryError> {
    match spec_query_begin(pid, backend) {
        QueryAction::InitBackend => match spec_select_backend(open, unavailable) {
            Err(e) => Err(e),
            Ok(kind) => query_continued(
                spec_query_begin(pid, Some(kind)),
                ret,
                reply,
                err,
                errno,
                procfs,
                unavailable,
            ),
        },
        action => query_continued(action, ret, reply, err, errno, procfs, unavailable),
    }
}

/// A target PID that is not positive is refused with `InvalidPid`, whatever
/// the backend, and no backend is set up for it.
pub proof fn law_query_rejects_invalid_pid(
    pid: i32,
    backend: Option<QueryBackendKind>,
    open: DeviceOpen,
    ret: i32,
    reply: FbppidQueryArgs,
    err: std::io::Error,
    errno: Option<i32>,
    procfs: ProcfsAnswers,
    unavailable: UnavailableErrnos,
)
    requires
        pid <= 0,
    ensures
        spec_query_begin(pid, backend) == QueryAction::Finish(Err(QueryError::InvalidPid(pid))),
        spec_query_result(pid, backend, open, ret, reply, err, errno, procfs, unavailable) == Err::<
            i32,
            QueryError,
        >(QueryError::InvalidPid(pid)),
{
}

/// Once a backend is chosen, no query opens the device again: its result
/// does not depend on what opening the device would give.
pub proof fn law_query_backend_chosen_once(
    pid: i32,
    kind: QueryBackendKind,
    open1: DeviceOpen,
    open2: DeviceOpen,
    ret: i32,
    reply: FbppidQueryArgs,
    err: std::io::Error,
    errno: Option<i32>,
    procfs: ProcfsAnswers,
    unavailable: UnavailableErrnos,
)
    ensures
        spec_query_begin(pid, Some(kind)) != QueryAction::InitBackend,
        spec_query_result(pid, Some(kind), open1, ret, reply, err, errno, procfs, unavailable)
            == spec_query_result(pid, Some(kind), open2, ret, reply, err, errno, procfs, unavailable),
{
}

/// The first query chooses the device when it opens and procfs exactly when
/// the open failed with a number that means the interface is unavailable;
/// any other open failure is the query's `OpenDevice` error. After the
/// choice it ends as every later query with that backend does.
pub proof fn law_query_first_choice(
    pid: i32,
    open: DeviceOpen,
    open_err: std::io::Error,
    open_errno: Option<i32>,
    ret: i32,
    reply: FbppidQueryArgs,
    err: std::io::Error,
    errno: Option<i32>,
    procfs: ProcfsAnswers,
    unavailable: UnavailableErrnos,
)
    requires
        pid > 0,
    ensures
        spec_query_begin(pid, None) == QueryAction::InitBackend,
        spec_select_backend(DeviceOpen::Opened, unavailable) == Ok::<QueryBackendKind, QueryError>(
            QueryBackendKind::Kernel,
        ),
        (open_errno matches Some(e) && unavailable.contains(e)) ==> spec_select_backend(
            DeviceOpen::Failed { err: open_err, errno: open_errno },
            unavailable,
        ) == Ok::<QueryBackendKind, QueryError>(QueryBackendKind::Fallback),
        !(open_errno matches Some(e) && unavailable.contains(e)) ==> spec_query_result(
            pid,
            None,
            DeviceOpen::Failed { err: open_err, errno: open_errno },
            ret,
            reply,
            err,
            errno,
            procfs,
            unavailable,
        ) == Err::<i32, QueryError>(QueryError::OpenDevice(open_err)),
        forall|kind: QueryBackendKind|
            spec_select_backend(open, unavailable) == Ok::<QueryBackendKind, QueryError>(kind)
                ==> #[trigger] spec_query_result(
                pid,
                Some(kind),
                open,
                ret,
                reply,
                err,
                errno,
                procfs,
                unavailable,
            ) == spec_query_result(pid, None, open, ret, reply, err, errno, procfs, unavailable),
{
}

/// With the device as backend the kernel is asked about the queried PID in
/// a well-formed request, and a successful ioctl answers with the parent
/// PID that the kernel wrote, unchanged; a failure whose number does not
/// mean the interface is unavailable is the query's `Ioctl` error.
pub proof fn law_query_kernel_answer(
    pid: i32,
    open: DeviceOpen,
    ret: i32,
    reply: FbppidQueryArgs,
    err: std::io::Error,
    errno: Option<i32>,
    procfs: ProcfsAnswers,
    unavailable: UnavailableErrnos,
)
    requires
        pid > 0,
    ensures
        spec_query_begin(pid, Some(QueryBackendKind::Kernel)) matches QueryAction::Ioctl(request)
            && request.pid == pid && request.is_well_formed_request(),
        ret >= 0 ==> spec_query_result(
            pid,
            Some(QueryBackendKind::Kernel),
            open,
            ret,
            reply,
            err,
            errno,
            procfs,
            unavailable,
        ) == Ok::<i32, QueryError>(reply.ppid),
        ret < 0 && !(errno matches Some(e) && unavailable.contains(e)) ==> spec_query_result(
            pid,
            Some(QueryBackendKind::Kernel),
            open,
            ret,
            reply,
            err,
            errno,
            procfs,
            unavailable,
        ) == Err::<i32, QueryError>(QueryError::Ioctl(err)),
{
}

/// procfs answers the query when it is the backend, and when the ioctl
/// fails with a number that means the interface is unavailable; either way
/// it is asked about the queried PID itself. Its value is returned
/// unchanged, and its failure becomes `OpenDevice` in the first case and
/// `Ioctl` in the second.
pub proof fn law_query_procfs_answer(
    pid: i32,
    open: DeviceOpen,
    ret: i32,
    reply: FbppidQueryArgs,
    err: std::io::Error,
    errno: Option<i32>,
    procfs: ProcfsAnswers,
    unavailable: UnavailableErrnos,
)
    requires
        pid > 0,
    ensures
        spec_query_begin(pid, Some(QueryBackendKind::Fallback)) matches QueryAction::ProcFallback(
            target,
            _,
        ) && target == pid,
        spec_query_result(
            pid,
            Some(QueryBackendKind::Fallback),
            open,
            ret,
            reply,
            err,
            errno,
            procfs,
            unavailable,
        ) == match procfs(pid) {
            Ok(ppid) => Ok::<i32, QueryError>(ppid),
            Err(e) => Err::<i32, QueryError>(QueryError::OpenDevice(e)),
        },
        ret < 0 && (errno matches Some(e) && unavailable.contains(e)) ==> spec_query_result(
            pid,
            Some(QueryBackendKind::Kernel),
            open,
            ret,
            reply,
            err,
            errno,
            procfs,
            unavailable,
        ) == match procfs(pid) {
            Ok(ppid) => Ok::<i32, QueryError>(ppid),
            Err(e) => Err::<i32, QueryError>(QueryError::Ioctl(e)),
        },
{
}

} // verus!
