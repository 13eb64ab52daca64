//! What the library does when the kernel interface is unavailable: the log
//! line of the skipped broker registration, and the procfs path and parser
//! through which a parent PID is read from `/proc/<pid>/status`.
use vstd::prelude::*;
use vstd::string::StringExecFns;

use crate::status::{
    has_no_ppid_line, int_error_text, law_first_ppid_line_decides, law_no_ppid_line_not_found,
    parse_status_ppid, ppid_line_value, spec_status_ppid, starts_with_ppid_key, StatusParseError,
};
use crate::status::{law_parse_reads_decimal, parse_i32};
use crate::text::{decimal, push_decimal};

verus! {

broadcast use vstd::string::group_string_axioms;

/// The line written to the kernel log (and to stderr) for a fallback message.
pub open spec fn spec_klog_line(msg: Seq<char>) -> Seq<char> {
    "[FBPPID] "@ + msg + "\n"@
}

/// The kernel-log line of a fallback message: `"[FBPPID] {msg}\n"`.
pub fn klog_line(msg: &str) -> (line: String)
    ensures
        line@ == spec_klog_line(msg@),
{
    let mut line = String::new();
    line.append("[FBPPID] ");
    line.append(msg);
    line.append("\n");
    line
}

/// The message logged when broker registration is skipped.
pub open spec fn spec_register_fallback_message(pid: i32) -> Seq<char> {
    "fbppid kernel interface unavailable, skipping broker registration for pid "@ + decimal(
        pid as int,
    )
}

/// Fallback for broker registration when the kernel interface is
/// unavailable: registration is skipped, which is not an error. Returns the
/// kernel-log line that announces it; the caller writes it to `/dev/kmsg`
/// (where possible) and to stderr, and then reports success.
pub fn register_broker_fallback(pid: i32) -> (line: String)
    ensures
        line@ == spec_klog_line(spec_register_fallback_message(pid)),
        names_skipped_broker(line@, pid),
{
    proof {
        law_fallback_line_names_broker(pid);
    }
    let mut msg = String::new();
    msg.append("fbppid kernel interface unavailable, skipping broker registration for pid ");
    push_decimal(&mut msg, pid);
    klog_line(msg.as_str())
}

/// The announcement that registration is skipped, up to the PID.
pub open spec fn skipped_broker_prefix() -> Seq<char> {
    "[FBPPID] "@ + "fbppid kernel interface unavailable, skipping broker registration for pid "@
}

/// `line` is the skipped-registration announcement, ending in a newline,
/// and the number it names reads back as `pid`.
pub open spec fn names_skipped_broker(line: Seq<char>, pid: i32) -> bool {
    let pre = skipped_broker_prefix();
    &&& line.len() > pre.len() + 1
    &&& line.take(pre.len() as int) == pre
    &&& line[line.len() - 1] == '\n'
    &&& parse_i32(line.subrange(pre.len() as int, line.len() - 1)) == Ok::<
        i32,
        crate::status::IntErrorKind,
    >(pid)
}

/// The line logged for a skipped registration names the broker PID that
/// was asked for, whatever it is.
pub proof fn law_fallback_line_names_broker(pid: i32)
    ensures
        names_skipped_broker(spec_klog_line(spec_register_fallback_message(pid)), pid),
{
    reveal_strlit("[FBPPID] ");
    reveal_strlit("fbppid kernel interface unavailable, skipping broker registration for pid ");
    reveal_strlit("\n");
    let line = spec_klog_line(spec_register_fallback_message(pid));
    let pre = skipped_broker_prefix();
    let d = decimal(pid as int);
    law_parse_reads_decimal(pid);
    crate::status::lemma_decimal_len(if pid < 0 {
        (-pid) as nat
    } else {
        pid as nat
    });
    assert(line =~= pre + d + seq!['\n']);
    assert(line.take(pre.len() as int) =~= pre);
    assert(line.subrange(pre.len() as int, line.len() - 1) =~= d);
}

/// `/proc/<pid>/status`, with the PID in decimal.
pub open spec fn spec_status_path(pid: i32) -> Seq<char> {
    "/proc/"@ + decimal(pid as int) + "/status"@
}

/// `path` is `/proc/<n>/status` where `<n>` reads back as `pid`.
pub open spec fn names_status_file_of(path: Seq<char>, pid: i32) -> bool {
    &&& path.len() >= 13
    &&& path.take(6) == "/proc/"@
    &&& path.skip(path.len() - 7) == "/status"@
    &&& parse_i32(path.subrange(6, path.len() - 7)) == Ok::<i32, crate::status::IntErrorKind>(pid)
}

/// The status file that the fallback reads for a positive PID is that of
/// the PID itself: the number in its path reads back as the PID.
pub proof fn law_status_path_names_pid(pid: i32)
    requires
        pid > 0,
    ensures
        names_status_file_of(spec_status_path(pid), pid),
{
    reveal_strlit("/proc/");
    reveal_strlit("/status");
    let d = decimal(pid as int);
    let p = spec_status_path(pid);
    law_parse_reads_decimal(pid);
    crate::status::lemma_decimal_len(pid as nat);
    assert(p.take(6) =~= "/proc/"@);
    assert(p.skip(p.len() - 7) =~= "/status"@);
    assert(p.subrange(6, p.len() - 7) =~= d);
}

/// The kind of `std::io::Error` that a procfs fallback failure becomes.
#[derive(Debug, Clone, Copy, PartialEq, Eq, Structural)]
pub enum FallbackErrorKind {
    /// `std::io::ErrorKind::InvalidInput`.
    InvalidInput,
    /// `std::io::ErrorKind::InvalidData`.
    InvalidData,
}

/// A failure of the procfs fallback other than reading the file: the kind
/// and the message of the `std::io::Error` it is reported as.
#[derive(Debug)]
pub struct FallbackFailure {
    pub kind: FallbackErrorKind,
    pub message: String,
}

impl View for FallbackFailure {
    type V = (FallbackErrorKind, Seq<char>);

    open spec fn view(&self) -> (FallbackErrorKind, Seq<char>) {
        (self.kind, self.message@)
    }
}

/// What the procfs fallback gives for `pid` before reading: the path of the
/// status file, or, for a PID that is not positive, an `InvalidInput`
/// failure `invalid pid: <pid>`.
pub open spec fn spec_fallback_path(pid: i32) -> Result<Seq<char>, (FallbackErrorKind, Seq<char>)> {
    if pid <= 0 {
        Err((FallbackErrorKind::InvalidInput, "invalid pid: "@ + decimal(pid as int)))
    } else {
        Ok(spec_status_path(pid))
    }
}

/// What the procfs fallback gives for `pid` once it has read `content` from
/// `path`: the parent PID, or an `InvalidData` failure that names the PID
/// and the path.
pub open spec fn spec_fallback_ppid(pid: i32, path: Seq<char>, content: Seq<char>) -> Result<
    i32,
    (FallbackErrorKind, Seq<char>),
> {
    match spec_status_ppid(content) {
        Ok(ppid) => Ok(ppid),
        Err(StatusParseError::FieldNotFound) => Err(
            (
                FallbackErrorKind::InvalidData,
                "PPid field not found for pid "@ + decimal(pid as int) + " in "@ + path,
            ),
        ),
        Err(StatusParseError::InvalidPpid(kind)) => Err(
            (
                FallbackErrorKind::InvalidData,
                "failed to parse PPid for pid "@ + decimal(pid as int) + " from "@ + path + ": "@
                    + int_error_text(kind),
            ),
        ),
    }
}

/// The procfs status file of `pid`, or the failure that the fallback
/// reports for a PID that is not positive.
pub fn status_path(pid: i32) -> (r: Result<String, FallbackFailure>)
    ensures
        match r {
            Ok(path) => spec_fallback_path(pid) == Ok::<
                Seq<char>,
                (FallbackErrorKind, Seq<char>),
            >(path@),
            Err(failure) => spec_fallback_path(pid) == Err::<
                Seq<char>,
                (FallbackErrorKind, Seq<char>),
            >(failure@),
        },
        pid <= 0 ==> (r matches Err(failure) && failure.kind == FallbackErrorKind::InvalidInput),
        pid > 0 ==> (r matches Ok(path) && names_status_file_of(path@, pid)),
{
    proof {
        if pid > 0 {
            law_status_path_names_pid(pid);
        }
    }
    if pid <= 0 {
        let mut message = String::new();
        message.append("invalid pid: ");
        push_decimal(&mut message, pid);
        return Err(FallbackFailure { kind: FallbackErrorKind::InvalidInput, message });
    }
    let mut path = String::new();
    path.append("/proc/");
    push_decimal(&mut path, pid);
    path.append("/status");
    Ok(path)
}

/// The parent PID that the status text `content`, read from `path`, gives
/// for `pid`, or the failure the fallback reports for it.
pub fn ppid_from_status(pid: i32, path: &str, content: &str) -> (r: Result<i32, FallbackFailure>)
    ensures
        match r {
            Ok(ppid) => spec_fallback_ppid(pid, path@, content@) == Ok::<
                i32,
                (FallbackErrorKind, Seq<char>),
            >(ppid),
            Err(failure) => spec_fallback_ppid(pid, path@, content@) == Err::<
                i32,
                (FallbackErrorKind, Seq<char>),
            >(failure@),
        },
{
    match parse_status_ppid(content) {
        Ok(ppid) => Ok(ppid),
        Err(StatusParseError::FieldNotFound) => {
            let mut message = String::new();
            message.append("PPid field not found for pid ");
            push_decimal(&mut message, pid);
            message.append(" in ");
            message.append(path);
            Err(FallbackFailure { kind: FallbackErrorKind::InvalidData, message })
        },
        Err(StatusParseError::InvalidPpid(kind)) => {
            let mut message = String::new();
            message.append("failed to parse PPid for pid ");
            push_decimal(&mut message, pid);
            message.append(" from ");
            message.append(path);
            message.append(": ");
            message.append(kind.description());
            Err(FallbackFailure { kind: FallbackErrorKind::InvalidData, message })
        },
    }
}

/// The procfs fallback answers with the value of the first line that
/// starts with `PPid:` (trimmed, read as an `i32`) when it parses; when it
/// does not, the answer is an `InvalidData` failure, even if a later
/// `PPid:` line would parse. Lines before it that do not start with
/// `PPid:` do not matter.
pub proof fn law_fallback_first_ppid_line(
    pid: i32,
    path: Seq<char>,
    pre: Seq<char>,
    line: Seq<char>,
    post: Seq<char>,
)
    requires
        pre.len() == 0 || pre[pre.len() - 1] == '\n',
        has_no_ppid_line(pre),
        starts_with_ppid_key(line),
        forall|j: int| 0 <= j < line.len() ==> line[j] != '\n',
        post.len() == 0 || post[0] == '\n',
    ensures
        forall|ppid: i32|
            ppid_line_value(line) == Ok::<i32, StatusParseError>(ppid) ==> #[trigger] spec_fallback_ppid(
                pid,
                path,
                pre + line + post,
            ) == Ok::<i32, (FallbackErrorKind, Seq<char>)>(ppid),
        ppid_line_value(line) is Err ==> (spec_fallback_ppid(pid, path, pre + line + post) matches Err(
            failure,
        ) && failure.0 == FallbackErrorKind::InvalidData),
{
    law_first_ppid_line_decides(pre, line, post);
}

/// A status text without a `PPid:` line makes the fallback fail with
/// `InvalidData`; a PID that is not positive makes it fail with
/// `InvalidInput` before anything is read.
pub proof fn law_fallback_failures(pid: i32, path: Seq<char>, content: Seq<char>)
    ensures
        has_no_ppid_line(content) ==> (spec_fallback_ppid(pid, path, content) matches Err(failure)
            && failure.0 == FallbackErrorKind::InvalidData),
        pid <= 0 ==> (spec_fallback_path(pid) matches Err(failure) && failure.0
            == FallbackErrorKind::InvalidInput),
        pid > 0 ==> spec_fallback_path(pid) == Ok::<Seq<char>, (FallbackErrorKind, Seq<char>)>(
            spec_status_path(pid),
        ),
{
    if has_no_ppid_line(content) {
        law_no_ppid_line_not_found(content);
    }
}

} // verus!
