//! Log files of the UI and the agent: their names, the lines written to
//! them, and when and how they are rotated.

use vstd::prelude::*;
use crate::text::{append_chars, chars_of, decimal, decimal_u64, push_str, string_of};

verus! {

/// How many rotated files are kept besides the current log.
pub const MAX_LOG_FILES: usize = 5;

/// The size from which the current log is rotated.
pub const MAX_LOG_SIZE_BYTES: u64 = 2 * 1024 * 1024;

/// Which program writes a log.
#[derive(Debug, Clone, Copy, PartialEq, Eq, Structural)]
pub enum LogTarget {
    Ui,
    Agent,
}

/// The file name of a program's log.
pub open spec fn log_name(target: LogTarget) -> Seq<char> {
    match target {
        LogTarget::Ui => "goldenstorm_ui.log"@,
        LogTarget::Agent => "goldenstorm_agent.log"@,
    }
}

/// The file name of a program's log.
pub fn log_file_base(target: LogTarget) -> (r: &'static str)
    ensures
        r@ == log_name(target),
{
    match target {
        LogTarget::Ui => "goldenstorm_ui.log",
        LogTarget::Agent => "goldenstorm_agent.log",
    }
}

/// One message to be appended to a program's log.
#[derive(Debug)]
pub struct LogRecord {
    pub target: LogTarget,
    pub level: String,
    pub msg: String,
}

/// A record at the given level.
pub fn log_line(target: LogTarget, level: &str, msg: &str) -> (r: LogRecord)
    ensures
        r.target == target,
        r.level@ == level@,
        r.msg@ == msg@,
{
    LogRecord { target, level: String::from_str(level), msg: String::from_str(msg) }
}

/// An informational record.
pub fn info(target: LogTarget, msg: &str) -> (r: LogRecord)
    ensures
        r.target == target,
        r.level@ == "INFO"@,
        r.msg@ == msg@,
{
    log_line(target, "INFO", msg)
}

/// A warning record.
pub fn warn(target: LogTarget, msg: &str) -> (r: LogRecord)
    ensures
        r.target == target,
        r.level@ == "WARN"@,
        r.msg@ == msg@,
{
    log_line(target, "WARN", msg)
}

/// An error record.
pub fn error(target: LogTarget, msg: &str) -> (r: LogRecord)
    ensures
        r.target == target,
        r.level@ == "ERROR"@,
        r.msg@ == msg@,
{
    log_line(target, "ERROR", msg)
}

/// The text of a log line: `[timestamp] [level] message`.
pub open spec fn line_text(timestamp: Seq<char>, level: Seq<char>, msg: Seq<char>) -> Seq<char> {
    "["@ + timestamp + "] ["@ + level + "] "@ + msg
}

impl LogRecord {
    /// The line written for this record at the given time stamp.
    pub fn line(&self, timestamp: &str) -> (r: String)
        ensures
            r@ == line_text(timestamp@, self.level@, self.msg@),
    {
        let mut v = chars_of("[");
        push_str(&mut v, timestamp);
        push_str(&mut v, "] [");
        push_str(&mut v, self.level.as_str());
        push_str(&mut v, "] ");
        push_str(&mut v, self.msg.as_str());
        string_of(&v)
    }
}

/// Whether the current log is rotated: it exists and has reached the size
/// limit.
pub fn needs_rotation(exists: bool, len: u64) -> (r: bool)
    ensures
        r == (exists && len >= MAX_LOG_SIZE_BYTES),
{
    exists && len >= MAX_LOG_SIZE_BYTES
}

/// The name of rotated log number `n`: `base.n`.
pub open spec fn numbered(base: Seq<char>, n: nat) -> Seq<char> {
    base + "."@ + decimal(n)
}

/// The file that becomes rotated log number `i`: the current log for the
/// first, rotated log `i - 1` for the others.
pub open spec fn rename_source(base: Seq<char>, i: nat) -> Seq<char> {
    if i == 1 {
        base
    } else {
        numbered(base, (i - 1) as nat)
    }
}

fn numbered_name(base: &str, n: u64) -> (r: String)
    ensures
        r@ == numbered(base@, n as nat),
{
    let mut v = chars_of(base);
    push_str(&mut v, ".");
    let d = decimal_u64(n);
    append_chars(&mut v, &d);
    string_of(&v)
}

/// The renames of one rotation, in the order they are made: for `i` from
/// the number of kept files down to 1, rotated log `i - 1` (the current log
/// when `i` is 1) becomes rotated log `i`, so that the oldest is
/// overwritten first and no file is lost before it is moved.
pub fn rotation_renames(base: &str) -> (r: Vec<(String, String)>)
    ensures
        r.len() == MAX_LOG_FILES,
        forall|k: int|
            0 <= k < r.len() ==> (#[trigger] r@[k]).0@ == rename_source(
                base@,
                (MAX_LOG_FILES - k) as nat,
            ) && r@[k].1@ == numbered(base@, (MAX_LOG_FILES - k) as nat),
        forall|k: int| 1 <= k < r.len() ==> (#[trigger] r@[k]).1@ == r@[k - 1].0@,
        r@[MAX_LOG_FILES - 1].0@ == base@,
{
    let mut r: Vec<(String, String)> = Vec::new();
    let mut i: u64 = MAX_LOG_FILES as u64;
    while i >= 1
        invariant
            0 <= i <= MAX_LOG_FILES,
            r.len() == MAX_LOG_FILES - i,
            forall|k: int|
                0 <= k < r.len() ==> (#[trigger] r@[k]).0@ == rename_source(
                    base@,
                    (MAX_LOG_FILES - k) as nat,
                ) && r@[k].1@ == numbered(base@, (MAX_LOG_FILES - k) as nat),
        decreases i,
    {
        let src = if i == 1 {
            String::from_str(base)
        } else {
            numbered_name(base, i - 1)
        };
        let dst = numbered_name(base, i);
        r.push((src, dst));
        i = i - 1;
    }
    assert forall|k: int| 1 <= k < r.len() implies (#[trigger] r@[k]).1@ == r@[k - 1].0@ by {
        assert(r@[k - 1].0@ == rename_source(base@, (MAX_LOG_FILES - (k - 1)) as nat));
    }
    r
}

/// The UI logs to `goldenstorm_ui.log` and the agent to
/// `goldenstorm_agent.log`; a log is rotated from 2 MiB on, and five
/// rotated files are kept.
pub proof fn law_log_files()
    ensures
        log_name(LogTarget::Ui) == "goldenstorm_ui.log"@,
        log_name(LogTarget::Agent) == "goldenstorm_agent.log"@,
        MAX_LOG_SIZE_BYTES == 2097152,
        MAX_LOG_FILES == 5,
{
}

/// A log line is the time stamp and the level, each in brackets, then the
/// message, separated by single spaces.
pub proof fn law_line_layout(timestamp: Seq<char>, level: Seq<char>, msg: Seq<char>)
    ensures
        line_text(timestamp, level, msg) == seq!['['] + timestamp + seq![']', ' ', '['] + level
            + seq![']', ' '] + msg,
{
    reveal_strlit("[");
    reveal_strlit("] [");
    reveal_strlit("] ");
    assert("["@ =~= seq!['[']);
    assert("] ["@ =~= seq![']', ' ', '[']);
    assert("] "@ =~= seq![']', ' ']);
}

} // verus!
