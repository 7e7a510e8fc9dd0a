//! Building log entries: the per-user log location and the stamped line
//! appended for each message.  Reading the clock is the host's part; the
//! line is built and pinned down here for whatever moment was read.
use chrono::Datelike;
use chrono::Timelike;
use vstd::prelude::*;
use vstd::string::StringExecFns;

use crate::text::is_ascii_digit;
use crate::text::lemma_pad2_form;
use crate::text::lemma_pad4_form;
use crate::text::pad2;
use crate::text::pad4;
use crate::text::push_char;
use crate::text::push_pad2;
use crate::text::push_pad4;

verus! {

/// A local calendar time, split into plain fields.
#[derive(Clone, Copy, PartialEq, Eq, Structural, Debug)]
pub struct LocalTime {
    pub year: i32,
    pub month: u32,
    pub day: u32,
    pub hour: u32,
    pub minute: u32,
    pub second: u32,
}

impl LocalTime {
    /// Field ranges of a civil calendar time.
    pub open spec fn wf(self) -> bool {
        &&& 1 <= self.month <= 12
        &&& 1 <= self.day <= 31
        &&& self.hour <= 23
        &&& self.minute <= 59
        &&& self.second <= 59
    }
}

/// Relies on chrono's `Local::now` and its `Datelike`/`Timelike` accessors:
/// `month` ranges over 1 to 12, `day` over 1 to 31, `hour` over 0 to 23,
/// `minute` and `second` over 0 to 59.  Which moment comes back depends on
/// the host clock and time zone, so nothing more is promised; the call can
/// panic on an abnormal host clock that reads before the Unix epoch.
#[verifier::external_body]
pub fn now_local() -> (t: LocalTime)
    ensures
        t.wf(),
{
    let now = chrono::Local::now();
    LocalTime {
        year: now.year(),
        month: now.month(),
        day: now.day(),
        hour: now.hour(),
        minute: now.minute(),
        second: now.second(),
    }
}

/// Year rendering: zero-padded to four places, with a leading `-` for a
/// year before the common era.
pub open spec fn year_spec(y: int) -> Seq<char> {
    if y < 0 {
        seq!['-'] + pad4((-y) as nat)
    } else {
        pad4(y as nat)
    }
}

/// Rendering of `t` as `YYYY-MM-DD HH:MM:SS`; the year keeps its sign and
/// all its digits when it lies outside 0 to 9999.
pub open spec fn timestamp_spec(t: LocalTime) -> Seq<char> {
    year_spec(t.year as int) + seq!['-'] + pad2(t.month as nat) + seq!['-'] + pad2(t.day as nat)
        + seq![' '] + pad2(t.hour as nat) + seq![':'] + pad2(t.minute as nat) + seq![':'] + pad2(
        t.second as nat,
    )
}

/// One log line: `[` timestamp `] `, the message, and a newline.
pub open spec fn log_line_spec(t: LocalTime, message: Seq<char>) -> Seq<char> {
    seq!['['] + timestamp_spec(t) + seq![']', ' '] + message + seq!['\n']
}

/// Directory of the per-user log.
pub open spec fn log_dir_spec(user: Seq<char>) -> Seq<char> {
    "/Users/"@ + user + "/.system_logs"@
}

/// Path of the log file inside its directory.
pub open spec fn log_file_spec(dir: Seq<char>) -> Seq<char> {
    dir + "/activity.log"@
}

/// Confirmation returned after a successful append.
pub open spec fn log_written_spec(file: Seq<char>) -> Seq<char> {
    "log written: "@ + file
}

/// Renders `t` as `YYYY-MM-DD HH:MM:SS`.
pub fn format_timestamp(t: &LocalTime) -> (r: String)
    ensures
        r@ == timestamp_spec(*t),
{
    let mut s = String::new();
    if t.year < 0 {
        push_char(&mut s, '-');
        let y = -(t.year as i64);
        push_pad4(y as u64, &mut s);
    } else {
        push_pad4(t.year as u64, &mut s);
    }
    push_char(&mut s, '-');
    push_pad2(t.month as u64, &mut s);
    push_char(&mut s, '-');
    push_pad2(t.day as u64, &mut s);
    push_char(&mut s, ' ');
    push_pad2(t.hour as u64, &mut s);
    push_char(&mut s, ':');
    push_pad2(t.minute as u64, &mut s);
    push_char(&mut s, ':');
    push_pad2(t.second as u64, &mut s);
    proof {
        assert(s@ =~= timestamp_spec(*t));
    }
    s
}

/// Builds the log line for `message` stamped with `t`.
pub fn format_log_line(t: &LocalTime, message: &str) -> (r: String)
    ensures
        r@ == log_line_spec(*t, message@),
{
    let mut s = String::new();
    push_char(&mut s, '[');
    let ts = format_timestamp(t);
    s.append(ts.as_str());
    push_char(&mut s, ']');
    push_char(&mut s, ' ');
    s.append(message);
    push_char(&mut s, '\n');
    proof {
        assert(s@ =~= log_line_spec(*t, message@));
    }
    s
}

/// Builds the log directory path for `user`.
pub fn log_dir_for(user: &str) -> (r: String)
    ensures
        r@ == log_dir_spec(user@),
{
    String::from_str("/Users/").concat(user).concat("/.system_logs")
}

/// Builds the log file path inside `dir`.
pub fn log_file_path(dir: &str) -> (r: String)
    ensures
        r@ == log_file_spec(dir@),
{
    dir.to_owned().concat("/activity.log")
}

/// Builds the confirmation message naming the written log file.
pub fn log_written_message(file: &str) -> (r: String)
    ensures
        r@ == log_written_spec(file@),
{
    String::from_str("log written: ").concat(file)
}

/// Everything the host needs to append one log message for `user`: the log
/// directory, the log file inside it, and the stamped line.  The stamp is
/// read from the host clock; the contract fixes the line's shape for
/// whatever moment was read.
pub struct LogEntry {
    pub dir: String,
    pub file: String,
    pub line: String,
    pub stamp: LocalTime,
}

/// Prepares one log append for `user`: derives the log paths and stamps
/// `message` with the current local time.
pub fn prepare_log_entry(user: &str, message: &str) -> (r: LogEntry)
    ensures
        r.stamp.wf(),
        r.dir@ == log_dir_spec(user@),
        r.file@ == log_file_spec(log_dir_spec(user@)),
        r.line@ == log_line_spec(r.stamp, message@),
{
    let stamp = now_local();
    let dir = log_dir_for(user);
    let file = log_file_path(dir.as_str());
    let line = format_log_line(&stamp, message);
    LogEntry { dir, file, line, stamp }
}

/// Law: for a calendar time with a four-digit year, the log line opens
/// with a well-formed bracketed timestamp — digits and separators at fixed
/// places, closed by `] ` — carries the message unchanged, and ends with
/// the only newline it has (when the message itself has none).
pub proof fn lemma_log_line_form(t: LocalTime, message: Seq<char>)
    requires
        t.wf(),
        0 <= t.year <= 9999,
    ensures
        log_line_spec(t, message).len() == 23 + message.len(),
        log_line_spec(t, message)[0] == '[',
        forall|i: int|
            (1 <= i < 5 || 6 <= i < 8 || 9 <= i < 11 || 12 <= i < 14 || 15 <= i < 17 || 18 <= i
                < 20) ==> is_ascii_digit(#[trigger] log_line_spec(t, message)[i]),
        log_line_spec(t, message)[5] == '-',
        log_line_spec(t, message)[8] == '-',
        log_line_spec(t, message)[11] == ' ',
        log_line_spec(t, message)[14] == ':',
        log_line_spec(t, message)[17] == ':',
        log_line_spec(t, message)[20] == ']',
        log_line_spec(t, message)[21] == ' ',
        log_line_spec(t, message).subrange(22, 22 + message.len() as int) == message,
        log_line_spec(t, message).last() == '\n',
        (forall|i: int| 0 <= i < message.len() ==> message[i] != '\n') ==> (forall|i: int|
            0 <= i < log_line_spec(t, message).len() - 1 ==> log_line_spec(t, message)[i] != '\n'),
{
    lemma_pad4_form(t.year as nat);
    lemma_pad2_form(t.month as nat);
    lemma_pad2_form(t.day as nat);
    lemma_pad2_form(t.hour as nat);
    lemma_pad2_form(t.minute as nat);
    lemma_pad2_form(t.second as nat);
    assert(log_line_spec(t, message).subrange(22, 22 + message.len() as int) =~= message);
}

} // verus!
