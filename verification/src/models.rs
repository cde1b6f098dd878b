//! Log records, the lines that failed to become one, and the batch that collects both.

use crate::error::JournalError;
use vstd::prelude::*;

verus! {

/// Turns a text into a value, or says why it could not.
pub trait Parser {
    type ParserTarget;

    fn parse(payload: &str) -> Result<Self::ParserTarget, JournalError>;
}

/// How a batch fared as a whole.
#[derive(Debug, Clone, Copy, PartialEq, Eq, Structural)]
pub enum OutputStatus {
    SUCCESSFUL,
    WARNINGS,
    FAILED,
}

/// One entry of the journal. The fields that not every entry carries are optional.
#[derive(Debug, PartialEq, Eq)]
pub struct LogEntry {
    pub tid: Option<String>,
    pub hostname: String,
    pub job_result: Option<String>,
    pub syslog_identifier: String,
    pub pid: String,
    pub gid: String,
    pub uid: String,
    pub systemd_invocation_id: Option<String>,
    pub priority: String,
    pub message: String,
    pub message_id: Option<String>,
    pub source_realtime_timestamp: String,
    pub monotonic_timestamp: String,
    pub syslog_timestamp: Option<String>,
    pub realtime_timestamp: String,
    pub cmdline: Option<String>,
    pub systemd_cgroup: String,
    pub systemd_slice: String,
    pub syslog_facility: String,
    pub boot_id: String,
    pub cap_effective: String,
    pub cursor: String,
    pub machine_id: String,
    pub runtime_scope: Option<String>,
    pub syslog_pid: Option<String>,
    pub transport: String,
    pub systemd_unit: String,
    pub exe: Option<String>,
    pub comm: String,
    pub cpu_usage_nsec: Option<String>,
}

/// A [`LogEntry`] with each text as a sequence of characters.
pub struct LogEntryView {
    pub tid: Option<Seq<char>>,
    pub hostname: Seq<char>,
    pub job_result: Option<Seq<char>>,
    pub syslog_identifier: Seq<char>,
    pub pid: Seq<char>,
    pub gid: Seq<char>,
    pub uid: Seq<char>,
    pub systemd_invocation_id: Option<Seq<char>>,
    pub priority: Seq<char>,
    pub message: Seq<char>,
    pub message_id: Option<Seq<char>>,
    pub source_realtime_timestamp: Seq<char>,
    pub monotonic_timestamp: Seq<char>,
    pub syslog_timestamp: Option<Seq<char>>,
    pub realtime_timestamp: Seq<char>,
    pub cmdline: Option<Seq<char>>,
    pub systemd_cgroup: Seq<char>,
    pub systemd_slice: Seq<char>,
    pub syslog_facility: Seq<char>,
    pub boot_id: Seq<char>,
    pub cap_effective: Seq<char>,
    pub cursor: Seq<char>,
    pub machine_id: Seq<char>,
    pub runtime_scope: Option<Seq<char>>,
    pub syslog_pid: Option<Seq<char>>,
    pub transport: Seq<char>,
    pub systemd_unit: Seq<char>,
    pub exe: Option<Seq<char>>,
    pub comm: Seq<char>,
    pub cpu_usage_nsec: Option<Seq<char>>,
}

/// The view of a text that may be absent.
pub open spec fn text_view(text: Option<String>) -> Option<Seq<char>> {
    match text {
        Some(text) => Some(text@),
        None => None,
    }
}

impl View for LogEntry {
    type V = LogEntryView;

    open spec fn view(&self) -> LogEntryView {
        LogEntryView {
            tid: text_view(self.tid),
            hostname: self.hostname@,
            job_result: text_view(self.job_result),
            syslog_identifier: self.syslog_identifier@,
            pid: self.pid@,
            gid: self.gid@,
            uid: self.uid@,
            systemd_invocation_id: text_view(self.systemd_invocation_id),
            priority: self.priority@,
            message: self.message@,
            message_id: text_view(self.message_id),
            source_realtime_timestamp: self.source_realtime_timestamp@,
            monotonic_timestamp: self.monotonic_timestamp@,
            syslog_timestamp: text_view(self.syslog_timestamp),
            realtime_timestamp: self.realtime_timestamp@,
            cmdline: text_view(self.cmdline),
            systemd_cgroup: self.systemd_cgroup@,
            systemd_slice: self.systemd_slice@,
            syslog_facility: self.syslog_facility@,
            boot_id: self.boot_id@,
            cap_effective: self.cap_effective@,
            cursor: self.cursor@,
            machine_id: self.machine_id@,
            runtime_scope: text_view(self.runtime_scope),
            syslog_pid: text_view(self.syslog_pid),
            transport: self.transport@,
            systemd_unit: self.systemd_unit@,
            exe: text_view(self.exe),
            comm: self.comm@,
            cpu_usage_nsec: text_view(self.cpu_usage_nsec),
        }
    }
}

/// A copy of a text that may be absent.
fn duplicate_text(text: &Option<String>) -> (copy: Option<String>)
    ensures
        text_view(copy) == text_view(*text),
{
    match text {
        Some(text) => Some(text.clone()),
        None => None,
    }
}

impl Clone for LogEntry {
    fn clone(&self) -> (copy: Self)
        ensures
            copy@ == self@,
    {
        LogEntry {
            tid: duplicate_text(&self.tid),
            hostname: self.hostname.clone(),
            job_result: duplicate_text(&self.job_result),
            syslog_identifier: self.syslog_identifier.clone(),
            pid: self.pid.clone(),
            gid: self.gid.clone(),
            uid: self.uid.clone(),
            systemd_invocation_id: duplicate_text(&self.systemd_invocation_id),
            priority: self.priority.clone(),
            message: self.message.clone(),
            message_id: duplicate_text(&self.message_id),
            source_realtime_timestamp: self.source_realtime_timestamp.clone(),
            monotonic_timestamp: self.monotonic_timestamp.clone(),
            syslog_timestamp: duplicate_text(&self.syslog_timestamp),
            realtime_timestamp: self.realtime_timestamp.clone(),
            cmdline: duplicate_text(&self.cmdline),
            systemd_cgroup: self.systemd_cgroup.clone(),
            systemd_slice: self.systemd_slice.clone(),
            syslog_facility: self.syslog_facility.clone(),
            boot_id: self.boot_id.clone(),
            cap_effective: self.cap_effective.clone(),
            cursor: self.cursor.clone(),
            machine_id: self.machine_id.clone(),
            runtime_scope: duplicate_text(&self.runtime_scope),
            syslog_pid: duplicate_text(&self.syslog_pid),
            transport: self.transport.clone(),
            systemd_unit: self.systemd_unit.clone(),
            exe: duplicate_text(&self.exe),
            comm: self.comm.clone(),
            cpu_usage_nsec: duplicate_text(&self.cpu_usage_nsec),
        }
    }
}

/// A line that is no record: the line as it was read, and why it was turned down.
#[derive(Debug, PartialEq, Eq)]
pub struct LogEntryFailure {
    pub log_string: String,
    pub message: String,
    pub error_string: String,
}

/// A [`LogEntryFailure`] with each text as a sequence of characters.
pub struct LogEntryFailureView {
    pub log_string: Seq<char>,
    pub message: Seq<char>,
    pub error_string: Seq<char>,
}

impl View for LogEntryFailure {
    type V = LogEntryFailureView;

    open spec fn view(&self) -> LogEntryFailureView {
        LogEntryFailureView {
            log_string: self.log_string@,
            message: self.message@,
            error_string: self.error_string@,
        }
    }
}

impl Clone for LogEntryFailure {
    fn clone(&self) -> (copy: Self)
        ensures
            copy@ == self@,
    {
        LogEntryFailure {
            log_string: self.log_string.clone(),
            message: self.message.clone(),
            error_string: self.error_string.clone(),
        }
    }
}

/// What became of the lines of one payload: the records, the lines that are none, how many
/// there are of each, and the status that follows from the two counts.
#[derive(Debug)]
pub struct LogOutput {
    pub amount: usize,
    pub logs: Vec<LogEntry>,
    pub log_failures: Vec<LogEntryFailure>,
    pub failed_amount: usize,
    pub status: OutputStatus,
}

/// A [`LogOutput`] as mathematical data.
pub struct LogOutputView {
    pub amount: nat,
    pub logs: Seq<LogEntryView>,
    pub log_failures: Seq<LogEntryFailureView>,
    pub failed_amount: nat,
    pub status: OutputStatus,
}

/// The views of a list of entries.
pub open spec fn entry_views(logs: Seq<LogEntry>) -> Seq<LogEntryView> {
    logs.map_values(|entry: LogEntry| entry@)
}

/// The views of a list of failures.
pub open spec fn failure_views(failures: Seq<LogEntryFailure>) -> Seq<LogEntryFailureView> {
    failures.map_values(|failure: LogEntryFailure| failure@)
}

impl View for LogOutput {
    type V = LogOutputView;

    open spec fn view(&self) -> LogOutputView {
        LogOutputView {
            amount: self.amount as nat,
            logs: entry_views(self.logs@),
            log_failures: failure_views(self.log_failures@),
            failed_amount: self.failed_amount as nat,
            status: self.status,
        }
    }
}

/// The status that a batch with `amount` records and `failed_amount` rejected lines carries:
/// successful without a rejected line, failed with rejected lines only, warnings with both.
pub open spec fn status_of(amount: nat, failed_amount: nat) -> OutputStatus {
    if failed_amount == 0 {
        OutputStatus::SUCCESSFUL
    } else if amount == 0 {
        OutputStatus::FAILED
    } else {
        OutputStatus::WARNINGS
    }
}

impl LogOutputView {
    /// The counts are those of the two lists, and the status is the one that the counts give.
    pub open spec fn wf(self) -> bool {
        &&& self.amount == self.logs.len()
        &&& self.failed_amount == self.log_failures.len()
        &&& self.status == status_of(self.amount, self.failed_amount)
    }
}

/// The status that goes with two counts.
pub fn status_for(amount: usize, failed_amount: usize) -> (status: OutputStatus)
    ensures
        status == status_of(amount as nat, failed_amount as nat),
{
    if failed_amount == 0 {
        OutputStatus::SUCCESSFUL
    } else if amount == 0 {
        OutputStatus::FAILED
    } else {
        OutputStatus::WARNINGS
    }
}

} // verus!
