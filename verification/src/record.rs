//! One line of the journal read as a record.

use crate::error::{JournalError, ParseFault};
use crate::json::{by_name, distinct_names, find_member, json_object, read_object, JsonMember, MemberView};
use crate::models::{text_view, LogEntry, LogEntryView, Parser};
use crate::text::{trim, trimmed};
use vstd::prelude::*;

verus! {

/// What a field that every entry must carry holds: the text of the member called `name`.
/// The member must be there and be a string.
pub open spec fn required_text(object: Map<Seq<char>, MemberView>, name: Seq<char>) -> Result<
    Seq<char>,
    ParseFault,
> {
    if !object.contains_key(name) {
        Err(ParseFault::MissingField)
    } else {
        match object[name] {
            MemberView::Text(text) => Ok(text),
            _ => Err(ParseFault::InvalidType),
        }
    }
}

/// What an optional field holds: nothing where the member called `name` is absent or null,
/// its text where it is a string. Any other value is a fault.
pub open spec fn optional_text(object: Map<Seq<char>, MemberView>, name: Seq<char>) -> Result<
    Option<Seq<char>>,
    ParseFault,
> {
    if !object.contains_key(name) {
        Ok(None)
    } else {
        match object[name] {
            MemberView::Null => Ok(None),
            MemberView::Text(text) => Ok(Some(text)),
            _ => Err(ParseFault::InvalidType),
        }
    }
}

/// The fault of the first field, in the order of the fields of [`LogEntry`], that the object
/// does not provide as it should.
pub open spec fn first_fault(object: Map<Seq<char>, MemberView>) -> Option<ParseFault> {
    let tid = optional_text(object, "TID"@);
    let hostname = required_text(object, "_HOSTNAME"@);
    let job_result = optional_text(object, "JOB_RESULT"@);
    let syslog_identifier = required_text(object, "SYSLOG_IDENTIFIER"@);
    let pid = required_text(object, "_PID"@);
    let gid = required_text(object, "_GID"@);
    let uid = required_text(object, "_UID"@);
    let systemd_invocation_id = optional_text(object, "_SYSTEMD_INVOCATION_ID"@);
    let priority = required_text(object, "PRIORITY"@);
    let message = required_text(object, "MESSAGE"@);
    let message_id = optional_text(object, "MESSAGE_ID"@);
    let source_realtime_timestamp = required_text(object, "_SOURCE_REALTIME_TIMESTAMP"@);
    let monotonic_timestamp = required_text(object, "__MONOTONIC_TIMESTAMP"@);
    let syslog_timestamp = optional_text(object, "SYSLOG_TIMESTAMP"@);
    let realtime_timestamp = required_text(object, "__REALTIME_TIMESTAMP"@);
    let cmdline = optional_text(object, "_CMDLINE"@);
    let systemd_cgroup = required_text(object, "_SYSTEMD_CGROUP"@);
    let systemd_slice = required_text(object, "_SYSTEMD_SLICE"@);
    let syslog_facility = required_text(object, "SYSLOG_FACILITY"@);
    let boot_id = required_text(object, "_BOOT_ID"@);
    let cap_effective = required_text(object, "_CAP_EFFECTIVE"@);
    let cursor = required_text(object, "__CURSOR"@);
    let machine_id = required_text(object, "_MACHINE_ID"@);
    let runtime_scope = optional_text(object, "_RUNTIME_SCOPE"@);
    let syslog_pid = optional_text(object, "SYSLOG_PID"@);
    let transport = required_text(object, "_TRANSPORT"@);
    let systemd_unit = required_text(object, "_SYSTEMD_UNIT"@);
    let exe = optional_text(object, "_EXE"@);
    let comm = required_text(object, "_COMM"@);
    let cpu_usage_nsec = optional_text(object, "CPU_USAGE_NSEC"@);
    if tid is Err {
        Some(tid->Err_0)
    } else if hostname is Err {
        Some(hostname->Err_0)
    } else if job_result is Err {
        Some(job_result->Err_0)
    } else if syslog_identifier is Err {
        Some(syslog_identifier->Err_0)
    } else if pid is Err {
        Some(pid->Err_0)
    } else if gid is Err {
        Some(gid->Err_0)
    } else if uid is Err {
        Some(uid->Err_0)
    } else if systemd_invocation_id is Err {
        Some(systemd_invocation_id->Err_0)
    } else if priority is Err {
        Some(priority->Err_0)
    } else if message is Err {
        Some(message->Err_0)
    } else if message_id is Err {
        Some(message_id->Err_0)
    } else if source_realtime_timestamp is Err {
        Some(source_realtime_timestamp->Err_0)
    } else if monotonic_timestamp is Err {
        Some(monotonic_timestamp->Err_0)
    } else if syslog_timestamp is Err {
        Some(syslog_timestamp->Err_0)
    } else if realtime_timestamp is Err {
        Some(realtime_timestamp->Err_0)
    } else if cmdline is Err {
        Some(cmdline->Err_0)
    } else if systemd_cgroup is Err {
        Some(systemd_cgroup->Err_0)
    } else if systemd_slice is Err {
        Some(systemd_slice->Err_0)
    } else if syslog_facility is Err {
        Some(syslog_facility->Err_0)
    } else if boot_id is Err {
        Some(boot_id->Err_0)
    } else if cap_effective is Err {
        Some(cap_effective->Err_0)
    } else if cursor is Err {
        Some(cursor->Err_0)
    } else if machine_id is Err {
        Some(machine_id->Err_0)
    } else if runtime_scope is Err {
        Some(runtime_scope->Err_0)
    } else if syslog_pid is Err {
        Some(syslog_pid->Err_0)
    } else if transport is Err {
        Some(transport->Err_0)
    } else if systemd_unit is Err {
        Some(systemd_unit->Err_0)
    } else if exe is Err {
        Some(exe->Err_0)
    } else if comm is Err {
        Some(comm->Err_0)
    } else if cpu_usage_nsec is Err {
        Some(cpu_usage_nsec->Err_0)
    } else {
        None
    }
}

/// The entry that an object without fault describes.
pub open spec fn entry_fields(object: Map<Seq<char>, MemberView>) -> LogEntryView {
    LogEntryView {
        tid: optional_text(object, "TID"@)->Ok_0,
        hostname: required_text(object, "_HOSTNAME"@)->Ok_0,
        job_result: optional_text(object, "JOB_RESULT"@)->Ok_0,
        syslog_identifier: required_text(object, "SYSLOG_IDENTIFIER"@)->Ok_0,
        pid: required_text(object, "_PID"@)->Ok_0,
        gid: required_text(object, "_GID"@)->Ok_0,
        uid: required_text(object, "_UID"@)->Ok_0,
        systemd_invocation_id: optional_text(object, "_SYSTEMD_INVOCATION_ID"@)->Ok_0,
        priority: required_text(object, "PRIORITY"@)->Ok_0,
        message: required_text(object, "MESSAGE"@)->Ok_0,
        message_id: optional_text(object, "MESSAGE_ID"@)->Ok_0,
        source_realtime_timestamp: required_text(object, "_SOURCE_REALTIME_TIMESTAMP"@)->Ok_0,
        monotonic_timestamp: required_text(object, "__MONOTONIC_TIMESTAMP"@)->Ok_0,
        syslog_timestamp: optional_text(object, "SYSLOG_TIMESTAMP"@)->Ok_0,
        realtime_timestamp: required_text(object, "__REALTIME_TIMESTAMP"@)->Ok_0,
        cmdline: optional_text(object, "_CMDLINE"@)->Ok_0,
        systemd_cgroup: required_text(object, "_SYSTEMD_CGROUP"@)->Ok_0,
        systemd_slice: required_text(object, "_SYSTEMD_SLICE"@)->Ok_0,
        syslog_facility: required_text(object, "SYSLOG_FACILITY"@)->Ok_0,
        boot_id: required_text(object, "_BOOT_ID"@)->Ok_0,
        cap_effective: required_text(object, "_CAP_EFFECTIVE"@)->Ok_0,
        cursor: required_text(object, "__CURSOR"@)->Ok_0,
        machine_id: required_text(object, "_MACHINE_ID"@)->Ok_0,
        runtime_scope: optional_text(object, "_RUNTIME_SCOPE"@)->Ok_0,
        syslog_pid: optional_text(object, "SYSLOG_PID"@)->Ok_0,
        transport: required_text(object, "_TRANSPORT"@)->Ok_0,
        systemd_unit: required_text(object, "_SYSTEMD_UNIT"@)->Ok_0,
        exe: optional_text(object, "_EXE"@)->Ok_0,
        comm: required_text(object, "_COMM"@)->Ok_0,
        cpu_usage_nsec: optional_text(object, "CPU_USAGE_NSEC"@)->Ok_0,
    }
}

/// The entry that a JSON object describes, or the first fault that keeps it from being one.
pub open spec fn entry_of(object: Map<Seq<char>, MemberView>) -> Result<LogEntryView, ParseFault> {
    match first_fault(object) {
        Some(fault) => Err(fault),
        None => Ok(entry_fields(object)),
    }
}

/// The entry that one line of the journal describes: the line is trimmed, read as one JSON
/// object, and its members become the fields.
pub open spec fn record_of(line: Seq<char>) -> Result<LogEntryView, ParseFault> {
    match json_object(trim(line)) {
        Some(object) => entry_of(object),
        None => Err(ParseFault::Malformed),
    }
}

fn required_member(members: &Vec<(String, JsonMember)>, name: &str) -> (outcome: Result<
    String,
    JournalError,
>)
    requires
        distinct_names(members@),
    ensures
        match outcome {
            Ok(text) => required_text(by_name(members@), name@) == Ok::<Seq<char>, ParseFault>(
                text@,
            ),
            Err(error) => required_text(by_name(members@), name@) is Err && error
                == JournalError::Parsing(required_text(by_name(members@), name@)->Err_0),
        },
{
    match find_member(members, name) {
        None => Err(JournalError::Parsing(ParseFault::MissingField)),
        Some(JsonMember::Text(text)) => Ok(text.clone()),
        Some(_) => Err(JournalError::Parsing(ParseFault::InvalidType)),
    }
}

fn optional_member(members: &Vec<(String, JsonMember)>, name: &str) -> (outcome: Result<
    Option<String>,
    JournalError,
>)
    requires
        distinct_names(members@),
    ensures
        match outcome {
            Ok(text) => optional_text(by_name(members@), name@) == Ok::<
                Option<Seq<char>>,
                ParseFault,
            >(text_view(text)),
            Err(error) => optional_text(by_name(members@), name@) is Err && error
                == JournalError::Parsing(optional_text(by_name(members@), name@)->Err_0),
        },
{
    match find_member(members, name) {
        None => Ok(None),
        Some(JsonMember::Null) => Ok(None),
        Some(JsonMember::Text(text)) => Ok(Some(text.clone())),
        Some(_) => Err(JournalError::Parsing(ParseFault::InvalidType)),
    }
}

impl Parser for LogEntry {
    type ParserTarget = LogEntry;

    /// Reads one line of the journal as an entry.
    fn parse(payload: &str) -> (outcome: Result<LogEntry, JournalError>)
        ensures
            match outcome {
                Ok(entry) => record_of(payload@) == Ok::<LogEntryView, ParseFault>(entry@),
                Err(error) => record_of(payload@) is Err && error == JournalError::Parsing(
                    record_of(payload@)->Err_0,
                ),
            },
    {
        let line = trimmed(payload);
        let members = match read_object(line.as_str()) {
            Ok(members) => members,
            Err(_) => {
                return Err(JournalError::Parsing(ParseFault::Malformed));
            },
        };
        let tid = optional_member(&members, "TID")?;
        let hostname = required_member(&members, "_HOSTNAME")?;
        let job_result = optional_member(&members, "JOB_RESULT")?;
        let syslog_identifier = required_member(&members, "SYSLOG_IDENTIFIER")?;
        let pid = required_member(&members, "_PID")?;
        let gid = required_member(&members, "_GID")?;
        let uid = required_member(&members, "_UID")?;
        let systemd_invocation_id = optional_member(&members, "_SYSTEMD_INVOCATION_ID")?;
        let priority = required_member(&members, "PRIORITY")?;
        let message = required_member(&members, "MESSAGE")?;
        let message_id = optional_member(&members, "MESSAGE_ID")?;
        let source_realtime_timestamp = required_member(&members, "_SOURCE_REALTIME_TIMESTAMP")?;
        let monotonic_timestamp = required_member(&members, "__MONOTONIC_TIMESTAMP")?;
        let syslog_timestamp = optional_member(&members, "SYSLOG_TIMESTAMP")?;
        let realtime_timestamp = required_member(&members, "__REALTIME_TIMESTAMP")?;
        let cmdline = optional_member(&members, "_CMDLINE")?;
        let systemd_cgroup = required_member(&members, "_SYSTEMD_CGROUP")?;
        let systemd_slice = required_member(&members, "_SYSTEMD_SLICE")?;
        let syslog_facility = required_member(&members, "SYSLOG_FACILITY")?;
        let boot_id = required_member(&members, "_BOOT_ID")?;
        let cap_effective = required_member(&members, "_CAP_EFFECTIVE")?;
        let cursor = required_member(&members, "__CURSOR")?;
        let machine_id = required_member(&members, "_MACHINE_ID")?;
        let runtime_scope = optional_member(&members, "_RUNTIME_SCOPE")?;
        let syslog_pid = optional_member(&members, "SYSLOG_PID")?;
        let transport = required_member(&members, "_TRANSPORT")?;
        let systemd_unit = required_member(&members, "_SYSTEMD_UNIT")?;
        let exe = optional_member(&members, "_EXE")?;
        let comm = required_member(&members, "_COMM")?;
        let cpu_usage_nsec = optional_member(&members, "CPU_USAGE_NSEC")?;
        Ok(
            LogEntry {
            tid,
            hostname,
            job_result,
            syslog_identifier,
            pid,
            gid,
            uid,
            systemd_invocation_id,
            priority,
            message,
            message_id,
            source_realtime_timestamp,
            monotonic_timestamp,
            syslog_timestamp,
            realtime_timestamp,
            cmdline,
            systemd_cgroup,
            systemd_slice,
            syslog_facility,
            boot_id,
            cap_effective,
            cursor,
            machine_id,
            runtime_scope,
            syslog_pid,
            transport,
            systemd_unit,
            exe,
            comm,
            cpu_usage_nsec,
            },
        )
    }
}

} // verus!
