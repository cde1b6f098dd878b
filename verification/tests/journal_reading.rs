use service_observer::journal::Journal;
use service_observer::logs::SshdLogs;
use service_observer::models::{LogOutput, OutputStatus};

const LOG_AMOUNT: usize = 5;
const LOG_SERVICE: &str = "sshd";

fn sshd_line(number: usize) -> String {
    let names = [
        "_HOSTNAME",
        "SYSLOG_IDENTIFIER",
        "_PID",
        "_GID",
        "_UID",
        "PRIORITY",
        "_SOURCE_REALTIME_TIMESTAMP",
        "__MONOTONIC_TIMESTAMP",
        "__REALTIME_TIMESTAMP",
        "_SYSTEMD_CGROUP",
        "_SYSTEMD_SLICE",
        "SYSLOG_FACILITY",
        "_BOOT_ID",
        "_CAP_EFFECTIVE",
        "__CURSOR",
        "_MACHINE_ID",
        "_TRANSPORT",
        "_SYSTEMD_UNIT",
        "_COMM",
    ];
    let mut members: Vec<String> = names.iter().map(|name| format!("\"{}\":\"{}\"", name, number)).collect();
    members.push(format!(
        "\"MESSAGE\":\"Failed password for root from 198.51.100.{} port 22 ssh2\"",
        number % 4
    ));
    format!("{{{}}}", members.join(","))
}

/// Stands in for the journal command: what it would print for the arguments, one record for
/// each line asked for and eight where no number is given, the newest first on request.
fn journalctl(arguments: &[String]) -> (bool, Vec<u8>) {
    assert_eq!(&arguments[..4], ["-u", LOG_SERVICE, "-o", "json"]);
    let amount = match arguments.iter().position(|argument| argument == "-n") {
        Some(at) => arguments[at + 1].parse::<usize>().unwrap(),
        None => 8,
    };
    let mut lines: Vec<String> = (0..amount).map(sshd_line).collect();
    if arguments.iter().any(|argument| argument == "--reverse") {
        lines.reverse();
    }
    let mut output = lines.join("\n");
    output.push('\n');
    (true, output.into_bytes())
}

fn read(journal: &Journal) -> Result<LogOutput, service_observer::error::JournalError> {
    let (succeeded, output) = journalctl(&journal.arguments());
    Journal::interpret(succeeded, output)
}

#[test]
fn should_read_from_journal() {
    let log_output = read(&Journal::with_service(LOG_SERVICE).reverse().lines(LOG_AMOUNT).no_pager().build());
    assert!(log_output.is_ok(), "Failed to parse logs")
}

#[test]
fn should_read_lines_amount() {
    let output = read(&Journal::with_service(LOG_SERVICE).reverse().lines(LOG_AMOUNT).no_pager().build());
    let log_output = output.unwrap();
    assert_eq!(
        log_output.amount + log_output.failed_amount,
        LOG_AMOUNT,
        "Should extract given log amount"
    );
}

#[test]
fn should_read_successfully() {
    let log_output = read(&Journal::with_service(LOG_SERVICE).reverse().lines(LOG_AMOUNT).no_pager().build());
    assert!(log_output.is_ok(), "Failed to parse logs");
    assert_eq!(
        log_output.unwrap().status,
        OutputStatus::SUCCESSFUL,
        "Should return output successfully"
    );
}

#[test]
fn should_return_without_warnings() {
    let log_output = read(&Journal::with_service(LOG_SERVICE).reverse().lines(LOG_AMOUNT).no_pager().build());
    assert!(log_output.is_ok(), "Failed to parse logs");
    assert_ne!(
        log_output.unwrap().status,
        OutputStatus::WARNINGS,
        "Should return output without any warnings"
    );
}

#[test]
fn should_return_without_failure() {
    let log_output = read(&Journal::with_service(LOG_SERVICE).reverse().lines(LOG_AMOUNT).no_pager().build());
    assert!(log_output.is_ok(), "Failed to parse logs");
    assert_ne!(
        log_output.unwrap().status,
        OutputStatus::FAILED,
        "Should return output without failure"
    );
}

#[test]
fn lib_read_todays_logs() {
    let output = read(&Journal::with_service("sshd").since("today").build()).unwrap();
    for log in output.logs {
        println!("{log:?}");
    }
}

#[test]
fn logs_read_todays_logs() {
    let output = read(&Journal::with_service("sshd").since("today").build()).unwrap();
    let ip_hash = output.by_ips().unwrap();
    assert!(ip_hash.len() > 0);
}

#[test]
fn newest_first_on_request() {
    let forward = read(&Journal::with_service(LOG_SERVICE).lines(3).build()).unwrap();
    let backward = read(&Journal::with_service(LOG_SERVICE).lines(3).reverse().build()).unwrap();
    let pids: Vec<&str> = forward.logs.iter().map(|entry| entry.pid.as_str()).collect();
    let reversed: Vec<&str> = backward.logs.iter().map(|entry| entry.pid.as_str()).collect();
    assert_eq!(pids, vec!["0", "1", "2"]);
    assert_eq!(reversed, vec!["2", "1", "0"]);
}
