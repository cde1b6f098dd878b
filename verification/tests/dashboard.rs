use service_observer::dashboard::{rank_origins, App};
use service_observer::error::{CrawlerError, IpScannerError, SshLogParserError, StoreFault};
use service_observer::geolocation::Coordinate;
use service_observer::logs::SshdLogs;
use service_observer::models::{LogOutput, Parser};

fn journal_line(message: &str) -> String {
    let names = [
        "_HOSTNAME",
        "SYSLOG_IDENTIFIER",
        "_PID",
        "_GID",
        "_UID",
        "PRIORITY",
        "_SOURCE_REALTIME_TIMESTAMP",
        "__MONOTONIC_TIMESTAMP",
        "__REALTIME_TIMESTAMP",
        "_SYSTEMD_CGROUP",
        "_SYSTEMD_SLICE",
        "SYSLOG_FACILITY",
        "_BOOT_ID",
        "_CAP_EFFECTIVE",
        "__CURSOR",
        "_MACHINE_ID",
        "_TRANSPORT",
        "_SYSTEMD_UNIT",
        "_COMM",
    ];
    let mut members: Vec<String> = names.iter().map(|name| format!("\"{}\":\"x\"", name)).collect();
    members.push(format!("\"MESSAGE\":\"{}\"", message));
    format!("{{{}}}", members.join(","))
}

fn sample() -> LogOutput {
    let messages = [
        "a 10.0.0.2",
        "b 10.0.0.1",
        "c 10.0.0.3",
        "d 10.0.0.1",
        "e nothing",
        "f 10.0.0.1",
        "g 10.0.0.3",
    ];
    let lines: Vec<String> = messages.iter().map(|message| journal_line(message)).collect();
    LogOutput::parse(&lines.join("\n")).unwrap()
}

const FIRST: u32 = (10 << 24) | 1;
const SECOND: u32 = (10 << 24) | 2;
const THIRD: u32 = (10 << 24) | 3;

#[test]
fn origins_with_more_records_come_first() {
    let out = sample();
    let groups = out.by_ips().unwrap();
    let rows = rank_origins(&groups);
    let summary: Vec<(u32, usize)> = rows.iter().map(|row| (row.0, row.2)).collect();
    assert_eq!(summary, vec![(FIRST, 3), (THIRD, 2), (SECOND, 1)]);
    let messages: Vec<&str> = rows[0].1.iter().map(|record| record.message.as_str()).collect();
    assert_eq!(messages, vec!["b 10.0.0.1", "d 10.0.0.1", "f 10.0.0.1"]);
    for row in rows.iter() {
        assert_eq!(row.1.len(), row.2);
    }
}

#[test]
fn ranking_of_no_groups_is_empty() {
    let out = LogOutput::parse("").unwrap();
    let groups = out.by_ips().unwrap();
    assert!(rank_origins(&groups).is_empty());
}

#[test]
fn new_dashboard_shows_the_table() {
    let out = sample();
    let app = App::new(&out.by_ips().unwrap());
    assert_eq!(app.tab_titles, vec!["SSH Logs", "Map"]);
    assert_eq!(app.tab_index, 0);
    assert_eq!(app.selected_row, None);
    assert_eq!(app.ssh_logs.len(), 3);
    assert!(app.map_locations.is_empty());
}

#[test]
fn tabs_wrap_around() {
    let out = sample();
    let mut app = App::new(&out.by_ips().unwrap());
    app.next_tab();
    assert_eq!(app.tab_index, 1);
    app.next_tab();
    assert_eq!(app.tab_index, 0);
    app.previous_tab();
    assert_eq!(app.tab_index, 1);
    app.previous_tab();
    assert_eq!(app.tab_index, 0);
}

#[test]
fn rows_wrap_around_on_the_table() {
    let out = sample();
    let mut app = App::new(&out.by_ips().unwrap());
    app.down_row();
    assert_eq!(app.selected_row, Some(0));
    app.down_row();
    assert_eq!(app.selected_row, Some(1));
    app.down_row();
    assert_eq!(app.selected_row, Some(2));
    app.down_row();
    assert_eq!(app.selected_row, Some(0));
    app.up_row();
    assert_eq!(app.selected_row, Some(2));
    app.up_row();
    assert_eq!(app.selected_row, Some(1));
    app.selected_row = None;
    app.up_row();
    assert_eq!(app.selected_row, Some(0));
}

#[test]
fn rows_stay_put_on_the_map() {
    let out = sample();
    let mut app = App::new(&out.by_ips().unwrap());
    app.down_row();
    app.next_tab();
    app.down_row();
    assert_eq!(app.selected_row, Some(0));
    app.up_row();
    assert_eq!(app.selected_row, Some(0));
}

#[test]
fn copy_of_the_table_equals_the_table() {
    let out = sample();
    let app = App::new(&out.by_ips().unwrap());
    assert_eq!(app.mut_ssh_logs(), app.ssh_logs);
}

#[test]
fn points_are_added_at_the_end() {
    let out = sample();
    let mut app = App::new(&out.by_ips().unwrap());
    let berlin = Coordinate { latitude_bits: 52.52f64.to_bits(), longitude_bits: 13.405f64.to_bits() };
    let sydney = Coordinate { latitude_bits: (-33.86f64).to_bits(), longitude_bits: 151.21f64.to_bits() };
    app.add_geolocation(berlin);
    app.add_geolocation(sydney);
    assert_eq!(app.map_locations, vec![berlin, sydney]);
}

#[test]
fn sentences_of_the_other_errors() {
    assert_eq!(SshLogParserError::LogExtraction.message(), "Log extraction failed");
    assert_eq!(SshLogParserError::Pattern.message(), "Invalid address pattern");
    assert_eq!(IpScannerError::RequestError.message(), "Request failed");
    assert_eq!(IpScannerError::ResponseParsingError.message(), "Response parsing failed");
    assert_eq!(
        CrawlerError::ScannerInteraction(IpScannerError::RequestError).message(),
        "Failed to interact with shodan"
    );
    assert_eq!(
        CrawlerError::DbInteraction(StoreFault::Conflict).message(),
        "Failed to interact with the database"
    );
}
