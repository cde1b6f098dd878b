use service_observer::error::SshLogParserError;
use service_observer::logs::{group_record, merge_groups, no_groups, SshdLogs};
use service_observer::models::{LogEntry, LogOutput, OutputStatus, Parser};
use service_observer::origin::{origin_text, parse_dotted_quad, parse_octet, OriginMatcher};

fn record_line(message: &str) -> String {
    let names = [
        "_HOSTNAME",
        "SYSLOG_IDENTIFIER",
        "_PID",
        "_GID",
        "_UID",
        "PRIORITY",
        "_SOURCE_REALTIME_TIMESTAMP",
        "__MONOTONIC_TIMESTAMP",
        "__REALTIME_TIMESTAMP",
        "_SYSTEMD_CGROUP",
        "_SYSTEMD_SLICE",
        "SYSLOG_FACILITY",
        "_BOOT_ID",
        "_CAP_EFFECTIVE",
        "__CURSOR",
        "_MACHINE_ID",
        "_TRANSPORT",
        "_SYSTEMD_UNIT",
        "_COMM",
    ];
    let mut members: Vec<String> = names.iter().map(|name| format!("\"{}\":\"x\"", name)).collect();
    members.push(format!("\"MESSAGE\":\"{}\"", message));
    format!("{{{}}}", members.join(","))
}

fn batch(messages: &[&str]) -> LogOutput {
    let lines: Vec<String> = messages.iter().map(|message| record_line(message)).collect();
    LogOutput::parse(&lines.join("\n")).unwrap()
}

fn ip(a: u32, b: u32, c: u32, d: u32) -> u32 {
    (a << 24) | (b << 16) | (c << 8) | d
}

#[test]
fn octets_are_decimal_numbers_up_to_255() {
    assert_eq!(parse_octet("0"), Some(0));
    assert_eq!(parse_octet("7"), Some(7));
    assert_eq!(parse_octet("007"), Some(7));
    assert_eq!(parse_octet("199"), Some(199));
    assert_eq!(parse_octet("255"), Some(255));
    assert_eq!(parse_octet("256"), None);
    assert_eq!(parse_octet("999"), None);
    assert_eq!(parse_octet(""), None);
    assert_eq!(parse_octet("1234"), None);
    assert_eq!(parse_octet("1a"), None);
    assert_eq!(parse_octet("-1"), None);
    assert_eq!(parse_octet("\u{661}"), None);
}

#[test]
fn dotted_quads_have_four_octets() {
    assert_eq!(parse_dotted_quad("1.2.3.4"), Some(0x01020304));
    assert_eq!(parse_dotted_quad("192.168.1.5"), Some(ip(192, 168, 1, 5)));
    assert_eq!(parse_dotted_quad("255.255.255.255"), Some(u32::MAX));
    assert_eq!(parse_dotted_quad("0.0.0.0"), Some(0));
    assert_eq!(parse_dotted_quad("010.000.01.1"), Some(ip(10, 0, 1, 1)));
    assert_eq!(parse_dotted_quad("1.2.3"), None);
    assert_eq!(parse_dotted_quad("1.2.3.4.5"), None);
    assert_eq!(parse_dotted_quad("1.2.3."), None);
    assert_eq!(parse_dotted_quad("1..3.4"), None);
    assert_eq!(parse_dotted_quad("1.2.3.256"), None);
    assert_eq!(parse_dotted_quad(""), None);
}

#[test]
fn addresses_are_written_in_dotted_notation() {
    assert_eq!(origin_text(0), "0.0.0.0");
    assert_eq!(origin_text(0x01020304), "1.2.3.4");
    assert_eq!(origin_text(ip(192, 168, 1, 5)), "192.168.1.5");
    assert_eq!(origin_text(u32::MAX), "255.255.255.255");
    assert_eq!(parse_dotted_quad(&origin_text(ip(10, 20, 30, 40))), Some(ip(10, 20, 30, 40)));
}

#[test]
fn message_without_an_address_has_no_origin() {
    let matcher = OriginMatcher::new().unwrap();
    assert_eq!(matcher.origin("Server listening on port 22."), None);
    assert_eq!(matcher.origin(""), None);
    assert_eq!(matcher.origin("no ip here"), None);
    assert_eq!(matcher.origin("version 1.2.3"), None);
    assert_eq!(matcher.origin("x1.2.3.4"), None);
}

#[test]
fn only_the_first_address_counts() {
    let matcher = OriginMatcher::new().unwrap();
    assert_eq!(
        matcher.origin("Connection from 192.168.1.5 to 10.0.0.1 port 22"),
        Some(ip(192, 168, 1, 5))
    );
    assert_eq!(matcher.origin("10.0.0.1"), Some(ip(10, 0, 0, 1)));
    assert_eq!(matcher.origin("Failed password for root from 203.0.113.7 port 4242 ssh2"), Some(ip(203, 0, 113, 7)));
}

#[test]
fn octets_out_of_range_are_cut_or_passed_over() {
    let matcher = OriginMatcher::new().unwrap();
    assert_eq!(matcher.origin("from 1.2.3.256"), Some(ip(1, 2, 3, 25)));
    assert_eq!(matcher.origin("from 256.1.1.1.1"), Some(ip(1, 1, 1, 1)));
    assert_eq!(matcher.origin("from 010.0.0.1"), Some(ip(10, 0, 0, 1)));
}

#[test]
fn extract_reads_the_message_of_the_record() {
    let matcher = OriginMatcher::new().unwrap();
    let record = LogEntry::parse(&record_line("from 192.168.1.5 to 10.0.0.1")).unwrap();
    assert_eq!(matcher.extract(&record), Some(ip(192, 168, 1, 5)));
    let silent = LogEntry::parse(&record_line("session closed")).unwrap();
    assert_eq!(matcher.extract(&silent), None);
}

#[test]
fn failed_batch_cannot_be_grouped() {
    let out = LogOutput::parse("broken\nalso broken").unwrap();
    assert_eq!(out.status, OutputStatus::FAILED);
    assert_eq!(out.by_ips().err(), Some(SshLogParserError::LogExtraction));
}

#[test]
fn empty_batch_groups_to_nothing() {
    let out = LogOutput::parse("").unwrap();
    assert!(out.by_ips().unwrap().is_empty());
}

#[test]
fn records_with_the_same_origin_share_a_group() {
    let out = batch(&["first 1.2.3.4 seen", "again 1.2.3.4", "no ip here"]);
    let groups = out.by_ips().unwrap();
    assert_eq!(groups.len(), 1);
    let group = &groups[&ip(1, 2, 3, 4)];
    assert_eq!(group.len(), 2);
    assert_eq!(group[0].message, "first 1.2.3.4 seen");
    assert_eq!(group[1].message, "again 1.2.3.4");
}

#[test]
fn batch_with_warnings_is_grouped_all_the_same() {
    let payload = format!("{}\nbroken\n{}", record_line("a 10.0.0.1"), record_line("b 10.0.0.2"));
    let out = LogOutput::parse(&payload).unwrap();
    assert_eq!(out.status, OutputStatus::WARNINGS);
    let groups = out.by_ips().unwrap();
    let mut origins: Vec<u32> = groups.keys().copied().collect();
    origins.sort();
    assert_eq!(origins, vec![ip(10, 0, 0, 1), ip(10, 0, 0, 2)]);
}

#[test]
fn groups_keep_the_order_of_the_batch() {
    let messages: Vec<String> = (0..200).map(|i| format!("n{} from 10.0.0.{}", i, i % 3)).collect();
    let borrowed: Vec<&str> = messages.iter().map(|message| message.as_str()).collect();
    let out = batch(&borrowed);
    let groups = out.by_ips().unwrap();
    assert_eq!(groups.len(), 3);
    for last in 0..3u32 {
        let expected: Vec<String> =
            (0..200).filter(|i| i % 3 == last).map(|i| format!("n{} from 10.0.0.{}", i, last)).collect();
        let found: Vec<String> = groups[&ip(10, 0, 0, last)].iter().map(|record| record.message.clone()).collect();
        assert_eq!(found, expected);
    }
}

#[test]
fn merging_partial_groupings_gives_the_grouping_of_the_whole() {
    let out = batch(&["a 10.0.0.1", "b 10.0.0.2", "c 10.0.0.1", "d", "e 10.0.0.3", "f 10.0.0.2"]);
    let matcher = OriginMatcher::new().unwrap();
    let whole = out.by_ips().unwrap();
    for cut in 0..=out.logs.len() {
        let mut first = no_groups();
        for record in &out.logs[..cut] {
            first = group_record(first, record, &matcher);
        }
        let mut second = no_groups();
        for record in &out.logs[cut..] {
            second = group_record(second, record, &matcher);
        }
        let merged = merge_groups(first, second);
        assert_eq!(merged.len(), whole.len());
        for (origin, records) in whole.iter() {
            assert_eq!(&merged[origin], records, "cut at {}", cut);
        }
    }
}
