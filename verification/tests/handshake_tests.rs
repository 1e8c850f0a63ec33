use sidecar_supervisor::handshake::{
    parse_port_line_bytes, scan_lines, HandshakeReader, HandshakeStep, HANDSHAKE_LINE_BUDGET,
};

fn line(s: &str) -> Vec<u8> {
    s.as_bytes().to_vec()
}

#[test]
fn parses_plain_port_line() {
    assert_eq!(parse_port_line_bytes(&line("PORT:54321")), Some(54321));
}

#[test]
fn parses_surrounding_whitespace() {
    assert_eq!(parse_port_line_bytes(&line("PORT: 8080 \r")), Some(8080));
    assert_eq!(parse_port_line_bytes(&line("PORT:\t443")), Some(443));
}

#[test]
fn parses_leading_plus_sign() {
    assert_eq!(parse_port_line_bytes(&line("PORT:+443")), Some(443));
}

#[test]
fn parses_leading_zeros() {
    assert_eq!(parse_port_line_bytes(&line("PORT:008080")), Some(8080));
}

#[test]
fn parses_largest_port() {
    assert_eq!(parse_port_line_bytes(&line("PORT:65535")), Some(65535));
}

#[test]
fn parses_smallest_port() {
    assert_eq!(parse_port_line_bytes(&line("PORT:1")), Some(1));
}

#[test]
fn rejects_port_zero_and_keeps_scanning() {
    // Zero is the auto-assign request, never an announced port: out of
    // range, so the line is skipped like any other malformed candidate.
    assert_eq!(parse_port_line_bytes(&line("PORT:0")), None);
    assert_eq!(parse_port_line_bytes(&line("PORT:000")), None);
    assert_eq!(parse_port_line_bytes(&line("PORT:+0")), None);
    let lines = vec![line("PORT:0"), line("PORT:8081")];
    let r = scan_lines(&lines);
    assert_eq!(r.port, Some(8081));
    assert_eq!(r.lines_read, 2);
}

#[test]
fn rejects_wrong_prefix() {
    assert_eq!(parse_port_line_bytes(&line("Booting...")), None);
    assert_eq!(parse_port_line_bytes(&line(" PORT:8080")), None);
    assert_eq!(parse_port_line_bytes(&line("PORT 8080")), None);
    assert_eq!(parse_port_line_bytes(&line("port:8080")), None);
    assert_eq!(parse_port_line_bytes(&line("")), None);
}

#[test]
fn rejects_non_numeric_suffix() {
    assert_eq!(parse_port_line_bytes(&line("PORT:abc")), None);
    assert_eq!(parse_port_line_bytes(&line("PORT:80a")), None);
    assert_eq!(parse_port_line_bytes(&line("PORT:-80")), None);
    assert_eq!(parse_port_line_bytes(&line("PORT:12 3")), None);
}

#[test]
fn rejects_out_of_range_value() {
    assert_eq!(parse_port_line_bytes(&line("PORT:65536")), None);
    assert_eq!(parse_port_line_bytes(&line("PORT:99999999999999999999")), None);
}

#[test]
fn rejects_empty_suffix() {
    assert_eq!(parse_port_line_bytes(&line("PORT:")), None);
    assert_eq!(parse_port_line_bytes(&line("PORT:   ")), None);
    assert_eq!(parse_port_line_bytes(&line("PORT:+")), None);
}

#[test]
fn scan_stops_at_first_valid_line() {
    let lines = vec![line("Booting..."), line("PORT:54321"), line("Ready")];
    let r = scan_lines(&lines);
    assert_eq!(r.port, Some(54321));
    assert_eq!(r.lines_read, 2);
}

#[test]
fn scan_fails_after_budget_of_nonmatching_lines() {
    let lines: Vec<Vec<u8>> = (0..12).map(|i| line(&format!("log line {}", i))).collect();
    let r = scan_lines(&lines);
    assert_eq!(r.port, None);
    assert_eq!(r.lines_read, 10);
}

#[test]
fn scan_skips_malformed_candidates() {
    let lines = vec![line("PORT:abc"), line("PORT:99999999"), line("PORT:8081")];
    let r = scan_lines(&lines);
    assert_eq!(r.port, Some(8081));
    assert_eq!(r.lines_read, 3);
}

#[test]
fn scan_ignores_valid_line_beyond_budget() {
    let mut lines: Vec<Vec<u8>> = (0..10).map(|i| line(&format!("noise {}", i))).collect();
    lines.push(line("PORT:1234"));
    let r = scan_lines(&lines);
    assert_eq!(r.port, None);
    assert_eq!(r.lines_read, 10);
}

#[test]
fn scan_of_no_lines_fails_without_reading() {
    let lines: Vec<Vec<u8>> = Vec::new();
    let r = scan_lines(&lines);
    assert_eq!(r.port, None);
    assert_eq!(r.lines_read, 0);
}

#[test]
fn reader_steps_through_a_stream() {
    let mut reader = HandshakeReader::new();
    assert_eq!(reader.feed_line(&line("Booting...")), HandshakeStep::Continue);
    assert_eq!(reader.feed_line(&line("PORT:54321")), HandshakeStep::Found(54321));
}

#[test]
fn reader_exhausts_at_the_budget() {
    let mut reader = HandshakeReader::new();
    for i in 0..HANDSHAKE_LINE_BUDGET - 1 {
        assert_eq!(reader.feed_line(&line(&format!("noise {}", i))), HandshakeStep::Continue);
    }
    assert_eq!(reader.feed_line(&line("noise last")), HandshakeStep::Exhausted);
    assert_eq!(reader.lines_seen, HANDSHAKE_LINE_BUDGET);
}
