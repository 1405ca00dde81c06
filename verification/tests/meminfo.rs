use fdp_sui_bench::meminfo::parse_meminfo;
use fdp_sui_bench::pressure::MemorySample;

#[test]
fn parse_meminfo_reads_total_and_available() {
    let text = b"MemTotal:       16384000 kB\nMemFree:         1000000 kB\nMemAvailable:    4096000 kB\nBuffers:          123456 kB\n";
    assert_eq!(parse_meminfo(text), MemorySample { total: 16384000, available: Some(4096000) });
    assert_eq!(parse_meminfo(text).usage(), 750_000);
}

#[test]
fn parse_meminfo_of_an_empty_report_shows_nothing() {
    assert_eq!(parse_meminfo(b""), MemorySample { total: 0, available: None });
    assert_eq!(parse_meminfo(b"\n\n\n"), MemorySample { total: 0, available: None });
    assert_eq!(
        parse_meminfo(b"Buffers: 12 kB\nCached: 5 kB"),
        MemorySample { total: 0, available: None }
    );
    assert_eq!(parse_meminfo(b"").usage(), 0);
}

#[test]
fn parse_meminfo_without_a_total_has_no_usage() {
    let sample = parse_meminfo(b"MemAvailable: 500 kB\n");
    assert_eq!(sample, MemorySample { total: 0, available: Some(500) });
    assert_eq!(sample.usage(), 0);
}

#[test]
fn parse_meminfo_reads_a_last_line_without_line_feed() {
    assert_eq!(
        parse_meminfo(b"MemAvailable: 5\nMemTotal: 20"),
        MemorySample { total: 20, available: Some(5) }
    );
}

#[test]
fn parse_meminfo_stops_once_both_figures_are_positive() {
    let text = b"MemTotal: 100 kB\nMemAvailable: 40 kB\nMemTotal: 999 kB\nMemAvailable: 1 kB\n";
    assert_eq!(parse_meminfo(text), MemorySample { total: 100, available: Some(40) });
}

#[test]
fn parse_meminfo_lets_a_later_line_replace_a_figure_while_one_is_zero() {
    let text = b"MemTotal: 100 kB\nMemTotal: 200 kB\nMemAvailable: 0 kB\nMemAvailable: 50 kB\nMemTotal: 7\n";
    assert_eq!(parse_meminfo(text), MemorySample { total: 200, available: Some(50) });
}

#[test]
fn parse_meminfo_counts_an_unreadable_figure_as_zero() {
    assert_eq!(parse_meminfo(b"MemTotal: lots kB\n").total, 0);
    assert_eq!(parse_meminfo(b"MemTotal: 12x kB\n").total, 0);
    assert_eq!(parse_meminfo(b"MemTotal: -12 kB\n").total, 0);
    assert_eq!(parse_meminfo(b"MemTotal: 1.5 kB\n").total, 0);
    assert_eq!(parse_meminfo(b"MemTotal:\n").total, 0);
    assert_eq!(parse_meminfo(b"MemTotal:   \n").total, 0);
    assert_eq!(parse_meminfo(b"MemTotal: +\n").total, 0);
    assert_eq!(parse_meminfo(b"MemTotal: 5\nMemTotal: x\n").total, 0);
    assert_eq!(parse_meminfo(b"MemAvailable: lots kB\n").available, None);
    assert_eq!(parse_meminfo(b"MemAvailable: 7 kB\n").available, Some(7));
}

#[test]
fn parse_meminfo_takes_the_second_word_of_the_line() {
    assert_eq!(parse_meminfo(b"MemTotal:16384 77 kB\n").total, 77);
    assert_eq!(parse_meminfo(b"MemTotal:16384\n").total, 0);
    assert_eq!(parse_meminfo(b"MemTotal:\t\t42\r\n").total, 42);
    assert_eq!(parse_meminfo(b"MemTotal: 42 43\n").total, 42);
}

#[test]
fn parse_meminfo_wants_the_label_at_the_start_of_the_line() {
    assert_eq!(parse_meminfo(b" MemTotal: 42\n").total, 0);
    assert_eq!(parse_meminfo(b"memtotal: 42\n").total, 0);
    assert_eq!(parse_meminfo(b"MemTotal 42\n").total, 0);
    assert_eq!(parse_meminfo(b"MemTota").total, 0);
}

#[test]
fn parse_meminfo_reads_numbers_as_wide_as_64_bits() {
    assert_eq!(parse_meminfo(b"MemTotal: 18446744073709551615\n").total, u64::MAX);
    assert_eq!(parse_meminfo(b"MemTotal: 18446744073709551616\n").total, 0);
    assert_eq!(parse_meminfo(b"MemTotal: 99999999999999999999999\n").total, 0);
    assert_eq!(parse_meminfo(b"MemTotal: +17\n").total, 17);
    assert_eq!(parse_meminfo(b"MemTotal: 000000000000000000000000017\n").total, 17);
}

#[test]
fn parse_meminfo_agrees_with_the_standard_parse_of_the_second_word() {
    for line in [
        "MemTotal: 123 kB",
        "MemTotal:   9 ",
        "MemTotal: +5",
        "MemTotal: ++5",
        "MemTotal: 5+",
        "MemTotal:  kB",
        "MemTotal: 0",
        "MemTotal:\u{b}7",
        "MemTotal:\u{c}8\u{c}",
    ] {
        let expected: u64 = line
            .split_whitespace()
            .nth(1)
            .and_then(|s| s.parse().ok())
            .unwrap_or(0);
        assert_eq!(parse_meminfo(line.as_bytes()).total, expected, "{line:?}");
    }
}

#[test]
fn parse_meminfo_without_an_available_line_shows_no_usage() {
    let sample = parse_meminfo(b"MemTotal: 8");
    assert_eq!(sample, MemorySample { total: 8, available: None });
    assert_eq!(sample.usage(), 0);
    let sample = parse_meminfo(b"MemTotal:       16384000 kB\nMemFree:         1000000 kB\n");
    assert_eq!(sample, MemorySample { total: 16384000, available: None });
    assert_eq!(sample.usage(), 0);
}

#[test]
fn parse_meminfo_with_an_unreadable_available_figure_shows_no_usage() {
    for text in [
        &b"MemTotal: 100 kB\nMemAvailable: lots kB\n"[..],
        &b"MemTotal: 100 kB\nMemAvailable:\n"[..],
        &b"MemAvailable: -5 kB\nMemTotal: 100 kB\n"[..],
        &b"MemTotal: 100 kB\nMemAvailable: 99999999999999999999999 kB\n"[..],
        &b"MemTotal: 100 kB\nMemAvailable: 40x\n"[..],
    ] {
        let sample = parse_meminfo(text);
        assert_eq!(sample, MemorySample { total: 100, available: None });
        assert_eq!(sample.usage(), 0);
    }
}

#[test]
fn parse_meminfo_lets_an_unreadable_line_replace_a_figure_read_before() {
    let sample = parse_meminfo(b"MemAvailable: 40 kB\nMemAvailable: x\nMemTotal: 100 kB\n");
    assert_eq!(sample, MemorySample { total: 100, available: None });
    assert_eq!(sample.usage(), 0);
}

#[test]
fn parse_meminfo_with_an_available_figure_of_zero_shows_full_usage() {
    let sample = parse_meminfo(b"MemTotal: 100 kB\nMemAvailable: 0 kB\n");
    assert_eq!(sample, MemorySample { total: 100, available: Some(0) });
    assert_eq!(sample.usage(), 1_000_000);
}

#[test]
fn parse_meminfo_with_an_unreadable_total_shows_no_usage() {
    let sample = parse_meminfo(b"MemTotal: many kB\nMemAvailable: 40 kB\n");
    assert_eq!(sample, MemorySample { total: 0, available: Some(40) });
    assert_eq!(sample.usage(), 0);
}
