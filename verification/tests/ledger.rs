use hearit::diag::{log_line, needs_shelving, MAX_BYTES};
use hearit::gaplog::{gap_csv_row, gap_log_plan, header_is_current, shelf_file_name, GapLogPlan, GapRow, GAP_HEADER};
use hearit::pill::pill_position;
use hearit::text::{decimal_string, str_eq, strip_prefix};

#[test]
fn gap_row_lines_up_with_header() {
    let row = GapRow {
        dead_air_ms: 812,
        chars: 1234,
        sentences: 9,
        grab_ms: 120,
        engine_wait_ms: 0,
        first_synth_ms: 650,
        first_audio_ms: 2_000,
    };
    let line = gap_csv_row(1_754_000_000, &row);
    assert_eq!(line, "1754000000,812,1234,9,120,0,650,2000");
    assert_eq!(line.split(',').count(), GAP_HEADER.split(',').count());
}

#[test]
fn header_check_ignores_surrounding_whitespace() {
    assert!(header_is_current(&format!("  {GAP_HEADER}\r")));
    assert!(!header_is_current("unix_ts,dead_air_ms"));
}

#[test]
fn gap_log_plan_shelves_foreign_schemas() {
    assert_eq!(gap_log_plan(None, false), GapLogPlan { shelve_first: false, write_header: true });
    assert_eq!(gap_log_plan(None, true), GapLogPlan { shelve_first: false, write_header: false });
    assert_eq!(gap_log_plan(Some(GAP_HEADER), true), GapLogPlan { shelve_first: false, write_header: false });
    assert_eq!(gap_log_plan(Some("old,header"), true), GapLogPlan { shelve_first: true, write_header: true });
    assert_eq!(gap_log_plan(Some(""), true), GapLogPlan { shelve_first: true, write_header: true });
    assert_eq!(shelf_file_name(42), "dead-air-log-old-42.csv");
}

#[test]
fn engine_log_shelves_past_the_limit() {
    assert!(!needs_shelving(None));
    assert!(!needs_shelving(Some(MAX_BYTES)));
    assert!(needs_shelving(Some(MAX_BYTES + 1)));
    assert_eq!(MAX_BYTES, 262_144);
    assert_eq!(log_line(1_700_000_000, "[hearit] exiting"), "1700000000 [hearit] exiting");
}

#[test]
fn pill_sits_bottom_centre() {
    assert_eq!(pill_position(1920, 1080, 200, 60), (860, 924));
    assert_eq!(pill_position(100, 100, 200, 60), (0, 0));
}

#[test]
fn decimal_matches_to_string() {
    for n in [0u64, 7, 10, 99, 100, 8880, u64::MAX] {
        assert_eq!(decimal_string(n), n.to_string());
    }
}

#[test]
fn string_helpers() {
    assert!(str_eq("héllo", "héllo"));
    assert!(!str_eq("abc", "abd"));
    assert!(!str_eq("ab", "abc"));
    assert_eq!(strip_prefix("speed:1.5", "speed:"), Some("1.5"));
    assert_eq!(strip_prefix("spee", "speed:"), None);
    assert_eq!(strip_prefix("quit", "speed:"), None);
}

#[test]
fn gap_header_is_exact() {
    assert!(hearit::gaplog::is_gap_header(GAP_HEADER));
    assert!(!hearit::gaplog::is_gap_header(&format!(" {GAP_HEADER}")));
}

#[test]
fn trim_matches_std() {
    for s in ["  a b \t", "\u{3000}x\u{85}", "", " \n ", "abc", "\u{200B}x"] {
        assert_eq!(hearit::text::trim(s), s.trim());
    }
    assert!(hearit::text::is_white_space('\u{2028}'));
    assert!(!hearit::text::is_white_space('\u{200B}'));
}
