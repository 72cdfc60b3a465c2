use moosic::handlers::music::{lyrics_lines, parse_lrc, parse_lrc_timestamp, parse_unsynced};

fn pairs(lines: &[moosic::handlers::music::LyricLine]) -> Vec<(Option<i64>, String)> {
    lines.iter().map(|l| (l.start_ms, l.text.clone())).collect()
}

#[test]
fn timestamp_with_hundredths() {
    assert_eq!(parse_lrc_timestamp("01:02.50"), Some(62_500));
    assert_eq!(parse_lrc_timestamp("00:00.01"), Some(10));
}

#[test]
fn timestamp_without_hundredths() {
    assert_eq!(parse_lrc_timestamp("00:05"), Some(5_000));
    assert_eq!(parse_lrc_timestamp("10:00"), Some(600_000));
}

#[test]
fn timestamp_rejects_malformed() {
    assert_eq!(parse_lrc_timestamp("abc"), None);
    assert_eq!(parse_lrc_timestamp("1:xx"), None);
    assert_eq!(parse_lrc_timestamp("ti:Title"), None);
    assert_eq!(parse_lrc_timestamp("01:02."), None);
}

#[test]
fn lrc_lines_with_and_without_times() {
    let lines = parse_lrc("[00:01.00] Hello \n\n  [00:02.50]World\nplain words\n[ar:Someone]");
    assert_eq!(
        pairs(&lines),
        vec![
            (Some(1_000), "Hello".to_string()),
            (Some(2_500), "World".to_string()),
            (None, "plain words".to_string()),
            (None, "[ar:Someone]".to_string()),
        ]
    );
}

#[test]
fn lrc_line_without_closing_bracket_is_text() {
    let lines = parse_lrc("[00:01.00 no close");
    assert_eq!(pairs(&lines), vec![(None, "[00:01.00 no close".to_string())]);
}

#[test]
fn unsynced_lines_are_trimmed_and_blank_ones_dropped() {
    let lines = parse_unsynced("  first \n\n\tsecond\n   \n");
    assert_eq!(
        pairs(&lines),
        vec![(None, "first".to_string()), (None, "second".to_string())]
    );
}

#[test]
fn lyrics_kind_selects_the_parser() {
    let synced = lyrics_lines("synced", "[00:03]x");
    assert_eq!(pairs(&synced), vec![(Some(3_000), "x".to_string())]);
    let plain = lyrics_lines("unsynced", "[00:03]x");
    assert_eq!(pairs(&plain), vec![(None, "[00:03]x".to_string())]);
}
