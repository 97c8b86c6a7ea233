use transcoder::timecode::{
    find_subslice, format_timestamp, parse_duration_line, parse_progress_line, parse_timestamp,
    token_end,
};

#[test]
fn timestamp_plain() {
    assert_eq!(parse_timestamp(b"00:01:30.50"), Some(90500));
    assert_eq!(parse_timestamp(b"00:00:05.12"), Some(5120));
    assert_eq!(parse_timestamp(b"12:34:56"), Some(45296000));
    assert_eq!(parse_timestamp(b"00:00:00"), Some(0));
    assert_eq!(parse_timestamp(b"99:59:59.999"), Some(359999999));
}

#[test]
fn timestamp_varying_precision() {
    assert_eq!(parse_timestamp(b"00:00:01.5"), Some(1500));
    assert_eq!(parse_timestamp(b"00:00:01.50"), Some(1500));
    assert_eq!(parse_timestamp(b"00:00:01.500"), Some(1500));
    assert_eq!(parse_timestamp(b"00:00:01.2345"), Some(1234));
}

#[test]
fn timestamp_malformed() {
    assert_eq!(parse_timestamp(b""), None);
    assert_eq!(parse_timestamp(b"N/A"), None);
    assert_eq!(parse_timestamp(b"00:00:0"), None);
    assert_eq!(parse_timestamp(b"00:99:00"), None);
    assert_eq!(parse_timestamp(b"00:00:99"), None);
    assert_eq!(parse_timestamp(b"00:00:05."), None);
    assert_eq!(parse_timestamp(b"0a:00:05"), None);
    assert_eq!(parse_timestamp(b"00:00:05.1x"), None);
    assert_eq!(parse_timestamp(b"00-00-05"), None);
}

#[test]
fn find_subslice_positions() {
    assert_eq!(find_subslice(b"abcabc", b"bc"), Some(1));
    assert_eq!(find_subslice(b"abcabc", b"abc"), Some(0));
    assert_eq!(find_subslice(b"abcabc", b"cab"), Some(2));
    assert_eq!(find_subslice(b"abcabc", b"zz"), None);
    assert_eq!(find_subslice(b"ab", b"abc"), None);
    assert_eq!(find_subslice(b"abc", b""), Some(0));
}

#[test]
fn token_end_stops_at_delimiters() {
    assert_eq!(token_end(b"00:01:30.50, start", 0), 11);
    assert_eq!(token_end(b"00:00:05.12 bitrate", 0), 11);
    assert_eq!(token_end(b"plain", 0), 5);
    assert_eq!(token_end(b"a b", 2), 3);
}

#[test]
fn duration_line_matches() {
    assert_eq!(
        parse_duration_line(b"  Duration: 00:01:30.50, start: 0.000000, bitrate: 1200 kb/s"),
        Some(90500)
    );
    assert_eq!(parse_duration_line(b"  Duration: 12:00:00, start: 0"), Some(43200000));
}

#[test]
fn duration_line_unparseable_is_ignored() {
    assert_eq!(parse_duration_line(b"  Duration: N/A, start: 0.000000"), None);
    assert_eq!(parse_duration_line(b"Input #0, mov, from 'in.mov':"), None);
    assert_eq!(parse_duration_line(b""), None);
}

#[test]
fn progress_line_matches() {
    assert_eq!(
        parse_progress_line(b"frame=  100 fps= 25 q=28.0 size=     256kB time=00:00:05.12 bitrate= 409.6kbits/s"),
        Some(5120)
    );
    assert_eq!(parse_progress_line(b"time=00:00:00.00 bitrate=N/A"), Some(0));
}

#[test]
fn progress_line_unparseable_is_ignored() {
    assert_eq!(parse_progress_line(b"frame=  100 fps= 25"), None);
    assert_eq!(parse_progress_line(b"time=N/A bitrate=N/A"), None);
}

#[test]
fn format_renders_fixed_width() {
    assert_eq!(format_timestamp(90500), b"00:01:30.500".to_vec());
    assert_eq!(format_timestamp(0), b"00:00:00.000".to_vec());
    assert_eq!(format_timestamp(45296789), b"12:34:56.789".to_vec());
    assert_eq!(format_timestamp(359999999), b"99:59:59.999".to_vec());
}

#[test]
fn format_then_parse_round_trips() {
    for &ms in &[0u64, 1, 999, 1000, 90500, 5120, 45296789, 359999999] {
        let rendered = format_timestamp(ms);
        assert_eq!(parse_timestamp(&rendered), Some(ms));
    }
}
