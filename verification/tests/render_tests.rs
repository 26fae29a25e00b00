use pound::cursor::Direction;
use pound::render::Output;

const CLEAR_LINE: &str = "\u{1b}[K";

fn frame_for(cols: usize, rows: usize) -> String {
    let mut out = Output::new((cols, rows));
    out.draw_rows();
    out.editor_contents.take()
}

#[test]
fn banner_is_truncated_to_twenty_columns_without_padding() {
    // The 30-character banner overflows a 20-column viewport: it is cut to
    // exactly 20 characters and no '~' or spaces are emitted before it.
    let frame = frame_for(20, 1);
    assert_eq!(frame, format!("Pound Editor --- Ver{}", CLEAR_LINE));
}

#[test]
fn banner_is_centered_in_forty_columns() {
    // 40 columns leave (40 - 30) / 2 = 5 columns of left padding: one '~'
    // and four spaces, then the full banner.
    let frame = frame_for(40, 1);
    assert_eq!(
        frame,
        format!("~    Pound Editor --- Version 0.0.1{}", CLEAR_LINE)
    );
}

#[test]
fn banner_exactly_fits_thirty_columns() {
    let frame = frame_for(30, 1);
    assert_eq!(frame, format!("Pound Editor --- Version 0.0.1{}", CLEAR_LINE));
}

#[test]
fn one_column_viewport_shows_first_banner_letter() {
    let frame = frame_for(1, 1);
    assert_eq!(frame, format!("P{}", CLEAR_LINE));
}

#[test]
fn frame_has_exactly_rows_line_segments_with_one_banner() {
    // rows = 4: the banner sits on line 4 / 3 = 1; every other line is a
    // lone tilde. Lines are separated by "\r\n" with none after the last.
    let frame = frame_for(10, 4);
    let segments: Vec<&str> = frame.split("\r\n").collect();
    assert_eq!(segments.len(), 4);
    assert_eq!(segments[0], format!("~{}", CLEAR_LINE));
    assert_eq!(segments[1], format!("Pound Edit{}", CLEAR_LINE));
    assert_eq!(segments[2], format!("~{}", CLEAR_LINE));
    assert_eq!(segments[3], format!("~{}", CLEAR_LINE));
    let banner_lines = segments.iter().filter(|s| s.contains("Pound")).count();
    assert_eq!(banner_lines, 1);
}

#[test]
fn every_line_segment_fits_the_viewport_width() {
    for (cols, rows) in [(1, 1), (2, 7), (20, 3), (33, 10), (80, 24)] {
        let frame = frame_for(cols, rows);
        let segments: Vec<&str> = frame.split("\r\n").collect();
        assert_eq!(segments.len(), rows);
        for seg in segments {
            let visible = seg.strip_suffix(CLEAR_LINE).expect("clear-line tail");
            assert!(visible.chars().count() <= cols);
        }
    }
}

#[test]
fn refresh_wraps_frame_in_cursor_handling() {
    // Hide the cursor, clear everything, draw from the top-left corner,
    // move the cursor back to its tracked position (one-based), show it.
    let mut out = Output::new((5, 2));
    out.refresh_screen();
    let expected = format!(
        "\u{1b}[?25l\u{1b}[2J\u{1b}[1;1HPound{}\r\n~{}\u{1b}[1;1H\u{1b}[?25h",
        CLEAR_LINE, CLEAR_LINE
    );
    assert_eq!(out.editor_contents.take(), expected);
}

#[test]
fn refresh_targets_the_tracked_cursor_position() {
    let mut out = Output::new((12, 6));
    out.move_cursor(Direction::Down);
    out.move_cursor(Direction::Right);
    out.move_cursor(Direction::Right);
    out.refresh_screen();
    let frame = out.editor_contents.take();
    // Zero-based (2, 1) becomes the one-based ANSI position 2;3.
    assert!(frame.ends_with("\u{1b}[2;3H\u{1b}[?25h"));
}
