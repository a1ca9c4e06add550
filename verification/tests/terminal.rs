use gstplugins::terminal::{terminal_frame, terminal_setup_sequence, terminal_teardown_sequence};

#[test]
fn setup_switches_to_alternate_screen_and_hides_cursor() {
    assert_eq!(terminal_setup_sequence(), "\x1B[?1049h\x1B[?25l");
}

#[test]
fn teardown_shows_cursor_and_switches_back() {
    assert_eq!(terminal_teardown_sequence(), "\x1B[?25h\x1B[?1049l");
}

#[test]
fn frame_is_written_at_top_left_between_save_and_restore() {
    assert_eq!(terminal_frame("abc"), "\x1B7\x1B[0;0Habc\x1B8");
}

#[test]
fn empty_frame_still_moves_the_cursor() {
    assert_eq!(terminal_frame(""), "\x1B7\x1B[0;0H\x1B8");
}

#[test]
fn frame_text_is_kept_verbatim() {
    let text = "\x1B[38;2;255;0;0m▀\x1B[0m\n";
    let out = terminal_frame(text);
    assert!(out.starts_with("\x1B7\x1B[0;0H"));
    assert!(out.ends_with("\x1B8"));
    assert_eq!(&out[8..out.len() - 2], text);
}
