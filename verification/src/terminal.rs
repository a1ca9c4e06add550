//! ANSI escape sequences written around the frames of the terminal sink.

use vstd::prelude::*;
use vstd::string::*;

verus! {

/// The character of a decimal digit `d < 10`.
pub open spec fn digit_char(d: nat) -> char {
    (48 + d) as char
}

/// The decimal representation of `n`, without leading zeros.
pub open spec fn decimal(n: nat) -> Seq<char>
    decreases n,
{
    if n < 10 {
        seq![digit_char(n)]
    } else {
        decimal(n / 10).push(digit_char(n % 10))
    }
}

/// The control sequence introducer `ESC [`.
pub open spec fn csi() -> Seq<char> {
    seq!['\x1B', '[']
}

/// The escape sequence that moves the cursor to `(column, row)`.
pub open spec fn move_cursor_seq(column: nat, row: nat) -> Seq<char> {
    csi() + decimal(row) + seq![';'] + decimal(column) + seq!['H']
}

/// `anes::SwitchBufferToAlternate` formatted: its `Display` writes `ESC [?1049h`.
#[verifier::external_body]
fn switch_buffer_to_alternate() -> (s: String)
    ensures
        s@ == csi() + seq!['?', '1', '0', '4', '9', 'h'],
{
    format!("{}", anes::SwitchBufferToAlternate)
}

/// `anes::SwitchBufferToNormal` formatted: its `Display` writes `ESC [?1049l`.
#[verifier::external_body]
fn switch_buffer_to_normal() -> (s: String)
    ensures
        s@ == csi() + seq!['?', '1', '0', '4', '9', 'l'],
{
    format!("{}", anes::SwitchBufferToNormal)
}

/// `anes::HideCursor` formatted: its `Display` writes `ESC [?25l`.
#[verifier::external_body]
fn hide_cursor() -> (s: String)
    ensures
        s@ == csi() + seq!['?', '2', '5', 'l'],
{
    format!("{}", anes::HideCursor)
}

/// `anes::ShowCursor` formatted: its `Display` writes `ESC [?25h`.
#[verifier::external_body]
fn show_cursor() -> (s: String)
    ensures
        s@ == csi() + seq!['?', '2', '5', 'h'],
{
    format!("{}", anes::ShowCursor)
}

/// `anes::SaveCursorPosition` formatted: its `Display` writes `ESC 7`.
#[verifier::external_body]
fn save_cursor_position() -> (s: String)
    ensures
        s@ == seq!['\x1B', '7'],
{
    format!("{}", anes::SaveCursorPosition)
}

/// `anes::RestoreCursorPosition` formatted: its `Display` writes `ESC 8`.
#[verifier::external_body]
fn restore_cursor_position() -> (s: String)
    ensures
        s@ == seq!['\x1B', '8'],
{
    format!("{}", anes::RestoreCursorPosition)
}

/// `anes::MoveCursorTo(column, row)` formatted: its `Display` writes
/// `ESC [`, the row and the column in decimal separated by `;`, then `H`.
#[verifier::external_body]
fn move_cursor_to(column: u16, row: u16) -> (s: String)
    ensures
        s@ == move_cursor_seq(column as nat, row as nat),
{
    format!("{}", anes::MoveCursorTo(column, row))
}

/// What the sink writes when it starts: switch to the alternate screen,
/// then hide the cursor.
pub open spec fn setup_seq() -> Seq<char> {
    csi() + seq!['?', '1', '0', '4', '9', 'h'] + csi() + seq!['?', '2', '5', 'l']
}

/// What the sink writes when it stops: show the cursor, then switch back
/// to the normal screen.
pub open spec fn teardown_seq() -> Seq<char> {
    csi() + seq!['?', '2', '5', 'h'] + csi() + seq!['?', '1', '0', '4', '9', 'l']
}

/// What the sink writes for one frame: save the cursor, move it to the
/// top left cell, the rendered text, then restore the cursor.
pub open spec fn frame_seq(text: Seq<char>) -> Seq<char> {
    seq!['\x1B', '7'] + move_cursor_seq(0, 0) + text + seq!['\x1B', '8']
}

/// A frame is written whole: it is `ESC 7 ESC [ 0 ; 0 H`, then every
/// character of the rendered text in order, then `ESC 8`, whatever the
/// length of the text.
pub proof fn lemma_frame_holds_whole_text(text: Seq<char>)
    ensures
        frame_seq(text).len() == text.len() + 10,
        frame_seq(text).subrange(0, 8) == seq!['\x1B', '7', '\x1B', '[', '0', ';', '0', 'H'],
        frame_seq(text).subrange(8, text.len() + 8int) == text,
        frame_seq(text).subrange(text.len() + 8int, text.len() + 10int) == seq!['\x1B', '8'],
        forall|i: int| 0 <= i < text.len() ==> #[trigger] frame_seq(text)[i + 8] == text[i],
{
    assert(digit_char(0) == '0');
    assert(decimal(0) =~= seq!['0']);
    assert(move_cursor_seq(0, 0) =~= seq!['\x1B', '[', '0', ';', '0', 'H']);
    let f = frame_seq(text);
    assert(f.subrange(0, 8) =~= seq!['\x1B', '7', '\x1B', '[', '0', ';', '0', 'H']);
    assert(f.subrange(8, text.len() + 8int) =~= text);
    assert(f.subrange(text.len() + 8int, text.len() + 10int) =~= seq!['\x1B', '8']);
}

/// The sequence that prepares the terminal for video output.
pub fn terminal_setup_sequence() -> (s: String)
    ensures
        s@ == setup_seq(),
{
    let a = switch_buffer_to_alternate();
    let b = hide_cursor();
    let s = a.concat(b.as_str());
    assert(s@ =~= setup_seq());
    s
}

/// The sequence that gives the terminal back to the shell.
pub fn terminal_teardown_sequence() -> (s: String)
    ensures
        s@ == teardown_seq(),
{
    let a = show_cursor();
    let b = switch_buffer_to_normal();
    let s = a.concat(b.as_str());
    assert(s@ =~= teardown_seq());
    s
}

/// The bytes written for one rendered frame `text`.
pub fn terminal_frame(text: &str) -> (s: String)
    ensures
        s@ == frame_seq(text@),
{
    let save = save_cursor_position();
    let home = move_cursor_to(0, 0);
    let restore = restore_cursor_position();
    let s = save.concat(home.as_str());
    let s = s.concat(text);
    let s = s.concat(restore.as_str());
    assert(s@ =~= frame_seq(text@));
    s
}

} // verus!
