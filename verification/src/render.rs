//! The rendering algorithm: the exact character sequence of an in-progress
//! line, of a finalization line, and of the frame each mode wraps them in.

use vstd::prelude::*;
use vstd::arithmetic::div_mod::{
    lemma_div_is_ordered, lemma_div_multiples_vanish_fancy, lemma_div_pos_is_pos,
};
use vstd::arithmetic::mul::{lemma_mul_inequality, lemma_mul_nonnegative, lemma_mul_upper_bound};
use vstd::string::StringExecFns;
use crate::text::{char_repeat, dec_chars, pad_chars, push_decimal, push_repeat, push_char};

verus! {

/// How many cells of a `width`-cell track are filled at `current` out of
/// `total`: `current/total * width` rounded to the nearest integer, halves
/// rounded up.  Written with integer division: `(current*width + total/2) / total`.
pub open spec fn filled_cells(current: u64, total: u64, width: usize) -> int {
    (current as int * width as int + total as int / 2) / total as int
}

/// The percentage shown beside the track: `current/total * 100`, truncated.
pub open spec fn percent_value(current: u64, total: u64) -> int {
    current as int * 100 / total as int
}

/// The bar track: the fill glyph for every filled cell, then the empty
/// glyph for the rest.
pub open spec fn bar_chars(current: u64, total: u64, width: usize, fill: char, empty: char) -> Seq<
    char,
> {
    let f = filled_cells(current, total, width) as nat;
    char_repeat(fill, f) + char_repeat(empty, (width - f) as nat)
}

/// The full in-progress line:
/// `[<bar>] <percent>% <current>/<total>`, with ` <message>` appended only
/// when the message is non-empty, and the percent right-aligned to three
/// columns.
pub open spec fn line_chars(
    current: u64,
    total: u64,
    width: usize,
    fill: char,
    empty: char,
    message: Seq<char>,
) -> Seq<char> {
    let p = percent_value(current, total) as nat;
    seq!['['] + bar_chars(current, total, width, fill, empty) + seq![']', ' '] + pad_chars(p)
        + dec_chars(p) + seq!['%', ' '] + dec_chars(current as nat) + seq!['/'] + dec_chars(
        total as nat,
    ) + (if message.len() == 0 {
        Seq::<char>::empty()
    } else {
        seq![' '] + message
    })
}

/// The frame around an in-progress line: terminal mode overwrites in place
/// with a leading carriage return and no newline; non-terminal mode appends
/// one newline-terminated record.
pub open spec fn progress_frame(is_tty: bool, line: Seq<char>) -> Seq<char> {
    if is_tty {
        seq!['\r'] + line
    } else {
        line + seq!['\n']
    }
}

/// The finalization output: terminal mode clears the in-progress line and
/// colors the symbol; non-terminal mode writes the bare symbol, with no
/// escape codes.
pub open spec fn finalize_chars(is_tty: bool, success: bool, message: Seq<char>) -> Seq<char> {
    let symbol = if success {
        '✔'
    } else {
        '✖'
    };
    if is_tty {
        seq!['\r', '\u{1b}', '[', '2', 'K', '\u{1b}', '[', '3', (if success {
            '2'
        } else {
            '1'
        }), 'm', symbol, '\u{1b}', '[', '0', 'm', ' '] + message + seq!['\n']
    } else {
        seq![symbol, ' '] + message + seq!['\n']
    }
}

/// The number of filled cells never exceeds the width, for any in-range
/// counter.
pub proof fn lemma_filled_cells_range(current: u64, total: u64, width: usize)
    requires
        1 <= total,
        current <= total,
    ensures
        0 <= filled_cells(current, total, width) <= width,
{
    let c = current as int;
    let t = total as int;
    let w = width as int;
    lemma_mul_nonnegative(c, w);
    lemma_div_pos_is_pos(c * w + t / 2, t);
    lemma_mul_inequality(c, t, w);
    lemma_div_is_ordered(c * w + t / 2, t * w + t / 2, t);
    lemma_div_multiples_vanish_fancy(w, t / 2, t);
}

/// The truncated percentage never exceeds one hundred, for any in-range
/// counter.
pub proof fn lemma_percent_range(current: u64, total: u64)
    requires
        1 <= total,
        current <= total,
    ensures
        0 <= percent_value(current, total) <= 100,
{
    let c = current as int;
    let t = total as int;
    lemma_mul_nonnegative(c, 100);
    lemma_div_pos_is_pos(c * 100, t);
    lemma_mul_inequality(c, t, 100);
    lemma_div_is_ordered(c * 100, t * 100, t);
    lemma_div_multiples_vanish_fancy(100, 0, t);
}

/// No escape character anywhere in `s`.
pub open spec fn no_ansi(s: Seq<char>) -> bool {
    forall|i: int| 0 <= i < s.len() ==> s[i] != '\u{1b}'
}

proof fn lemma_no_ansi_concat(a: Seq<char>, b: Seq<char>)
    requires
        no_ansi(a),
        no_ansi(b),
    ensures
        no_ansi(a + b),
{
    assert forall|i: int| 0 <= i < (a + b).len() implies (a + b)[i] != '\u{1b}' by {
        if i < a.len() {
            assert((a + b)[i] == a[i]);
        } else {
            assert((a + b)[i] == b[i - a.len()]);
        }
    }
}

proof fn lemma_dec_chars_no_ansi(n: nat)
    ensures
        no_ansi(dec_chars(n)),
{
    crate::text::lemma_dec_chars_digits(n);
    assert forall|i: int| 0 <= i < dec_chars(n).len() implies dec_chars(n)[i] != '\u{1b}' by {
        assert(crate::text::is_decimal_digit(dec_chars(n)[i]));
    }
}

/// Law: a terminal-mode in-progress frame always begins with a carriage
/// return, and so does a terminal-mode finalization line.
pub proof fn lemma_tty_frames_lead_with_cr(line: Seq<char>, success: bool, message: Seq<char>)
    ensures
        progress_frame(true, line)[0] == '\r',
        finalize_chars(true, success, message)[0] == '\r',
{
}

/// Law: with escape-free glyphs and message, non-terminal output contains
/// no ANSI escape character, neither in an in-progress frame nor in a
/// finalization line.
pub proof fn lemma_non_tty_no_ansi(
    current: u64,
    total: u64,
    width: usize,
    fill: char,
    empty: char,
    message: Seq<char>,
    success: bool,
)
    requires
        fill != '\u{1b}',
        empty != '\u{1b}',
        no_ansi(message),
    ensures
        no_ansi(progress_frame(false, line_chars(current, total, width, fill, empty, message))),
        no_ansi(finalize_chars(false, success, message)),
{
    let p = percent_value(current, total) as nat;
    let f = filled_cells(current, total, width) as nat;
    lemma_dec_chars_no_ansi(p);
    lemma_dec_chars_no_ansi(current as nat);
    lemma_dec_chars_no_ansi(total as nat);
    lemma_no_ansi_concat(char_repeat(fill, f), char_repeat(empty, (width - f) as nat));
    lemma_no_ansi_concat(seq!['['], bar_chars(current, total, width, fill, empty));
    let s1 = seq!['['] + bar_chars(current, total, width, fill, empty);
    lemma_no_ansi_concat(s1, seq![']', ' ']);
    let s2 = s1 + seq![']', ' '];
    lemma_no_ansi_concat(s2, pad_chars(p));
    let s3 = s2 + pad_chars(p);
    lemma_no_ansi_concat(s3, dec_chars(p));
    let s4 = s3 + dec_chars(p);
    lemma_no_ansi_concat(s4, seq!['%', ' ']);
    let s5 = s4 + seq!['%', ' '];
    lemma_no_ansi_concat(s5, dec_chars(current as nat));
    let s6 = s5 + dec_chars(current as nat);
    lemma_no_ansi_concat(s6, seq!['/']);
    let s7 = s6 + seq!['/'];
    lemma_no_ansi_concat(s7, dec_chars(total as nat));
    let s8 = s7 + dec_chars(total as nat);
    let tail = if message.len() == 0 {
        Seq::<char>::empty()
    } else {
        seq![' '] + message
    };
    if message.len() != 0 {
        lemma_no_ansi_concat(seq![' '], message);
    }
    lemma_no_ansi_concat(s8, tail);
    let line = line_chars(current, total, width, fill, empty, message);
    assert(line == s8 + tail);
    lemma_no_ansi_concat(line, seq!['\n']);
    let symbol = if success {
        '✔'
    } else {
        '✖'
    };
    lemma_no_ansi_concat(seq![symbol, ' '], message);
    lemma_no_ansi_concat(seq![symbol, ' '] + message, seq!['\n']);
}

/// Law: the rendered line splits exactly as the algorithm describes: one
/// opening bracket, a track of exactly `width` cells with the rounded fill
/// count first, the right-aligned truncated percent, the counter pair, and
/// the message verbatim when non-empty.
pub proof fn lemma_line_structure(
    current: u64,
    total: u64,
    width: usize,
    fill: char,
    empty: char,
    message: Seq<char>,
)
    requires
        1 <= total,
        current <= total,
    ensures
        ({
            let line = line_chars(current, total, width, fill, empty, message);
            let f = filled_cells(current, total, width) as nat;
            let p = percent_value(current, total) as nat;
            let pct = pad_chars(p).len() + dec_chars(p).len();
            let counts = dec_chars(current as nat) + seq!['/'] + dec_chars(total as nat);
            &&& line.len() == 5 + width + pct + counts.len() + (if message.len() == 0 {
                0int
            } else {
                1 + message.len() as int
            })
            &&& line[0] == '['
            &&& line.subrange(1, 1 + width as int) == char_repeat(fill, f) + char_repeat(
                empty,
                (width - f) as nat,
            )
            &&& line.subrange(
                3 + width as int,
                3 + width as int + pct as int + 1,
            ) == pad_chars(p) + dec_chars(p) + seq!['%']
            &&& line.subrange(
                5 + width as int + pct as int,
                5 + width as int + pct as int + counts.len() as int,
            ) == counts
            &&& message.len() > 0 ==> line.subrange(
                line.len() - message.len(),
                line.len() as int,
            ) == message
        }),
{
    lemma_filled_cells_range(current, total, width);
    let line = line_chars(current, total, width, fill, empty, message);
    let f = filled_cells(current, total, width) as nat;
    let p = percent_value(current, total) as nat;
    let pct = pad_chars(p).len() + dec_chars(p).len();
    let counts = dec_chars(current as nat) + seq!['/'] + dec_chars(total as nat);
    assert(line.subrange(1, 1 + width as int) =~= char_repeat(fill, f) + char_repeat(
        empty,
        (width - f) as nat,
    ));
    assert(line.subrange(3 + width as int, 3 + width as int + pct as int + 1) =~= pad_chars(p)
        + dec_chars(p) + seq!['%']);
    assert(line.subrange(
        5 + width as int + pct as int,
        5 + width as int + pct as int + counts.len() as int,
    ) =~= counts);
    if message.len() > 0 {
        assert(line.subrange(line.len() - message.len(), line.len() as int) =~= message);
    }
}

/// Builds the in-progress line for the given state.
pub fn render_line(
    current: u64,
    total: u64,
    width: usize,
    fill: char,
    empty: char,
    message: &str,
) -> (line: String)
    requires
        1 <= total,
        current <= total,
    ensures
        line@ == line_chars(current, total, width, fill, empty, message@),
{
    proof {
        lemma_mul_upper_bound(current as int, u64::MAX as int, width as int, u64::MAX as int);
        lemma_filled_cells_range(current, total, width);
        lemma_percent_range(current, total);
    }
    let cw: u128 = (current as u128) * (width as u128);
    let filled_wide: u128 = (cw + (total as u128) / 2) / (total as u128);
    let filled: usize = filled_wide as usize;
    let empty_count: usize = width - filled;
    let percent: u64 = ((current as u128) * 100 / (total as u128)) as u64;

    let mut out = String::new();
    push_char(&mut out, '[');
    push_repeat(&mut out, fill, filled);
    push_repeat(&mut out, empty, empty_count);
    push_char(&mut out, ']');
    push_char(&mut out, ' ');
    if percent < 10 {
        push_char(&mut out, ' ');
        push_char(&mut out, ' ');
    } else if percent < 100 {
        push_char(&mut out, ' ');
    }
    push_decimal(&mut out, percent);
    push_char(&mut out, '%');
    push_char(&mut out, ' ');
    push_decimal(&mut out, current);
    push_char(&mut out, '/');
    push_decimal(&mut out, total);
    if !message.is_empty() {
        push_char(&mut out, ' ');
        out.append(message);
    }
    proof {
        assert(out@ =~= line_chars(current, total, width, fill, empty, message@));
    }
    out
}

} // verus!
