//! The per-request log line: a wall-clock timestamp, the status code
//! colorized by its class, the elapsed time in milliseconds and the
//! request path.

use crate::textfmt::dec_rep;
use crate::textfmt::dec_string;
use crate::textfmt::esc_free;
use crate::textfmt::lemma_dec_rep_esc_free;
use crate::textfmt::millis_rep;
use crate::textfmt::push_millis;
use colored::Colorize;
use vstd::prelude::*;

verus! {

/// The color a logged status code is painted with.
#[derive(PartialEq, Eq, Structural, Clone, Copy, Debug)]
pub enum StatusColor {
    Green,
    Yellow,
    Red,
}

/// Success statuses are green, informational and redirection statuses
/// yellow, client and server errors red.
pub open spec fn status_color_spec(status: u16) -> StatusColor {
    if 400 <= status < 600 {
        StatusColor::Red
    } else if (100 <= status < 200) || (300 <= status < 400) {
        StatusColor::Yellow
    } else {
        StatusColor::Green
    }
}

/// Pick the color for a status code: red for client and server errors,
/// yellow for informational and redirection statuses, green otherwise.
pub fn status_color(status: u16) -> (r: StatusColor)
    ensures
        r == status_color_spec(status),
{
    if 400 <= status && status < 600 {
        StatusColor::Red
    } else if (100 <= status && status < 200) || (300 <= status && status < 400) {
        StatusColor::Yellow
    } else {
        StatusColor::Green
    }
}

/// The opening escape sequence that starts a span painted in the given
/// color: `ESC [ 32 m` for green, `ESC [ 33 m` for yellow, `ESC [ 31 m`
/// for red.
pub open spec fn paint_open(c: StatusColor) -> Seq<char> {
    match c {
        StatusColor::Green => seq!['\u{1b}', '[', '3', '2', 'm'],
        StatusColor::Yellow => seq!['\u{1b}', '[', '3', '3', 'm'],
        StatusColor::Red => seq!['\u{1b}', '[', '3', '1', 'm'],
    }
}

/// The reset sequence that ends a painted span: `ESC [ 0 m`.
pub open spec fn csi_reset() -> Seq<char> {
    seq!['\u{1b}', '[', '0', 'm']
}

/// Relies on colored's `Colorize::green`: the result is the input as
/// given when coloring is disabled, and otherwise the input between
/// the green style prefix and the reset suffix. Inputs without the
/// ANSI escape character are never rewritten internally.
#[verifier::external_body]
fn paint_green(s: &str) -> (r: String)
    requires
        esc_free(s@),
    ensures
        r@ == s@ || r@ == paint_open(StatusColor::Green) + s@ + csi_reset(),
{
    format!("{}", s.green())
}

/// Relies on colored's `Colorize::yellow`; read as `paint_green`, with
/// the yellow style prefix.
#[verifier::external_body]
fn paint_yellow(s: &str) -> (r: String)
    requires
        esc_free(s@),
    ensures
        r@ == s@ || r@ == paint_open(StatusColor::Yellow) + s@ + csi_reset(),
{
    format!("{}", s.yellow())
}

/// Relies on colored's `Colorize::red`; read as `paint_green`, with
/// the red style prefix.
#[verifier::external_body]
fn paint_red(s: &str) -> (r: String)
    requires
        esc_free(s@),
    ensures
        r@ == s@ || r@ == paint_open(StatusColor::Red) + s@ + csi_reset(),
{
    format!("{}", s.red())
}

/// The numeric value of a decimal digit character; ten for any other
/// character.
pub open spec fn digit_val(c: char) -> nat {
    if c == '0' {
        0
    } else if c == '1' {
        1
    } else if c == '2' {
        2
    } else if c == '3' {
        3
    } else if c == '4' {
        4
    } else if c == '5' {
        5
    } else if c == '6' {
        6
    } else if c == '7' {
        7
    } else if c == '8' {
        8
    } else if c == '9' {
        9
    } else {
        10
    }
}

/// The shape of a wall-clock timestamp `HH:MM:SS`: two-digit
/// zero-padded fields joined by colons, with the hour below 24, the
/// minute below 60 and the second at most 60 (a leap second).
pub open spec fn clock_shape(ts: Seq<char>) -> bool {
    &&& ts.len() == 8
    &&& ts[2] == ':'
    &&& ts[5] == ':'
    &&& digit_val(ts[0]) < 10
    &&& digit_val(ts[1]) < 10
    &&& digit_val(ts[3]) < 10
    &&& digit_val(ts[4]) < 10
    &&& digit_val(ts[6]) < 10
    &&& digit_val(ts[7]) < 10
    &&& digit_val(ts[0]) * 10 + digit_val(ts[1]) < 24
    &&& digit_val(ts[3]) * 10 + digit_val(ts[4]) < 60
    &&& digit_val(ts[6]) * 10 + digit_val(ts[7]) <= 60
}

/// Relies on chrono's `Local::now` and its `%T` format item: the local
/// wall-clock time rendered as `HH:MM:SS`, each field two digits with
/// a zero pad, so the result has the clock shape.
#[verifier::external_body]
fn local_clock_hms() -> (r: String)
    ensures
        clock_shape(r@),
{
    chrono::Local::now().format("%T").to_string()
}

/// The status code as decimal text, painted in the color of its class:
/// the digits alone when coloring is disabled, and otherwise the
/// digits between that color's style prefix and the reset suffix.
pub fn painted_status(status: u16) -> (r: String)
    ensures
        r@ == dec_rep(status as nat) || r@ == paint_open(status_color_spec(status)) + dec_rep(
            status as nat,
        ) + csi_reset(),
{
    let text = dec_string(status as u64);
    proof {
        lemma_dec_rep_esc_free(status as nat);
    }
    match status_color(status) {
        StatusColor::Green => paint_green(text.as_str()),
        StatusColor::Yellow => paint_yellow(text.as_str()),
        StatusColor::Red => paint_red(text.as_str()),
    }
}

/// The shape of a request log line: timestamp in brackets, painted
/// status, elapsed milliseconds, and the request path after `/`.
pub open spec fn log_line_rep(
    ts: Seq<char>,
    painted: Seq<char>,
    micros: nat,
    path: Seq<char>,
) -> Seq<char> {
    seq!['['] + ts + seq![']', ' '] + painted + seq![' ', '-', ' '] + millis_rep(micros) + seq![
        'm',
        's',
        ' ',
        '-',
        ' ',
        '/',
    ] + path
}

/// Build the log line for one request: the current local time, the
/// status painted by its class, the elapsed time in milliseconds to
/// three decimals, and the request path. The status segment is the
/// decimal code, either plain or in the color its class selects.
pub fn request_log_line(status: u16, elapsed_micros: u64, path: &str) -> (r: String)
    ensures
        exists|ts: Seq<char>|
            clock_shape(ts) && (r@ == log_line_rep(
                ts,
                dec_rep(status as nat),
                elapsed_micros as nat,
                path@,
            ) || r@ == log_line_rep(
                ts,
                paint_open(status_color_spec(status)) + dec_rep(status as nat) + csi_reset(),
                elapsed_micros as nat,
                path@,
            )),
{
    let ts = local_clock_hms();
    let painted = painted_status(status);
    let mut line = String::from_str("[");
    line.append(ts.as_str());
    line.append("] ");
    line.append(painted.as_str());
    line.append(" - ");
    push_millis(&mut line, elapsed_micros);
    line.append("ms - /");
    line.append(path);
    proof {
        reveal_strlit("[");
        reveal_strlit("] ");
        reveal_strlit(" - ");
        reveal_strlit("ms - /");
        if painted@ == dec_rep(status as nat) {
            assert(line@ =~= log_line_rep(
                ts@,
                dec_rep(status as nat),
                elapsed_micros as nat,
                path@,
            ));
        } else {
            assert(line@ =~= log_line_rep(
                ts@,
                paint_open(status_color_spec(status)) + dec_rep(status as nat) + csi_reset(),
                elapsed_micros as nat,
                path@,
            ));
        }
    }
    line
}

} // verus!
