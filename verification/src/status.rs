//! The labels of the status bar.

use vstd::prelude::*;
use vstd::string::StringExecFns;
use crate::cursor::CursorPosition;

verus! {

/// The character that stands for a digit.
pub open spec fn digit(d: int) -> char
    recommends
        0 <= d < 10,
{
    if d == 0 {
        '0'
    } else if d == 1 {
        '1'
    } else if d == 2 {
        '2'
    } else if d == 3 {
        '3'
    } else if d == 4 {
        '4'
    } else if d == 5 {
        '5'
    } else if d == 6 {
        '6'
    } else if d == 7 {
        '7'
    } else if d == 8 {
        '8'
    } else {
        '9'
    }
}

/// A number in decimal, without leading zeros.
pub open spec fn decimal(n: nat) -> Seq<char>
    decreases n,
{
    if n < 10 {
        seq![digit(n as int)]
    } else {
        decimal(n / 10).push(digit((n % 10) as int))
    }
}

/// The label that shows the caret position.
pub open spec fn position_label(position: CursorPosition) -> Seq<char> {
    "Ln "@ + decimal(position.line as nat) + ", Col "@ + decimal(position.column as nat)
}

/// The label that shows the zoom.
pub open spec fn zoom_label(percent: nat) -> Seq<char> {
    decimal(percent) + "%"@
}

/// The label for the line endings. It is fixed: nothing is detected.
pub open spec fn line_ending_label() -> Seq<char> {
    "Windows (CRLF)"@
}

/// The label for the encoding. It is fixed: nothing is detected.
pub open spec fn encoding_label() -> Seq<char> {
    "UTF-8"@
}

/// The four labels of the status bar, in reading order.
#[derive(Debug, PartialEq, Eq)]
pub struct StatusBar {
    /// Line and column of the caret.
    pub position: String,
    /// The zoom percentage.
    pub zoom: String,
    /// The line endings.
    pub line_ending: String,
    /// The encoding.
    pub encoding: String,
}

fn digit_text(d: usize) -> (text: &'static str)
    requires
        d < 10,
    ensures
        text@ == seq![digit(d as int)],
{
    proof {
        reveal_strlit("0");
        reveal_strlit("1");
        reveal_strlit("2");
        reveal_strlit("3");
        reveal_strlit("4");
        reveal_strlit("5");
        reveal_strlit("6");
        reveal_strlit("7");
        reveal_strlit("8");
        reveal_strlit("9");
    }
    let text = if d == 0 {
        "0"
    } else if d == 1 {
        "1"
    } else if d == 2 {
        "2"
    } else if d == 3 {
        "3"
    } else if d == 4 {
        "4"
    } else if d == 5 {
        "5"
    } else if d == 6 {
        "6"
    } else if d == 7 {
        "7"
    } else if d == 8 {
        "8"
    } else {
        "9"
    };
    assert(text@ =~= seq![digit(d as int)]);
    text
}

/// Writes a number in decimal, without leading zeros.
pub fn decimal_text(n: usize) -> (text: String)
    ensures
        text@ == decimal(n as nat),
    decreases n,
{
    if n < 10 {
        String::from_str(digit_text(n))
    } else {
        let mut text = decimal_text(n / 10);
        text.append(digit_text(n % 10));
        text
    }
}

/// Writes the four labels for a caret position and a zoom percentage.
pub fn status_labels(position: CursorPosition, percent: usize) -> (bar: StatusBar)
    ensures
        bar.position@ == position_label(position),
        bar.zoom@ == zoom_label(percent as nat),
        bar.line_ending@ == line_ending_label(),
        bar.encoding@ == encoding_label(),
{
    let mut place = String::from_str("Ln ");
    place.append(decimal_text(position.line).as_str());
    place.append(", Col ");
    place.append(decimal_text(position.column).as_str());
    let mut zoom = decimal_text(percent);
    zoom.append("%");
    StatusBar {
        position: place,
        zoom,
        line_ending: String::from_str("Windows (CRLF)"),
        encoding: String::from_str("UTF-8"),
    }
}

} // verus!
