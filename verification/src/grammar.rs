//! What scanning means: for a text and a position in it, the token that
//! begins there and the position where the next one is looked for.
//!
//! Everything here is a definition over `Seq<char>`; nothing is executed.
//! The scanner in `lexer` is proved to compute exactly `scan`.

use crate::chars::{lead_of, CharSet, Lead};
use crate::number::decimal_value;
use crate::spelling::{delimiter_kind, keyword_kind, operator_kind};
use crate::token::{TokenType, TokenView, ValueView};
use vstd::prelude::*;

verus! {

/// Where the longest run of characters of `set` that begins at `start` ends:
/// the position of the first character at or after `start` that is outside
/// the set, or the end of the text if there is none.
pub open spec fn run_end(text: Seq<char>, start: int, set: CharSet) -> int
    decreases text.len() - start,
{
    if 0 <= start < text.len() && set.has(text[start]) {
        run_end(text, start + 1, set)
    } else {
        start
    }
}

/// How many of the first `pos` characters of `text` are newlines.
pub open spec fn newlines_before(text: Seq<char>, pos: int) -> nat {
    text.take(pos).filter(|c: char| c == '\n').len()
}

/// The number of the line that position `pos` of `text` is on. Lines are
/// counted from 1, and every newline before `pos` begins another. The count
/// stops at `u16::MAX`.
pub open spec fn line_at(text: Seq<char>, pos: int) -> u16 {
    let line = 1 + newlines_before(text, pos);
    if line <= u16::MAX {
        line as u16
    } else {
        u16::MAX
    }
}

/// The outcome of scanning one token.
pub struct Scan {
    /// The token's category.
    pub kind: TokenType,
    /// The token's payload.
    pub value: ValueView,
    /// The position of the token's first character.
    pub start: int,
    /// The position after the token's last character, where the next scan
    /// begins.
    pub end: int,
}

impl Scan {
    /// The token that this outcome describes: its line is the line on which
    /// it begins.
    pub open spec fn token(self, text: Seq<char>) -> TokenView {
        TokenView { kind: self.kind, value: self.value, line: line_at(text, self.start) }
    }
}

/// A word: the longest run of letters from `start`. It is a keyword if the
/// keyword table has it and an identifier if not; either way the payload is
/// the word.
pub open spec fn scan_word(text: Seq<char>, start: int) -> Scan {
    let end = run_end(text, start, CharSet::Letter);
    let word = text.subrange(start, end);
    let kind = match keyword_kind(word) {
        Some(keyword) => keyword,
        None => TokenType::Identifier,
    };
    Scan { kind, value: ValueView::String(word), start, end }
}

/// A number: the longest run of digits from `start`. If a dot follows at
/// once, the dot and the digits after it belong to the literal, which is then
/// a `FloatVal` and carries its spelling. If not, it is an `IntVal` and
/// carries the number that the digits denote, or, where that number does not
/// fit in an `i64`, an `Error` that carries the digits.
pub open spec fn scan_number(text: Seq<char>, start: int) -> Scan {
    let whole_end = run_end(text, start, CharSet::Digit);
    if whole_end < text.len() && text[whole_end] == '.' {
        let end = run_end(text, whole_end + 1, CharSet::Digit);
        Scan {
            kind: TokenType::FloatVal,
            value: ValueView::Float(text.subrange(start, end)),
            start,
            end,
        }
    } else {
        let digits = text.subrange(start, whole_end);
        if decimal_value(digits) <= i64::MAX {
            Scan {
                kind: TokenType::IntVal,
                value: ValueView::Int(decimal_value(digits) as i64),
                start,
                end: whole_end,
            }
        } else {
            Scan { kind: TokenType::Error, value: ValueView::String(digits), start, end: whole_end }
        }
    }
}

/// A string literal: it opens with the quote at `start` and closes with the
/// next quote. The payload is what stands between the two, as it is: a
/// backslash means nothing. If the text ends before a closing quote, the
/// outcome is an `Error` that carries the rest of the text, from the opening
/// quote on.
pub open spec fn scan_string(text: Seq<char>, start: int) -> Scan {
    let close = run_end(text, start + 1, CharSet::Unquoted);
    if close < text.len() {
        Scan {
            kind: TokenType::StringVal,
            value: ValueView::String(text.subrange(start + 1, close)),
            start,
            end: close + 1,
        }
    } else {
        Scan {
            kind: TokenType::Error,
            value: ValueView::String(text.subrange(start, close)),
            start,
            end: close,
        }
    }
}

/// An operator: the longest run of operator characters from `start`. If the
/// operator table has the run, that is the category; if not, the outcome is
/// an `Error`. Either way the payload is the run.
pub open spec fn scan_operator(text: Seq<char>, start: int) -> Scan {
    let end = run_end(text, start, CharSet::Operator);
    let run = text.subrange(start, end);
    let kind = match operator_kind(run) {
        Some(operator) => operator,
        None => TokenType::Error,
    };
    Scan { kind, value: ValueView::String(run), start, end }
}

/// A single character that is a token by itself: a delimiter, with its
/// category from the delimiter table, or a character that the language has
/// no use for, which is an `Error`. Either way the payload is the character.
pub open spec fn scan_single(text: Seq<char>, start: int) -> Scan {
    let kind = match delimiter_kind(text[start]) {
        Some(delimiter) => delimiter,
        None => TokenType::Error,
    };
    Scan { kind, value: ValueView::String(text.subrange(start, start + 1)), start, end: start + 1 }
}

/// The token that begins at `start`, where the text has a character that is
/// not blank.
pub open spec fn scan_token(text: Seq<char>, start: int) -> Scan {
    match lead_of(text[start]) {
        Lead::Letter => scan_word(text, start),
        Lead::Digit => scan_number(text, start),
        Lead::Quote => scan_string(text, start),
        Lead::Operator => scan_operator(text, start),
        Lead::Delimiter | Lead::Stray | Lead::Blank => scan_single(text, start),
    }
}

/// The outcome of one scan from `pos`: blanks are passed over, and the token
/// that begins after them is scanned. If nothing but blanks is left, the
/// outcome is `Eof` with an empty payload, at the end of the text.
pub open spec fn scan(text: Seq<char>, pos: int) -> Scan {
    let start = run_end(text, pos, CharSet::Blank);
    if start >= text.len() {
        Scan {
            kind: TokenType::Eof,
            value: ValueView::String(Seq::empty()),
            start,
            end: start,
        }
    } else {
        scan_token(text, start)
    }
}

/// A run ends inside the text, holds only characters of its set, and cannot
/// be extended: it is the longest one.
pub proof fn lemma_run_end(text: Seq<char>, start: int, set: CharSet)
    requires
        0 <= start <= text.len(),
    ensures
        start <= run_end(text, start, set) <= text.len(),
        forall|i: int| start <= i < run_end(text, start, set) ==> set.has(#[trigger] text[i]),
        run_end(text, start, set) < text.len() ==> !set.has(text[run_end(text, start, set)]),
    decreases text.len() - start,
{
    if start < text.len() && set.has(text[start]) {
        lemma_run_end(text, start + 1, set);
    }
}

/// The end of a run is the only position of which `lemma_run_end` holds: a
/// position that a run of the set reaches and cannot pass is the end of the
/// run.
pub proof fn lemma_run_end_is_unique(text: Seq<char>, start: int, set: CharSet, end: int)
    requires
        0 <= start <= end <= text.len(),
        forall|i: int| start <= i < end ==> set.has(#[trigger] text[i]),
        end < text.len() ==> !set.has(text[end]),
    ensures
        run_end(text, start, set) == end,
    decreases end - start,
{
    if start < end {
        assert(set.has(text[start]));
        lemma_run_end_is_unique(text, start + 1, set, end);
    }
}

/// The character at `pos` is one more newline before `pos + 1` if it is a
/// newline.
pub proof fn lemma_newlines_before_next(text: Seq<char>, pos: int)
    requires
        0 <= pos < text.len(),
    ensures
        newlines_before(text, pos + 1) == newlines_before(text, pos) + if text[pos] == '\n' {
            1nat
        } else {
            0nat
        },
{
    reveal(Seq::filter);
    assert(text.take(pos + 1).drop_last() =~= text.take(pos));
}

/// A text begins on line 1.
pub proof fn lemma_line_at_start(text: Seq<char>)
    ensures
        newlines_before(text, 0) == 0,
        line_at(text, 0) == 1,
{
    reveal(Seq::filter);
}

/// Passing over one more character adds one to the line if the character is
/// a newline, up to `u16::MAX`, and nothing if it is not.
pub proof fn lemma_line_at_next(text: Seq<char>, pos: int)
    requires
        0 <= pos < text.len(),
    ensures
        line_at(text, pos + 1) == if text[pos] != '\n' {
            line_at(text, pos)
        } else if line_at(text, pos) < u16::MAX {
            (line_at(text, pos) + 1) as u16
        } else {
            u16::MAX
        },
{
    lemma_newlines_before_next(text, pos);
}

/// A token is at least one character long, ends inside the text, and has
/// the payload that its category calls for.
pub proof fn lemma_scan_token_bounds(text: Seq<char>, start: int)
    requires
        0 <= start < text.len(),
    ensures
        scan_token(text, start).start == start,
        start < scan_token(text, start).end <= text.len(),
        scan_token(text, start).token(text).wf(),
{
    lemma_run_end(text, start + 1, CharSet::Letter);
    lemma_run_end(text, start + 1, CharSet::Digit);
    lemma_run_end(text, start + 1, CharSet::Unquoted);
    lemma_run_end(text, start + 1, CharSet::Operator);
    let whole_end = run_end(text, start, CharSet::Digit);
    if whole_end < text.len() {
        lemma_run_end(text, whole_end + 1, CharSet::Digit);
    }
}

} // verus!
