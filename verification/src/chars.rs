//! Character classes: which characters are blank, which make up words,
//! numbers and operators, and what kind of token a character begins.
//!
//! ASCII is classified here, character by character. Beyond ASCII the
//! standard library's Unicode tables decide what is a letter and what is
//! white space; they are the only part of this module that is taken on trust.

use vstd::prelude::*;

verus! {

/// What `char::is_alphabetic` returns for `c`: whether Unicode counts the
/// character as alphabetic. The table is the standard library's.
pub uninterp spec fn is_alphabetic(c: char) -> bool;

/// What `char::is_whitespace` returns for `c`: whether Unicode counts the
/// character as white space. The table is the standard library's.
pub uninterp spec fn is_whitespace(c: char) -> bool;

/// `char::is_alphabetic` of the standard library. Taken on trust: the result
/// depends on the character alone, so it is the value that `is_alphabetic`
/// names. Nothing is claimed about which characters are alphabetic.
pub assume_specification[ char::is_alphabetic ](c: char) -> (b: bool)
    ensures
        b == is_alphabetic(c),
;

/// `char::is_whitespace` of the standard library. Taken on trust: the result
/// depends on the character alone, so it is the value that `is_whitespace`
/// names. Nothing is claimed about which characters are white space.
pub assume_specification[ char::is_whitespace ](c: char) -> (b: bool)
    ensures
        b == is_whitespace(c),
;

/// The character is in the ASCII range.
pub open spec fn is_ascii_char(c: char) -> bool {
    c <= '\x7f'
}

/// Blank characters separate tokens and produce none. In ASCII these are the
/// space and the five controls from tab to carriage return; beyond ASCII,
/// what Unicode calls white space.
pub open spec fn is_blank(c: char) -> bool {
    if is_ascii_char(c) {
        c == ' ' || ('\t' <= c && c <= '\r')
    } else {
        is_whitespace(c)
    }
}

/// Letters make up words. In ASCII these are `a` to `z` and `A` to `Z`;
/// beyond ASCII, what Unicode calls alphabetic.
pub open spec fn is_letter(c: char) -> bool {
    if is_ascii_char(c) {
        ('a' <= c && c <= 'z') || ('A' <= c && c <= 'Z')
    } else {
        is_alphabetic(c)
    }
}

/// The ten decimal digits.
pub open spec fn is_digit(c: char) -> bool {
    '0' <= c && c <= '9'
}

/// The characters that operators are spelled with.
pub open spec fn is_operator_char(c: char) -> bool {
    c == '+' || c == '-' || c == '*' || c == '/' || c == '%' || c == '=' || c == '<' || c == '>'
        || c == '|' || c == '&' || c == '^' || c == '~' || c == '!'
}

/// The characters that are delimiters, each a token by itself.
pub open spec fn is_delimiter_char(c: char) -> bool {
    c == '(' || c == ')' || c == '[' || c == ']' || c == '{' || c == '}' || c == '.' || c == ','
        || c == ':' || c == ';'
}

/// What the first character of a token announces.
#[derive(Copy, Clone, Debug, PartialEq, Eq, Structural)]
pub enum Lead {
    /// Not the start of a token: a blank, to be skipped.
    Blank,
    /// A word: a keyword or an identifier.
    Letter,
    /// A number.
    Digit,
    /// A string literal.
    Quote,
    /// An operator.
    Operator,
    /// A delimiter.
    Delimiter,
    /// Nothing that the language knows.
    Stray,
}

/// The class of `c`, given whether it is blank and whether it is a letter.
/// The classes are tried in a fixed order and the first that fits wins:
/// blank, letter, digit, quote, operator, delimiter.
pub open spec fn lead_from(c: char, blank: bool, letter: bool) -> Lead {
    if blank {
        Lead::Blank
    } else if letter {
        Lead::Letter
    } else if is_digit(c) {
        Lead::Digit
    } else if c == '"' {
        Lead::Quote
    } else if is_operator_char(c) {
        Lead::Operator
    } else if is_delimiter_char(c) {
        Lead::Delimiter
    } else {
        Lead::Stray
    }
}

/// The class of `c`.
pub open spec fn lead_of(c: char) -> Lead {
    lead_from(c, is_blank(c), is_letter(c))
}

/// The sets of characters that a token is scanned over as one run.
#[derive(Copy, Clone, Debug, PartialEq, Eq, Structural)]
pub enum CharSet {
    /// Blank characters.
    Blank,
    /// Letters.
    Letter,
    /// Decimal digits.
    Digit,
    /// Operator characters.
    Operator,
    /// Everything but the double quote: the inside of a string literal.
    Unquoted,
}

impl CharSet {
    /// Whether `c` is in the set.
    pub open spec fn has(self, c: char) -> bool {
        match self {
            CharSet::Blank => is_blank(c),
            CharSet::Letter => is_letter(c),
            CharSet::Digit => is_digit(c),
            CharSet::Operator => is_operator_char(c),
            CharSet::Unquoted => c != '"',
        }
    }

    /// Tests whether `c` is in the set.
    pub fn contains(self, c: char) -> (found: bool)
        ensures
            found == self.has(c),
    {
        match self {
            CharSet::Blank => blank(c),
            CharSet::Letter => letter(c),
            CharSet::Digit => digit(c),
            CharSet::Operator => operator_char(c),
            CharSet::Unquoted => c != '"',
        }
    }
}

/// Tests whether `c` is blank.
pub fn blank(c: char) -> (found: bool)
    ensures
        found == is_blank(c),
{
    if c <= '\x7f' {
        c == ' ' || ('\t' <= c && c <= '\r')
    } else {
        c.is_whitespace()
    }
}

/// Tests whether `c` is a letter.
pub fn letter(c: char) -> (found: bool)
    ensures
        found == is_letter(c),
{
    if c <= '\x7f' {
        ('a' <= c && c <= 'z') || ('A' <= c && c <= 'Z')
    } else {
        c.is_alphabetic()
    }
}

/// Tests whether `c` is a decimal digit.
pub fn digit(c: char) -> (found: bool)
    ensures
        found == is_digit(c),
{
    '0' <= c && c <= '9'
}

/// Tests whether `c` is an operator character.
pub fn operator_char(c: char) -> (found: bool)
    ensures
        found == is_operator_char(c),
{
    c == '+' || c == '-' || c == '*' || c == '/' || c == '%' || c == '=' || c == '<' || c == '>'
        || c == '|' || c == '&' || c == '^' || c == '~' || c == '!'
}

/// Tests whether `c` is a delimiter.
pub fn delimiter_char(c: char) -> (found: bool)
    ensures
        found == is_delimiter_char(c),
{
    c == '(' || c == ')' || c == '[' || c == ']' || c == '{' || c == '}' || c == '.' || c == ','
        || c == ':' || c == ';'
}

/// Classifies `c` from the two answers that may come from the Unicode tables.
pub fn classify(c: char, blank: bool, letter: bool) -> (lead: Lead)
    ensures
        lead == lead_from(c, blank, letter),
{
    if blank {
        Lead::Blank
    } else if letter {
        Lead::Letter
    } else if digit(c) {
        Lead::Digit
    } else if c == '"' {
        Lead::Quote
    } else if operator_char(c) {
        Lead::Operator
    } else if delimiter_char(c) {
        Lead::Delimiter
    } else {
        Lead::Stray
    }
}

/// Classifies `c`.
pub fn lead(c: char) -> (lead: Lead)
    ensures
        lead == lead_of(c),
{
    classify(c, blank(c), letter(c))
}

/// For an ASCII character the order in which the classes are tried makes no
/// difference: it is in one class at most, whatever the Unicode tables hold,
/// and that is the class it is given.
pub proof fn lemma_ascii_classes_are_disjoint(c: char)
    requires
        is_ascii_char(c),
    ensures
        is_blank(c) <==> lead_of(c) == Lead::Blank,
        is_letter(c) <==> lead_of(c) == Lead::Letter,
        is_digit(c) <==> lead_of(c) == Lead::Digit,
        c == '"' <==> lead_of(c) == Lead::Quote,
        is_operator_char(c) <==> lead_of(c) == Lead::Operator,
        is_delimiter_char(c) <==> lead_of(c) == Lead::Delimiter,
{
}

} // verus!
