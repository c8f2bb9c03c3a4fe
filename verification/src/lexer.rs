//! The scanner: a cursor over a source text that hands out one token at a
//! time.

use crate::chars::{is_digit, lead, CharSet, Lead};
use crate::grammar::{
    lemma_line_at_next, lemma_line_at_start, lemma_run_end, lemma_scan_token_bounds, line_at,
    run_end, scan, scan_number, scan_operator, scan_single, scan_string, scan_word,
};
use crate::number::decimal;
use crate::spelling::{delimiter, keyword, operator};
use crate::text::{chars_of, string_of};
use crate::token::TokenView;
pub use crate::token::{Token, TokenType, TokenValue};
use vstd::prelude::*;
use vstd::slice::slice_subrange;

verus! {

/// A place in the text: how many characters are behind it, and the line it
/// is on.
struct Cursor {
    index: usize,
    line: u16,
}

/// The scanner: a source text and a cursor into it.
///
/// Every scanner is well formed (`LexerView::wf`): the cursor is inside the
/// text or at its end, and its line is the line of that position. Nothing
/// that this module offers can build or leave one that is not.
pub struct Lexer {
    path: String,
    code: Vec<char>,
    cursor: Cursor,
}

/// What a `Lexer` stands for: a text, a position in it, and the number of
/// the line that the position is on.
pub struct LexerView {
    /// The name that the text goes by in diagnostics.
    pub path: Seq<char>,
    /// The source text.
    pub text: Seq<char>,
    /// The cursor: how many characters of the text are behind the scanner.
    pub index: int,
    /// The line that the cursor is on.
    pub line: u16,
}

impl LexerView {
    /// The cursor is inside the text or at its end, and the line is the line
    /// of the cursor.
    pub open spec fn wf(self) -> bool {
        &&& 0 <= self.index <= self.text.len()
        &&& self.line == line_at(self.text, self.index)
    }

    /// The same text with the cursor at `index`.
    pub open spec fn at(self, index: int) -> LexerView {
        LexerView { index, line: line_at(self.text, index), ..self }
    }

    /// The state after one scan.
    pub open spec fn next(self) -> LexerView {
        self.at(scan(self.text, self.index).end)
    }

    /// The token that one scan yields.
    pub open spec fn token(self) -> TokenView {
        scan(self.text, self.index).token(self.text)
    }
}

impl View for Lexer {
    type V = LexerView;

    closed spec fn view(&self) -> LexerView {
        LexerView {
            path: self.path@,
            text: self.code@,
            index: self.cursor.index as int,
            line: self.cursor.line,
        }
    }
}

impl Lexer {
    /// What holds of every scanner: its state is well formed.
    #[verifier::type_invariant]
    pub open spec fn inv(&self) -> bool {
        self@.wf()
    }

    /// A scanner at the beginning of `code`, on line 1. `path` names the text
    /// and is kept for diagnostics; scanning does not read it.
    pub fn new(path: String, code: String) -> (lexer: Self)
        ensures
            lexer@ == (LexerView { path: path@, text: code@, index: 0, line: 1 }),
            lexer@.wf(),
    {
        let chars = chars_of(code.as_str());
        proof {
            lemma_line_at_start(chars@);
        }
        Lexer { path, code: chars, cursor: Cursor { index: 0, line: 1 } }
    }

    /// The name that the text goes by.
    pub fn path(&self) -> (path: &String)
        ensures
            path@ == self@.path,
    {
        &self.path
    }

    /// The cursor: how many characters have been scanned.
    pub fn index(&self) -> (index: usize)
        ensures
            index == self@.index,
    {
        self.cursor.index
    }

    /// The line that the cursor is on.
    pub fn line(&self) -> (line: u16)
        ensures
            line == self@.line,
    {
        self.cursor.line
    }

    /// Moves the cursor over one character, if one is left, and counts the
    /// line if the character is a newline.
    fn advance(&mut self)
        ensures
            final(self)@ == old(self)@.at(
                if old(self)@.index < old(self)@.text.len() {
                    old(self)@.index + 1
                } else {
                    old(self)@.index
                },
            ),
    {
        proof {
            use_type_invariant(&*self);
        }
        let index: usize = self.cursor.index;
        let line: u16 = self.cursor.line;
        if index < self.code.len() {
            proof {
                lemma_line_at_next(self.code@, index as int);
            }
            if self.code[index] == '\n' && line < u16::MAX {
                self.cursor = Cursor { index: index + 1, line: line + 1 };
            } else {
                self.cursor = Cursor { index: index + 1, line };
            }
        }
    }

    /// Moves the cursor to the end of the run of characters of `set` that
    /// begins at the cursor.
    fn skip_run(&mut self, set: CharSet)
        ensures
            final(self)@ == old(self)@.at(run_end(old(self)@.text, old(self)@.index, set)),
    {
        proof {
            use_type_invariant(&*self);
        }
        while self.cursor.index < self.code.len() && set.contains(self.code[self.cursor.index])
            invariant
                self@.wf(),
                self@ == old(self)@.at(self@.index),
                run_end(self@.text, self@.index, set) == run_end(
                    old(self)@.text,
                    old(self)@.index,
                    set,
                ),
            decreases self.code.len() - self.cursor.index,
        {
            self.advance();
        }
    }

    /// The characters from `start` to the cursor, as a string.
    fn text_from(&self, start: usize) -> (text: String)
        requires
            start <= self@.index,
        ensures
            text@ == self@.text.subrange(start as int, self@.index),
    {
        proof {
            use_type_invariant(self);
        }
        string_of(slice_subrange(self.code.as_slice(), start, self.cursor.index))
    }

    /// Scans the word that begins at the cursor.
    fn get_identifier(&mut self) -> (token: Token)
        ensures
            final(self)@ == old(self)@.at(scan_word(old(self)@.text, old(self)@.index).end),
            token@ == scan_word(old(self)@.text, old(self)@.index).token(old(self)@.text),
    {
        proof {
            use_type_invariant(&*self);
            lemma_run_end(self@.text, self@.index, CharSet::Letter);
        }
        let start: usize = self.cursor.index;
        let line: u16 = self.cursor.line;
        self.skip_run(CharSet::Letter);
        let kind = match keyword(slice_subrange(self.code.as_slice(), start, self.cursor.index)) {
            Some(keyword) => keyword,
            None => TokenType::Identifier,
        };
        Token::new(kind, TokenValue::String(self.text_from(start)), line)
    }

    /// Scans the number that begins at the cursor, which is at a digit.
    fn get_number(&mut self) -> (token: Token)
        requires
            old(self)@.index < old(self)@.text.len(),
            is_digit(old(self)@.text[old(self)@.index]),
        ensures
            final(self)@ == old(self)@.at(scan_number(old(self)@.text, old(self)@.index).end),
            token@ == scan_number(old(self)@.text, old(self)@.index).token(old(self)@.text),
    {
        proof {
            use_type_invariant(&*self);
            lemma_run_end(self@.text, self@.index, CharSet::Digit);
        }
        let start: usize = self.cursor.index;
        let line: u16 = self.cursor.line;
        self.skip_run(CharSet::Digit);
        if self.cursor.index < self.code.len() && self.code[self.cursor.index] == '.' {
            proof {
                lemma_run_end(self@.text, self@.index + 1, CharSet::Digit);
            }
            self.advance();
            self.skip_run(CharSet::Digit);
            Token::new(TokenType::FloatVal, TokenValue::Float(self.text_from(start)), line)
        } else {
            match decimal(slice_subrange(self.code.as_slice(), start, self.cursor.index)) {
                Some(value) => Token::new(TokenType::IntVal, TokenValue::Int(value), line),
                None => Token::new(
                    TokenType::Error,
                    TokenValue::String(self.text_from(start)),
                    line,
                ),
            }
        }
    }

    /// Scans the string literal that opens at the cursor.
    fn get_string(&mut self) -> (token: Token)
        requires
            old(self)@.index < old(self)@.text.len(),
        ensures
            final(self)@ == old(self)@.at(scan_string(old(self)@.text, old(self)@.index).end),
            token@ == scan_string(old(self)@.text, old(self)@.index).token(old(self)@.text),
    {
        proof {
            use_type_invariant(&*self);
            lemma_run_end(self@.text, self@.index + 1, CharSet::Unquoted);
        }
        let start: usize = self.cursor.index;
        let line: u16 = self.cursor.line;
        self.advance();
        let inside: usize = self.cursor.index;
        self.skip_run(CharSet::Unquoted);
        if self.cursor.index < self.code.len() {
            let body = self.text_from(inside);
            self.advance();
            Token::new(TokenType::StringVal, TokenValue::String(body), line)
        } else {
            Token::new(TokenType::Error, TokenValue::String(self.text_from(start)), line)
        }
    }

    /// Scans the run of operator characters that begins at the cursor.
    fn get_operator(&mut self) -> (token: Token)
        ensures
            final(self)@ == old(self)@.at(scan_operator(old(self)@.text, old(self)@.index).end),
            token@ == scan_operator(old(self)@.text, old(self)@.index).token(old(self)@.text),
    {
        proof {
            use_type_invariant(&*self);
            lemma_run_end(self@.text, self@.index, CharSet::Operator);
        }
        let start: usize = self.cursor.index;
        let line: u16 = self.cursor.line;
        self.skip_run(CharSet::Operator);
        let kind = match operator(slice_subrange(self.code.as_slice(), start, self.cursor.index)) {
            Some(operator) => operator,
            None => TokenType::Error,
        };
        Token::new(kind, TokenValue::String(self.text_from(start)), line)
    }

    /// Scans the one character at the cursor as a token by itself: a
    /// delimiter, or an `Error` for a character that is none.
    fn get_delimiter(&mut self) -> (token: Token)
        requires
            old(self)@.index < old(self)@.text.len(),
        ensures
            final(self)@ == old(self)@.at(scan_single(old(self)@.text, old(self)@.index).end),
            token@ == scan_single(old(self)@.text, old(self)@.index).token(old(self)@.text),
    {
        proof {
            use_type_invariant(&*self);
        }
        let start: usize = self.cursor.index;
        let line: u16 = self.cursor.line;
        let kind = match delimiter(self.code[start]) {
            Some(delimiter) => delimiter,
            None => TokenType::Error,
        };
        self.advance();
        Token::new(kind, TokenValue::String(self.text_from(start)), line)
    }

    /// Scans the next token. Blanks before it are passed over; at the end of
    /// the text the token is `Eof`, on every call.
    ///
    /// What cannot be scanned becomes an `Error` token that carries the text
    /// in question, and scanning goes on behind it: a character that begins
    /// nothing, a run of operator characters that spells no operator, an
    /// integer literal beyond `i64::MAX`, a string literal that the text ends
    /// in.
    ///
    /// The token and the state after the call are those that `scan` defines.
    /// Every call that does not begin at the end of the text moves the cursor
    /// forward; one that begins there changes nothing.
    pub fn next_token(&mut self) -> (token: Token)
        ensures
            final(self)@ == old(self)@.next(),
            final(self)@.wf(),
            token@ == old(self)@.token(),
            token@.wf(),
            old(self)@.index < old(self)@.text.len() ==> old(self)@.index < final(self)@.index,
            old(self)@.index == old(self)@.text.len() ==> final(self)@ == old(self)@ && token.kind
                == TokenType::Eof,
    {
        proof {
            use_type_invariant(&*self);
            lemma_run_end(self@.text, self@.index, CharSet::Blank);
        }
        self.skip_run(CharSet::Blank);
        if self.cursor.index >= self.code.len() {
            return Token::new(TokenType::Eof, TokenValue::String(String::new()), self.cursor.line);
        }
        proof {
            lemma_scan_token_bounds(self@.text, self@.index);
        }
        match lead(self.code[self.cursor.index]) {
            Lead::Letter => self.get_identifier(),
            Lead::Digit => self.get_number(),
            Lead::Quote => self.get_string(),
            Lead::Operator => self.get_operator(),
            Lead::Delimiter | Lead::Stray | Lead::Blank => self.get_delimiter(),
        }
    }
}

} // verus!
