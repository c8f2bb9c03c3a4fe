//! The fixed tables of the language: which words are keywords, which runs of
//! operator characters are operators, and which characters are delimiters.

use crate::token::TokenType;
use vstd::prelude::*;
use vstd::string::StrSliceExecFns;

verus! {

/// The keyword that `word` spells, if it spells one. The table has seventeen
/// entries; a word that is in none of them is an identifier.
pub open spec fn keyword_kind(word: Seq<char>) -> Option<TokenType> {
    if word == "let"@ {
        Some(TokenType::Let)
    } else if word == "const"@ {
        Some(TokenType::Const)
    } else if word == "enum"@ {
        Some(TokenType::Enum)
    } else if word == "struct"@ {
        Some(TokenType::Struct)
    } else if word == "fun"@ {
        Some(TokenType::Fun)
    } else if word == "if"@ {
        Some(TokenType::If)
    } else if word == "elif"@ {
        Some(TokenType::Elif)
    } else if word == "else"@ {
        Some(TokenType::Else)
    } else if word == "switch"@ {
        Some(TokenType::Switch)
    } else if word == "case"@ {
        Some(TokenType::Case)
    } else if word == "default"@ {
        Some(TokenType::Default)
    } else if word == "for"@ {
        Some(TokenType::For)
    } else if word == "while"@ {
        Some(TokenType::While)
    } else if word == "do"@ {
        Some(TokenType::Do)
    } else if word == "break"@ {
        Some(TokenType::Break)
    } else if word == "continue"@ {
        Some(TokenType::Continue)
    } else if word == "return"@ {
        Some(TokenType::Return)
    } else {
        None
    }
}

/// The operator that `run` spells, if it spells one. The table has
/// twenty-one entries, of one or two characters each.
pub open spec fn operator_kind(run: Seq<char>) -> Option<TokenType> {
    if run == "+"@ {
        Some(TokenType::Plus)
    } else if run == "-"@ {
        Some(TokenType::Minus)
    } else if run == "*"@ {
        Some(TokenType::Multiply)
    } else if run == "/"@ {
        Some(TokenType::Divide)
    } else if run == "%"@ {
        Some(TokenType::Modulus)
    } else if run == "="@ {
        Some(TokenType::Assign)
    } else if run == "=="@ {
        Some(TokenType::Equal)
    } else if run == "!="@ {
        Some(TokenType::NotEqual)
    } else if run == "<"@ {
        Some(TokenType::LessThan)
    } else if run == ">"@ {
        Some(TokenType::GreaterThan)
    } else if run == "<="@ {
        Some(TokenType::LessThanEqual)
    } else if run == ">="@ {
        Some(TokenType::GreaterThanEqual)
    } else if run == "||"@ {
        Some(TokenType::LogicalOr)
    } else if run == "!"@ {
        Some(TokenType::LogicalNot)
    } else if run == "&&"@ {
        Some(TokenType::LogicalAnd)
    } else if run == "|"@ {
        Some(TokenType::BitwiseOr)
    } else if run == "~"@ {
        Some(TokenType::BitwiseNot)
    } else if run == "&"@ {
        Some(TokenType::BitwiseAnd)
    } else if run == "^"@ {
        Some(TokenType::BitwiseXor)
    } else if run == "<<"@ {
        Some(TokenType::BitwiseShiftLeft)
    } else if run == ">>"@ {
        Some(TokenType::BitwiseShiftRight)
    } else {
        None
    }
}

/// The delimiter that `c` is, if it is one.
pub open spec fn delimiter_kind(c: char) -> Option<TokenType> {
    if c == '(' {
        Some(TokenType::LeftParen)
    } else if c == ')' {
        Some(TokenType::RightParen)
    } else if c == '[' {
        Some(TokenType::LeftBracket)
    } else if c == ']' {
        Some(TokenType::RightBracket)
    } else if c == '{' {
        Some(TokenType::LeftBrace)
    } else if c == '}' {
        Some(TokenType::RightBrace)
    } else if c == '.' {
        Some(TokenType::Dot)
    } else if c == ',' {
        Some(TokenType::Comma)
    } else if c == ':' {
        Some(TokenType::Colon)
    } else if c == ';' {
        Some(TokenType::SemiColon)
    } else {
        None
    }
}

/// Tests whether `word` is `spelling`, character for character.
pub fn spells(word: &[char], spelling: &str) -> (same: bool)
    ensures
        same == (word@ == spelling@),
{
    let n: usize = spelling.unicode_len();
    if word.len() != n {
        return false;
    }
    let mut i: usize = 0;
    while i < n
        invariant
            i <= n,
            n == spelling@.len(),
            n == word@.len(),
            forall|j: int| 0 <= j < i ==> word@[j] == spelling@[j],
        decreases n - i,
    {
        if word[i] != spelling.get_char(i) {
            return false;
        }
        i += 1;
    }
    proof {
        assert(word@ =~= spelling@);
    }
    true
}

/// Looks `word` up in the keyword table.
pub fn keyword(word: &[char]) -> (kind: Option<TokenType>)
    ensures
        kind == keyword_kind(word@),
{
    if spells(word, "let") {
        Some(TokenType::Let)
    } else if spells(word, "const") {
        Some(TokenType::Const)
    } else if spells(word, "enum") {
        Some(TokenType::Enum)
    } else if spells(word, "struct") {
        Some(TokenType::Struct)
    } else if spells(word, "fun") {
        Some(TokenType::Fun)
    } else if spells(word, "if") {
        Some(TokenType::If)
    } else if spells(word, "elif") {
        Some(TokenType::Elif)
    } else if spells(word, "else") {
        Some(TokenType::Else)
    } else if spells(word, "switch") {
        Some(TokenType::Switch)
    } else if spells(word, "case") {
        Some(TokenType::Case)
    } else if spells(word, "default") {
        Some(TokenType::Default)
    } else if spells(word, "for") {
        Some(TokenType::For)
    } else if spells(word, "while") {
        Some(TokenType::While)
    } else if spells(word, "do") {
        Some(TokenType::Do)
    } else if spells(word, "break") {
        Some(TokenType::Break)
    } else if spells(word, "continue") {
        Some(TokenType::Continue)
    } else if spells(word, "return") {
        Some(TokenType::Return)
    } else {
        None
    }
}

/// Looks `run` up in the operator table.
pub fn operator(run: &[char]) -> (kind: Option<TokenType>)
    ensures
        kind == operator_kind(run@),
{
    if spells(run, "+") {
        Some(TokenType::Plus)
    } else if spells(run, "-") {
        Some(TokenType::Minus)
    } else if spells(run, "*") {
        Some(TokenType::Multiply)
    } else if spells(run, "/") {
        Some(TokenType::Divide)
    } else if spells(run, "%") {
        Some(TokenType::Modulus)
    } else if spells(run, "=") {
        Some(TokenType::Assign)
    } else if spells(run, "==") {
        Some(TokenType::Equal)
    } else if spells(run, "!=") {
        Some(TokenType::NotEqual)
    } else if spells(run, "<") {
        Some(TokenType::LessThan)
    } else if spells(run, ">") {
        Some(TokenType::GreaterThan)
    } else if spells(run, "<=") {
        Some(TokenType::LessThanEqual)
    } else if spells(run, ">=") {
        Some(TokenType::GreaterThanEqual)
    } else if spells(run, "||") {
        Some(TokenType::LogicalOr)
    } else if spells(run, "!") {
        Some(TokenType::LogicalNot)
    } else if spells(run, "&&") {
        Some(TokenType::LogicalAnd)
    } else if spells(run, "|") {
        Some(TokenType::BitwiseOr)
    } else if spells(run, "~") {
        Some(TokenType::BitwiseNot)
    } else if spells(run, "&") {
        Some(TokenType::BitwiseAnd)
    } else if spells(run, "^") {
        Some(TokenType::BitwiseXor)
    } else if spells(run, "<<") {
        Some(TokenType::BitwiseShiftLeft)
    } else if spells(run, ">>") {
        Some(TokenType::BitwiseShiftRight)
    } else {
        None
    }
}

/// Looks `c` up in the delimiter table.
pub fn delimiter(c: char) -> (kind: Option<TokenType>)
    ensures
        kind == delimiter_kind(c),
{
    if c == '(' {
        Some(TokenType::LeftParen)
    } else if c == ')' {
        Some(TokenType::RightParen)
    } else if c == '[' {
        Some(TokenType::LeftBracket)
    } else if c == ']' {
        Some(TokenType::RightBracket)
    } else if c == '{' {
        Some(TokenType::LeftBrace)
    } else if c == '}' {
        Some(TokenType::RightBrace)
    } else if c == '.' {
        Some(TokenType::Dot)
    } else if c == ',' {
        Some(TokenType::Comma)
    } else if c == ':' {
        Some(TokenType::Colon)
    } else if c == ';' {
        Some(TokenType::SemiColon)
    } else {
        None
    }
}

} // verus!
