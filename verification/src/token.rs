//! Tokens: the classified units that the scanner hands to a parser.

use vstd::prelude::*;
use vstd::std_specs::cmp::PartialEqSpecImpl;

verus! {

/// The lexical category of a token.
///
/// `BoolVal`, `CharVal` and `Namespace` are reserved for the parser's use: the
/// scanner has no boolean or character literals and `namespace` is not in its
/// keyword table, so it never produces them.
#[derive(Copy, Clone, Debug, PartialEq, Eq, Structural)]
pub enum TokenType {
    Eof,
    BoolVal,
    CharVal,
    IntVal,
    FloatVal,
    StringVal,
    Identifier,
    Plus,
    Minus,
    Multiply,
    Divide,
    Modulus,
    Assign,
    LessThan,
    GreaterThan,
    Equal,
    NotEqual,
    LessThanEqual,
    GreaterThanEqual,
    LogicalOr,
    LogicalNot,
    LogicalAnd,
    BitwiseOr,
    BitwiseNot,
    BitwiseAnd,
    BitwiseXor,
    BitwiseShiftLeft,
    BitwiseShiftRight,
    LeftParen,
    RightParen,
    LeftBracket,
    RightBracket,
    LeftBrace,
    RightBrace,
    Dot,
    Comma,
    Colon,
    SemiColon,
    Let,
    Const,
    Enum,
    Struct,
    Fun,
    Namespace,
    If,
    Elif,
    Else,
    Switch,
    Case,
    Default,
    For,
    While,
    Do,
    Break,
    Continue,
    Return,
    Error,
}

/// The payload of a token.
///
/// `Float` carries the literal as it is spelled in the source (`"3.14"`): this
/// crate holds no binary floating-point value, so turning the spelling into
/// one is left to the caller.
#[derive(Debug)]
pub enum TokenValue {
    Bool(bool),
    Char(char),
    Int(i64),
    Float(String),
    String(String),
}

/// What a `TokenValue` stands for: the same variants, text as a sequence of
/// characters.
pub enum ValueView {
    Bool(bool),
    Char(char),
    Int(i64),
    Float(Seq<char>),
    String(Seq<char>),
}

impl View for TokenValue {
    type V = ValueView;

    open spec fn view(&self) -> ValueView {
        match self {
            TokenValue::Bool(b) => ValueView::Bool(*b),
            TokenValue::Char(c) => ValueView::Char(*c),
            TokenValue::Int(n) => ValueView::Int(*n),
            TokenValue::Float(spelling) => ValueView::Float(spelling@),
            TokenValue::String(text) => ValueView::String(text@),
        }
    }
}

impl Clone for TokenValue {
    fn clone(&self) -> (copy: Self)
        ensures
            copy@ == self@,
    {
        match self {
            TokenValue::Bool(b) => TokenValue::Bool(*b),
            TokenValue::Char(c) => TokenValue::Char(*c),
            TokenValue::Int(n) => TokenValue::Int(*n),
            TokenValue::Float(spelling) => TokenValue::Float(spelling.clone()),
            TokenValue::String(text) => TokenValue::String(text.clone()),
        }
    }
}

impl PartialEq for TokenValue {
    fn eq(&self, other: &Self) -> (equal: bool) {
        match (self, other) {
            (TokenValue::Bool(a), TokenValue::Bool(b)) => *a == *b,
            (TokenValue::Char(a), TokenValue::Char(b)) => *a == *b,
            (TokenValue::Int(a), TokenValue::Int(b)) => *a == *b,
            (TokenValue::Float(a), TokenValue::Float(b)) => *a == *b,
            (TokenValue::String(a), TokenValue::String(b)) => *a == *b,
            _ => false,
        }
    }
}

impl PartialEqSpecImpl for TokenValue {
    open spec fn obeys_eq_spec() -> bool {
        true
    }

    /// Two payloads are equal when they are the same variant with the same
    /// content.
    open spec fn eq_spec(&self, other: &Self) -> bool {
        self@ == other@
    }
}

/// One token: its category, its payload, and the 1-based line on which it
/// begins.
#[derive(Debug)]
pub struct Token {
    pub kind: TokenType,
    pub value: TokenValue,
    pub line: u16,
}

/// What a `Token` stands for.
pub struct TokenView {
    pub kind: TokenType,
    pub value: ValueView,
    pub line: u16,
}

impl View for Token {
    type V = TokenView;

    open spec fn view(&self) -> TokenView {
        TokenView { kind: self.kind, value: self.value@, line: self.line }
    }
}

impl TokenView {
    /// The payload has the variant that the category calls for: an integer
    /// for `IntVal`, a spelling for `FloatVal`, a boolean for `BoolVal`, a
    /// character for `CharVal`, and text for every other category.
    pub open spec fn wf(self) -> bool {
        match self.kind {
            TokenType::BoolVal => self.value is Bool,
            TokenType::CharVal => self.value is Char,
            TokenType::IntVal => self.value is Int,
            TokenType::FloatVal => self.value is Float,
            _ => self.value is String,
        }
    }
}

impl Token {
    /// Puts a token together from its three parts, as they are.
    pub fn new(kind: TokenType, value: TokenValue, line: u16) -> (token: Self)
        ensures
            token.kind == kind,
            token.value == value,
            token.line == line,
    {
        Token { kind, value, line }
    }
}

impl Clone for Token {
    fn clone(&self) -> (copy: Self)
        ensures
            copy@ == self@,
    {
        Token { kind: self.kind, value: self.value.clone(), line: self.line }
    }
}

impl PartialEq for Token {
    fn eq(&self, other: &Self) -> (equal: bool) {
        self.kind == other.kind && self.value == other.value && self.line == other.line
    }
}

impl PartialEqSpecImpl for Token {
    open spec fn obeys_eq_spec() -> bool {
        true
    }

    /// Two tokens are equal when category, payload and line all agree.
    open spec fn eq_spec(&self, other: &Self) -> bool {
        self@ == other@
    }
}

} // verus!
