//! A tokenizer for a small C-like language: keywords, identifiers, integer,
//! float and string literals, operators and delimiters.
//!
//! [`lexer::Lexer`] holds a source text and hands out its tokens one at a
//! time. What it computes is defined in [`grammar`] as a function of the text
//! and the cursor, and the scanner is proved to compute exactly that;
//! [`laws`] states what follows for every text.

pub mod chars;
pub mod grammar;
pub mod laws;
pub mod lexer;
pub mod number;
pub mod spelling;
pub mod text;
pub mod token;
