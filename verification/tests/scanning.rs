use tokenizer::lexer::{Lexer, Token, TokenType, TokenValue};

fn lexer_over(code: &str) -> Lexer {
    Lexer::new("scan.txt".to_string(), code.to_string())
}

fn text(s: &str) -> TokenValue {
    TokenValue::String(s.to_string())
}

fn spelling(s: &str) -> TokenValue {
    TokenValue::Float(s.to_string())
}

/// All tokens of `code`, up to and including the first `Eof`.
fn tokens(code: &str) -> Vec<Token> {
    let mut lexer = lexer_over(code);
    let mut found = Vec::new();
    let limit: usize = code.chars().count() + 1;
    for _ in 0..limit {
        let token = lexer.next_token();
        let done = token.kind == TokenType::Eof;
        found.push(token);
        if done {
            return found;
        }
    }
    panic!("no Eof within {} scans", limit);
}

fn kinds(code: &str) -> Vec<TokenType> {
    tokens(code).iter().map(|token| token.kind).collect()
}

#[test]
fn end_to_end_let_statement() {
    assert_eq!(
        tokens("let x = 10;"),
        vec![
            Token::new(TokenType::Let, text("let"), 1),
            Token::new(TokenType::Identifier, text("x"), 1),
            Token::new(TokenType::Assign, text("="), 1),
            Token::new(TokenType::IntVal, TokenValue::Int(10), 1),
            Token::new(TokenType::SemiColon, text(";"), 1),
            Token::new(TokenType::Eof, text(""), 1),
        ]
    );
}

#[test]
fn error_token_then_eof() {
    assert_eq!(
        tokens("1 + 2 * $"),
        vec![
            Token::new(TokenType::IntVal, TokenValue::Int(1), 1),
            Token::new(TokenType::Plus, text("+"), 1),
            Token::new(TokenType::IntVal, TokenValue::Int(2), 1),
            Token::new(TokenType::Multiply, text("*"), 1),
            Token::new(TokenType::Error, text("$"), 1),
            Token::new(TokenType::Eof, text(""), 1),
        ]
    );
}

#[test]
fn new_lexer_is_at_the_start_on_line_one() {
    let lexer = Lexer::new("main.src".to_string(), "\n\nlet".to_string());
    assert_eq!(lexer.index(), 0);
    assert_eq!(lexer.line(), 1);
    assert_eq!(lexer.path(), "main.src");
}

#[test]
fn cursor_moves_forward_until_the_end() {
    let code = "fun f(a, b) { return a <= b && !c; } \"s\" 1.5 $ \t\n x \"open";
    let length: usize = code.chars().count();
    let mut lexer = lexer_over(code);
    let mut scans: usize = 0;
    while lexer.index() < length {
        let before: usize = lexer.index();
        lexer.next_token();
        assert!(lexer.index() > before);
        assert!(lexer.index() <= length);
        scans += 1;
        assert!(scans <= length);
    }
    assert_eq!(lexer.next_token().kind, TokenType::Eof);
    assert_eq!(lexer.index(), length);
}

#[test]
fn eof_is_repeated_without_moving() {
    let mut lexer = lexer_over("a\nb");
    assert_eq!(lexer.next_token().kind, TokenType::Identifier);
    assert_eq!(lexer.next_token().kind, TokenType::Identifier);
    for _ in 0..5 {
        assert_eq!(lexer.next_token(), Token::new(TokenType::Eof, text(""), 2));
        assert_eq!(lexer.index(), 3);
        assert_eq!(lexer.line(), 2);
    }
}

#[test]
fn blanks_before_the_end_are_passed_over() {
    let mut lexer = lexer_over("a  \n\n ");
    assert_eq!(lexer.next_token(), Token::new(TokenType::Identifier, text("a"), 1));
    assert_eq!(lexer.index(), 1);
    assert_eq!(lexer.next_token(), Token::new(TokenType::Eof, text(""), 3));
    assert_eq!(lexer.index(), 6);
    assert_eq!(lexer.next_token(), Token::new(TokenType::Eof, text(""), 3));
    assert_eq!(lexer.index(), 6);
}

#[test]
fn only_blanks_scan_to_eof() {
    assert_eq!(tokens(" \t\r\n \n"), vec![Token::new(TokenType::Eof, text(""), 3)]);
}

#[test]
fn line_is_one_more_than_the_newlines_before_the_token() {
    let code = "a\n\n  b c\n\n\n\td;\n";
    let chars: Vec<char> = code.chars().collect();
    let mut lexer = lexer_over(code);
    let mut seen: usize = 0;
    loop {
        let token = lexer.next_token();
        if token.kind == TokenType::Eof {
            assert_eq!(token.line, 7);
            break;
        }
        let width: usize = match &token.value {
            TokenValue::String(payload) => payload.chars().count(),
            other => panic!("unexpected payload {:?}", other),
        };
        let start: usize = lexer.index() - width;
        let newlines: usize = chars[..start].iter().filter(|c| **c == '\n').count();
        assert_eq!(token.line as usize, 1 + newlines);
        seen += 1;
    }
    assert_eq!(seen, 5);
}

#[test]
fn lines_of_tokens_in_a_small_text() {
    let found = tokens("a\n\n  b c\n\n\n\td;\n");
    let lines: Vec<u16> = found.iter().map(|token| token.line).collect();
    assert_eq!(lines, vec![1, 3, 3, 6, 6, 7]);
}

#[test]
fn string_is_on_the_line_where_it_opens() {
    let mut lexer = lexer_over("\n\"one\ntwo\nthree\" x");
    assert_eq!(lexer.next_token(), Token::new(TokenType::StringVal, text("one\ntwo\nthree"), 2));
    assert_eq!(lexer.line(), 4);
    assert_eq!(lexer.next_token(), Token::new(TokenType::Identifier, text("x"), 4));
}

#[test]
fn line_count_stops_at_the_largest_u16() {
    let mut code = "\n".repeat(65533);
    code.push_str("a\nb\nc\nd");
    let mut lexer = lexer_over(&code);
    assert_eq!(lexer.next_token(), Token::new(TokenType::Identifier, text("a"), 65534));
    assert_eq!(lexer.next_token(), Token::new(TokenType::Identifier, text("b"), 65535));
    assert_eq!(lexer.next_token(), Token::new(TokenType::Identifier, text("c"), 65535));
    assert_eq!(lexer.next_token(), Token::new(TokenType::Identifier, text("d"), 65535));
    assert_eq!(lexer.next_token(), Token::new(TokenType::Eof, text(""), 65535));
    assert_eq!(lexer.line(), u16::MAX);
}

#[test]
fn word_is_a_keyword_only_if_it_is_in_the_table() {
    assert_eq!(
        tokens("let lets le Let LET iff if namespace true"),
        vec![
            Token::new(TokenType::Let, text("let"), 1),
            Token::new(TokenType::Identifier, text("lets"), 1),
            Token::new(TokenType::Identifier, text("le"), 1),
            Token::new(TokenType::Identifier, text("Let"), 1),
            Token::new(TokenType::Identifier, text("LET"), 1),
            Token::new(TokenType::Identifier, text("iff"), 1),
            Token::new(TokenType::If, text("if"), 1),
            Token::new(TokenType::Identifier, text("namespace"), 1),
            Token::new(TokenType::Identifier, text("true"), 1),
            Token::new(TokenType::Eof, text(""), 1),
        ]
    );
}

#[test]
fn word_is_letters_only() {
    assert_eq!(
        tokens("ab1 a_b for2"),
        vec![
            Token::new(TokenType::Identifier, text("ab"), 1),
            Token::new(TokenType::IntVal, TokenValue::Int(1), 1),
            Token::new(TokenType::Identifier, text("a"), 1),
            Token::new(TokenType::Error, text("_"), 1),
            Token::new(TokenType::Identifier, text("b"), 1),
            Token::new(TokenType::For, text("for"), 1),
            Token::new(TokenType::IntVal, TokenValue::Int(2), 1),
            Token::new(TokenType::Eof, text(""), 1),
        ]
    );
}

#[test]
fn integer_literal_has_the_value_of_its_digits() {
    assert_eq!(
        tokens("0 7 007 42 1234567890 9223372036854775807"),
        vec![
            Token::new(TokenType::IntVal, TokenValue::Int(0), 1),
            Token::new(TokenType::IntVal, TokenValue::Int(7), 1),
            Token::new(TokenType::IntVal, TokenValue::Int(7), 1),
            Token::new(TokenType::IntVal, TokenValue::Int(42), 1),
            Token::new(TokenType::IntVal, TokenValue::Int(1234567890), 1),
            Token::new(TokenType::IntVal, TokenValue::Int(i64::MAX), 1),
            Token::new(TokenType::Eof, text(""), 1),
        ]
    );
}

#[test]
fn integer_literal_beyond_i64_is_an_error() {
    assert_eq!(
        tokens("9223372036854775808 1 99999999999999999999999999 00000000000000000000000012"),
        vec![
            Token::new(TokenType::Error, text("9223372036854775808"), 1),
            Token::new(TokenType::IntVal, TokenValue::Int(1), 1),
            Token::new(TokenType::Error, text("99999999999999999999999999"), 1),
            Token::new(TokenType::IntVal, TokenValue::Int(12), 1),
            Token::new(TokenType::Eof, text(""), 1),
        ]
    );
}

#[test]
fn float_literal_carries_its_spelling() {
    assert_eq!(
        tokens("3.14159 0.001 1.0 1. 12.50"),
        vec![
            Token::new(TokenType::FloatVal, spelling("3.14159"), 1),
            Token::new(TokenType::FloatVal, spelling("0.001"), 1),
            Token::new(TokenType::FloatVal, spelling("1.0"), 1),
            Token::new(TokenType::FloatVal, spelling("1."), 1),
            Token::new(TokenType::FloatVal, spelling("12.50"), 1),
            Token::new(TokenType::Eof, text(""), 1),
        ]
    );
}

#[test]
fn float_spelling_parses_to_the_nearest_double() {
    let found = tokens("3.14159 0.1 1. 123456789.125 99999999999999999999.5");
    let expected: Vec<f64> = vec![3.14159, 0.1, 1.0, 123456789.125, 99999999999999999999.5];
    for (token, value) in found.iter().zip(expected.iter()) {
        assert_eq!(token.kind, TokenType::FloatVal);
        match &token.value {
            TokenValue::Float(spelling) => assert_eq!(spelling.parse::<f64>().unwrap(), *value),
            other => panic!("unexpected payload {:?}", other),
        }
    }
    assert_eq!(found.len(), 6);
}

#[test]
fn float_literal_has_one_dot() {
    assert_eq!(
        tokens("1.5.3 .5 1..2 7.x"),
        vec![
            Token::new(TokenType::FloatVal, spelling("1.5"), 1),
            Token::new(TokenType::Dot, text("."), 1),
            Token::new(TokenType::IntVal, TokenValue::Int(3), 1),
            Token::new(TokenType::Dot, text("."), 1),
            Token::new(TokenType::IntVal, TokenValue::Int(5), 1),
            Token::new(TokenType::FloatVal, spelling("1."), 1),
            Token::new(TokenType::Dot, text("."), 1),
            Token::new(TokenType::IntVal, TokenValue::Int(2), 1),
            Token::new(TokenType::FloatVal, spelling("7."), 1),
            Token::new(TokenType::Identifier, text("x"), 1),
            Token::new(TokenType::Eof, text(""), 1),
        ]
    );
}

#[test]
fn string_literal_is_the_text_between_the_quotes() {
    assert_eq!(
        tokens("\"abc\""),
        vec![
            Token::new(TokenType::StringVal, text("abc"), 1),
            Token::new(TokenType::Eof, text(""), 1),
        ]
    );
}

#[test]
fn string_literal_is_taken_as_it_is() {
    let mut lexer = lexer_over("\"a\\n + $ 'x' \t é\" \"\" \"back\\\"");
    assert_eq!(
        lexer.next_token(),
        Token::new(TokenType::StringVal, text("a\\n + $ 'x' \t é"), 1)
    );
    assert_eq!(lexer.next_token(), Token::new(TokenType::StringVal, text(""), 1));
    assert_eq!(lexer.next_token(), Token::new(TokenType::StringVal, text("back\\"), 1));
    assert_eq!(lexer.next_token(), Token::new(TokenType::Eof, text(""), 1));
}

#[test]
fn string_literal_ends_at_the_first_quote() {
    assert_eq!(
        tokens("\"a\"b\"c\""),
        vec![
            Token::new(TokenType::StringVal, text("a"), 1),
            Token::new(TokenType::Identifier, text("b"), 1),
            Token::new(TokenType::StringVal, text("c"), 1),
            Token::new(TokenType::Eof, text(""), 1),
        ]
    );
}

#[test]
fn string_without_closing_quote_is_an_error() {
    let mut lexer = lexer_over("x \"abc\ndef");
    assert_eq!(lexer.next_token(), Token::new(TokenType::Identifier, text("x"), 1));
    assert_eq!(lexer.next_token(), Token::new(TokenType::Error, text("\"abc\ndef"), 1));
    assert_eq!(lexer.index(), 10);
    assert_eq!(lexer.next_token(), Token::new(TokenType::Eof, text(""), 2));
}

#[test]
fn lone_quote_at_the_end_is_an_error() {
    assert_eq!(
        tokens("\""),
        vec![
            Token::new(TokenType::Error, text("\""), 1),
            Token::new(TokenType::Eof, text(""), 1),
        ]
    );
}

#[test]
fn operators_between_words_without_blanks() {
    assert_eq!(
        tokens("a<=b>>2!=c"),
        vec![
            Token::new(TokenType::Identifier, text("a"), 1),
            Token::new(TokenType::LessThanEqual, text("<="), 1),
            Token::new(TokenType::Identifier, text("b"), 1),
            Token::new(TokenType::BitwiseShiftRight, text(">>"), 1),
            Token::new(TokenType::IntVal, TokenValue::Int(2), 1),
            Token::new(TokenType::NotEqual, text("!="), 1),
            Token::new(TokenType::Identifier, text("c"), 1),
            Token::new(TokenType::Eof, text(""), 1),
        ]
    );
}

#[test]
fn operator_run_that_spells_nothing_is_an_error() {
    assert_eq!(
        tokens("+- === -> =! <<= x=-1 !!"),
        vec![
            Token::new(TokenType::Error, text("+-"), 1),
            Token::new(TokenType::Error, text("==="), 1),
            Token::new(TokenType::Error, text("->"), 1),
            Token::new(TokenType::Error, text("=!"), 1),
            Token::new(TokenType::Error, text("<<="), 1),
            Token::new(TokenType::Identifier, text("x"), 1),
            Token::new(TokenType::Error, text("=-"), 1),
            Token::new(TokenType::IntVal, TokenValue::Int(1), 1),
            Token::new(TokenType::Error, text("!!"), 1),
            Token::new(TokenType::Eof, text(""), 1),
        ]
    );
}

#[test]
fn operator_run_at_the_end_of_the_text() {
    assert_eq!(
        tokens("a &&"),
        vec![
            Token::new(TokenType::Identifier, text("a"), 1),
            Token::new(TokenType::LogicalAnd, text("&&"), 1),
            Token::new(TokenType::Eof, text(""), 1),
        ]
    );
}

#[test]
fn delimiters_are_one_character_each() {
    assert_eq!(
        kinds("();[[]]{}...,:;"),
        vec![
            TokenType::LeftParen,
            TokenType::RightParen,
            TokenType::SemiColon,
            TokenType::LeftBracket,
            TokenType::LeftBracket,
            TokenType::RightBracket,
            TokenType::RightBracket,
            TokenType::LeftBrace,
            TokenType::RightBrace,
            TokenType::Dot,
            TokenType::Dot,
            TokenType::Dot,
            TokenType::Comma,
            TokenType::Colon,
            TokenType::SemiColon,
            TokenType::Eof,
        ]
    );
}

#[test]
fn stray_character_is_an_error_of_one_character() {
    assert_eq!(
        tokens("$# @_'\\`?"),
        vec![
            Token::new(TokenType::Error, text("$"), 1),
            Token::new(TokenType::Error, text("#"), 1),
            Token::new(TokenType::Error, text("@"), 1),
            Token::new(TokenType::Error, text("_"), 1),
            Token::new(TokenType::Error, text("'"), 1),
            Token::new(TokenType::Error, text("\\"), 1),
            Token::new(TokenType::Error, text("`"), 1),
            Token::new(TokenType::Error, text("?"), 1),
            Token::new(TokenType::Eof, text(""), 1),
        ]
    );
}

#[test]
fn scanning_goes_on_after_an_error() {
    let mut lexer = lexer_over("$$ let");
    assert_eq!(lexer.next_token(), Token::new(TokenType::Error, text("$"), 1));
    assert_eq!(lexer.index(), 1);
    assert_eq!(lexer.next_token(), Token::new(TokenType::Error, text("$"), 1));
    assert_eq!(lexer.index(), 2);
    assert_eq!(lexer.next_token(), Token::new(TokenType::Let, text("let"), 1));
}

#[test]
fn control_characters_from_tab_to_carriage_return_are_blank() {
    assert_eq!(
        tokens("\t\u{b}\u{c}\r a\nb"),
        vec![
            Token::new(TokenType::Identifier, text("a"), 1),
            Token::new(TokenType::Identifier, text("b"), 2),
            Token::new(TokenType::Eof, text(""), 2),
        ]
    );
}

#[test]
fn other_control_characters_are_stray() {
    assert_eq!(
        tokens("\u{0}\u{1f}\u{7f}"),
        vec![
            Token::new(TokenType::Error, text("\u{0}"), 1),
            Token::new(TokenType::Error, text("\u{1f}"), 1),
            Token::new(TokenType::Error, text("\u{7f}"), 1),
            Token::new(TokenType::Eof, text(""), 1),
        ]
    );
}

#[test]
fn letters_beyond_ascii_make_words() {
    assert_eq!(
        tokens("héllo 日本語 Ωmega let\u{e9}"),
        vec![
            Token::new(TokenType::Identifier, text("héllo"), 1),
            Token::new(TokenType::Identifier, text("日本語"), 1),
            Token::new(TokenType::Identifier, text("Ωmega"), 1),
            Token::new(TokenType::Identifier, text("leté"), 1),
            Token::new(TokenType::Eof, text(""), 1),
        ]
    );
}

#[test]
fn blanks_beyond_ascii_separate_tokens() {
    let mut lexer = lexer_over("a\u{a0}b\u{2003}\u{3000}c\u{2028}d");
    assert_eq!(lexer.next_token(), Token::new(TokenType::Identifier, text("a"), 1));
    assert_eq!(lexer.next_token(), Token::new(TokenType::Identifier, text("b"), 1));
    assert_eq!(lexer.next_token(), Token::new(TokenType::Identifier, text("c"), 1));
    assert_eq!(lexer.next_token(), Token::new(TokenType::Identifier, text("d"), 1));
    assert_eq!(lexer.next_token(), Token::new(TokenType::Eof, text(""), 1));
    assert_eq!(lexer.index(), 8);
}

#[test]
fn symbols_beyond_ascii_are_stray() {
    assert_eq!(
        tokens("€ 💝 ٣"),
        vec![
            Token::new(TokenType::Error, text("€"), 1),
            Token::new(TokenType::Error, text("💝"), 1),
            Token::new(TokenType::Error, text("٣"), 1),
            Token::new(TokenType::Eof, text(""), 1),
        ]
    );
}

#[test]
fn cursor_counts_characters_not_bytes() {
    let mut lexer = lexer_over("é€ x");
    assert_eq!(lexer.next_token(), Token::new(TokenType::Identifier, text("é"), 1));
    assert_eq!(lexer.index(), 1);
    assert_eq!(lexer.next_token(), Token::new(TokenType::Error, text("€"), 1));
    assert_eq!(lexer.index(), 2);
    assert_eq!(lexer.next_token(), Token::new(TokenType::Identifier, text("x"), 1));
    assert_eq!(lexer.index(), 4);
}

#[test]
fn payload_has_the_variant_of_its_category() {
    let code = "let x = 10 + 2.5; \"s\" $ 99999999999999999999 \"open";
    for token in tokens(code) {
        let fits = match token.kind {
            TokenType::IntVal => matches!(token.value, TokenValue::Int(_)),
            TokenType::FloatVal => matches!(token.value, TokenValue::Float(_)),
            TokenType::BoolVal => matches!(token.value, TokenValue::Bool(_)),
            TokenType::CharVal => matches!(token.value, TokenValue::Char(_)),
            _ => matches!(token.value, TokenValue::String(_)),
        };
        assert!(fits, "{:?}", token);
    }
}

#[test]
fn reserved_categories_are_never_produced() {
    let code = "namespace true false 'a' 'b' bool char";
    for token in tokens(code) {
        assert_ne!(token.kind, TokenType::Namespace);
        assert_ne!(token.kind, TokenType::BoolVal);
        assert_ne!(token.kind, TokenType::CharVal);
    }
}
