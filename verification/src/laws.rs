//! What holds of every scan: the scanner goes forward until the text ends,
//! reports the line on which each token begins, and reads words, numbers,
//! strings, operators and delimiters as what they spell.

use crate::chars::{is_blank, is_digit, is_letter, lead_of, CharSet, Lead};
use crate::grammar::{
    lemma_run_end, lemma_run_end_is_unique, lemma_scan_token_bounds, newlines_before, run_end,
    scan, scan_token, Scan,
};
use crate::lexer::LexerView;
use crate::number::{decimal_value, is_decimal};
use crate::spelling::{delimiter_kind, keyword_kind, operator_kind};
use crate::token::{TokenType, TokenView, ValueView};
use vstd::prelude::*;

verus! {

/// The categories that the keyword table hands out.
pub open spec fn is_keyword(kind: TokenType) -> bool {
    kind == TokenType::Let || kind == TokenType::Const || kind == TokenType::Enum || kind
        == TokenType::Struct || kind == TokenType::Fun || kind == TokenType::If || kind
        == TokenType::Elif || kind == TokenType::Else || kind == TokenType::Switch || kind
        == TokenType::Case || kind == TokenType::Default || kind == TokenType::For || kind
        == TokenType::While || kind == TokenType::Do || kind == TokenType::Break || kind
        == TokenType::Continue || kind == TokenType::Return
}

/// The state after `n` scans in a row.
pub open spec fn after(state: LexerView, n: nat) -> LexerView
    decreases n,
{
    if n == 0 {
        state
    } else {
        after(state, (n - 1) as nat).next()
    }
}

/// A scan leaves the text and its name alone, keeps the state well formed,
/// and yields a token whose payload fits its category.
pub proof fn lemma_scan_keeps_state_well_formed(state: LexerView)
    requires
        state.wf(),
    ensures
        state.next().wf(),
        state.next().text == state.text,
        state.next().path == state.path,
        state.index <= state.next().index,
        state.token().wf(),
{
    let start = run_end(state.text, state.index, CharSet::Blank);
    lemma_run_end(state.text, state.index, CharSet::Blank);
    if start < state.text.len() {
        lemma_scan_token_bounds(state.text, start);
    }
}

/// A scan that begins before the end of the text moves the cursor forward,
/// and not beyond the end.
pub proof fn lemma_scan_makes_progress(state: LexerView)
    requires
        state.wf(),
        state.index < state.text.len(),
    ensures
        state.index < state.next().index <= state.text.len(),
{
    let start = run_end(state.text, state.index, CharSet::Blank);
    lemma_run_end(state.text, state.index, CharSet::Blank);
    if start < state.text.len() {
        lemma_scan_token_bounds(state.text, start);
    }
}

/// A scan that begins at the end of the text yields `Eof` with an empty
/// payload, on the line of the end, and changes nothing: so does every scan
/// after it.
pub proof fn lemma_scan_at_end_is_idempotent(state: LexerView)
    requires
        state.wf(),
        state.index == state.text.len(),
    ensures
        state.next() == state,
        state.token() == (TokenView {
            kind: TokenType::Eof,
            value: ValueView::String(Seq::empty()),
            line: state.line,
        }),
{
}

/// After `n` scans the cursor has passed at least `n` characters, or the
/// whole text: scanning never stays in place before the end, and so at most
/// as many scans as the text has characters come before the first `Eof`.
pub proof fn lemma_scans_reach_the_end(state: LexerView, n: nat)
    requires
        state.wf(),
    ensures
        after(state, n).wf(),
        after(state, n).text == state.text,
        after(state, n).index >= state.index + n || after(state, n).index == state.text.len(),
        n >= state.text.len() - state.index ==> after(state, n).token().kind == TokenType::Eof,
    decreases n,
{
    if n > 0 {
        let before = after(state, (n - 1) as nat);
        lemma_scans_reach_the_end(state, (n - 1) as nat);
        lemma_scan_keeps_state_well_formed(before);
        if before.index < before.text.len() {
            lemma_scan_makes_progress(before);
        }
    }
    let last = after(state, n);
    if last.index == last.text.len() {
        lemma_scan_at_end_is_idempotent(last);
    }
}

/// The line of a token is one more than the number of newlines before its
/// first character, as long as the sum fits in a `u16`. The first character
/// is the first one at or after the cursor that is not blank.
pub proof fn lemma_token_line_counts_newlines(state: LexerView)
    requires
        state.wf(),
        newlines_before(state.text, run_end(state.text, state.index, CharSet::Blank)) < u16::MAX,
    ensures
        scan(state.text, state.index).start == run_end(state.text, state.index, CharSet::Blank),
        state.token().line == 1 + newlines_before(
            state.text,
            scan(state.text, state.index).start,
        ),
{
    let start = run_end(state.text, state.index, CharSet::Blank);
    lemma_run_end(state.text, state.index, CharSet::Blank);
    if start < state.text.len() {
        lemma_scan_token_bounds(state.text, start);
    }
}

/// A token that begins inside the text is no `Eof`, and what it is follows
/// from its first character: only a letter begins a keyword or an
/// identifier, only a digit an `IntVal` or a `FloatVal`, and only a double
/// quote a `StringVal`.
pub proof fn lemma_token_is_not_eof(text: Seq<char>, start: int)
    requires
        0 <= start < text.len(),
    ensures
        ({
            let found = scan_token(text, start);
            &&& found.kind != TokenType::Eof
            &&& is_keyword(found.kind) || found.kind == TokenType::Identifier ==> lead_of(
                text[start],
            ) == Lead::Letter
            &&& found.kind == TokenType::IntVal || found.kind == TokenType::FloatVal ==> lead_of(
                text[start],
            ) == Lead::Digit
            &&& found.kind == TokenType::StringVal ==> lead_of(text[start]) == Lead::Quote
        }),
{
}

/// Between the cursor and the first character of the token there are only
/// blanks, and the token does not begin with one.
pub proof fn lemma_only_blanks_are_passed_over(state: LexerView)
    requires
        state.wf(),
    ensures
        ({
            let found = scan(state.text, state.index);
            &&& state.index <= found.start <= found.end <= state.text.len()
            &&& forall|i: int| state.index <= i < found.start ==> is_blank(#[trigger] state.text[i])
            &&& found.start < state.text.len() ==> !is_blank(state.text[found.start])
            &&& found.kind == TokenType::Eof <==> found.start == state.text.len()
        }),
{
    let start = run_end(state.text, state.index, CharSet::Blank);
    lemma_run_end(state.text, state.index, CharSet::Blank);
    if start < state.text.len() {
        lemma_scan_token_bounds(state.text, start);
        lemma_token_is_not_eof(state.text, start);
    }
}

/// The payload of a token is read off the characters that the token takes:
/// their number for an `IntVal`, what stands between the quotes for a
/// `StringVal`, and the characters themselves for every other token, `Error`
/// among them.
pub proof fn lemma_payload_is_the_token_text(state: LexerView)
    requires
        state.wf(),
    ensures
        ({
            let found = scan(state.text, state.index);
            let taken = state.text.subrange(found.start, found.end);
            found.value == match found.kind {
                TokenType::IntVal => ValueView::Int(decimal_value(taken) as i64),
                TokenType::FloatVal => ValueView::Float(taken),
                TokenType::StringVal => ValueView::String(taken.subrange(1, taken.len() - 1)),
                _ => ValueView::String(taken),
            }
        }),
{
    let text = state.text;
    let start = run_end(text, state.index, CharSet::Blank);
    lemma_run_end(text, state.index, CharSet::Blank);
    if start < text.len() {
        lemma_scan_token_bounds(text, start);
        lemma_token_is_not_eof(text, start);
        let found = scan_token(text, start);
        let taken = text.subrange(start, found.end);
        if found.kind == TokenType::StringVal {
            lemma_run_end(text, start + 1, CharSet::Unquoted);
            assert(taken.subrange(1, taken.len() - 1) =~= text.subrange(start + 1, found.end - 1));
        }
    } else {
        assert(text.subrange(start, start) =~= Seq::<char>::empty());
    }
}

/// Where the scan meets a letter, the token is the longest run of letters
/// from there. Its category is a keyword exactly if the keyword table has
/// the run, and then it is the table's; if not, it is `Identifier`. Either
/// way the payload is the run, letter for letter.
pub proof fn lemma_word_is_keyword_or_identifier(state: LexerView)
    requires
        state.wf(),
        run_end(state.text, state.index, CharSet::Blank) < state.text.len(),
        is_letter(state.text[run_end(state.text, state.index, CharSet::Blank)]),
    ensures
        ({
            let found = scan(state.text, state.index);
            let start = run_end(state.text, state.index, CharSet::Blank);
            let end = run_end(state.text, start, CharSet::Letter);
            let word = state.text.subrange(start, end);
            &&& found.start == start
            &&& found.end == end
            &&& found.value == ValueView::String(word)
            &&& is_keyword(found.kind) <==> keyword_kind(word) is Some
            &&& keyword_kind(word) is Some ==> found.kind == keyword_kind(word)->0
            &&& keyword_kind(word) is None ==> found.kind == TokenType::Identifier
        }),
{
    lemma_run_end(state.text, state.index, CharSet::Blank);
}

/// A text that is a decimal literal scans to one token that takes all of it:
/// an `IntVal` with the number that the digits denote if that number fits in
/// an `i64`, and an `Error` with the digits if it does not.
pub proof fn lemma_digits_scan_to_their_value(digits: Seq<char>)
    requires
        is_decimal(digits),
    ensures
        decimal_value(digits) <= i64::MAX ==> scan(digits, 0) == (Scan {
            kind: TokenType::IntVal,
            value: ValueView::Int(decimal_value(digits) as i64),
            start: 0,
            end: digits.len() as int,
        }),
        decimal_value(digits) > i64::MAX ==> scan(digits, 0) == (Scan {
            kind: TokenType::Error,
            value: ValueView::String(digits),
            start: 0,
            end: digits.len() as int,
        }),
{
    assert(is_digit(digits[0]));
    lemma_run_end_is_unique(digits, 0, CharSet::Digit, digits.len() as int);
    assert(digits.subrange(0, digits.len() as int) =~= digits);
}

/// A text that is a decimal literal, a dot, and digits or nothing after the
/// dot scans to one `FloatVal` that takes all of it and carries it as its
/// spelling.
pub proof fn lemma_decimal_point_scans_to_its_spelling(whole: Seq<char>, fraction: Seq<char>)
    requires
        is_decimal(whole),
        forall|i: int| 0 <= i < fraction.len() ==> is_digit(#[trigger] fraction[i]),
    ensures
        scan(whole + seq!['.'] + fraction, 0) == (Scan {
            kind: TokenType::FloatVal,
            value: ValueView::Float(whole + seq!['.'] + fraction),
            start: 0,
            end: whole.len() as int + 1 + fraction.len(),
        }),
{
    let text = whole + seq!['.'] + fraction;
    assert(is_digit(whole[0]));
    assert(text[0] == whole[0]);
    assert(text[whole.len() as int] == '.');
    assert forall|i: int| 0 <= i < whole.len() implies CharSet::Digit.has(#[trigger] text[i]) by {
        assert(text[i] == whole[i]);
    }
    lemma_run_end_is_unique(text, 0, CharSet::Digit, whole.len() as int);
    assert forall|i: int| whole.len() + 1 <= i < text.len() implies CharSet::Digit.has(
        #[trigger] text[i],
    ) by {
        assert(text[i] == fraction[i - whole.len() - 1]);
    }
    lemma_run_end_is_unique(text, whole.len() as int + 1, CharSet::Digit, text.len() as int);
    assert(text.subrange(0, text.len() as int) =~= text);
}

/// A text between two double quotes, with no double quote in it, scans to one
/// `StringVal` that takes both quotes and carries the text between them
/// unchanged, whatever characters it holds.
pub proof fn lemma_quoted_text_scans_to_its_inside(inside: Seq<char>)
    requires
        forall|i: int| 0 <= i < inside.len() ==> #[trigger] inside[i] != '"',
    ensures
        scan(seq!['"'] + inside + seq!['"'], 0) == (Scan {
            kind: TokenType::StringVal,
            value: ValueView::String(inside),
            start: 0,
            end: inside.len() as int + 2,
        }),
{
    let text = seq!['"'] + inside + seq!['"'];
    assert(text[0] == '"');
    assert(text[inside.len() as int + 1] == '"');
    assert forall|i: int| 1 <= i < inside.len() + 1 implies CharSet::Unquoted.has(
        #[trigger] text[i],
    ) by {
        assert(text[i] == inside[i - 1]);
    }
    lemma_run_end_is_unique(text, 1, CharSet::Unquoted, inside.len() as int + 1);
    assert(text.subrange(1, inside.len() as int + 1) =~= inside);
}

/// A text that begins with a double quote and holds no other scans to one
/// `Error` that takes all of it and carries all of it.
pub proof fn lemma_open_string_is_an_error(inside: Seq<char>)
    requires
        forall|i: int| 0 <= i < inside.len() ==> #[trigger] inside[i] != '"',
    ensures
        scan(seq!['"'] + inside, 0) == (Scan {
            kind: TokenType::Error,
            value: ValueView::String(seq!['"'] + inside),
            start: 0,
            end: inside.len() as int + 1,
        }),
{
    let text = seq!['"'] + inside;
    assert(text[0] == '"');
    assert forall|i: int| 1 <= i < inside.len() + 1 implies CharSet::Unquoted.has(
        #[trigger] text[i],
    ) by {
        assert(text[i] == inside[i - 1]);
    }
    lemma_run_end_is_unique(text, 1, CharSet::Unquoted, inside.len() as int + 1);
    assert(text.subrange(0, inside.len() as int + 1) =~= text);
}

/// Every spelling in the operator table is made of operator characters and
/// is one or two of them long.
pub proof fn lemma_operators_are_runs(run: Seq<char>)
    requires
        operator_kind(run) is Some,
    ensures
        1 <= run.len() <= 2,
        forall|i: int| 0 <= i < run.len() ==> CharSet::Operator.has(#[trigger] run[i]),
{
    reveal_strlit("+");
    reveal_strlit("-");
    reveal_strlit("*");
    reveal_strlit("/");
    reveal_strlit("%");
    reveal_strlit("=");
    reveal_strlit("==");
    reveal_strlit("!=");
    reveal_strlit("<");
    reveal_strlit(">");
    reveal_strlit("<=");
    reveal_strlit(">=");
    reveal_strlit("||");
    reveal_strlit("!");
    reveal_strlit("&&");
    reveal_strlit("|");
    reveal_strlit("~");
    reveal_strlit("&");
    reveal_strlit("^");
    reveal_strlit("<<");
    reveal_strlit(">>");
}

/// A text that is a spelling of the operator table scans to one token that
/// takes all of it, has the category that the table gives the spelling, and
/// carries the spelling.
pub proof fn lemma_operator_scans_to_its_kind(run: Seq<char>)
    requires
        operator_kind(run) is Some,
    ensures
        scan(run, 0) == (Scan {
            kind: operator_kind(run)->0,
            value: ValueView::String(run),
            start: 0,
            end: run.len() as int,
        }),
{
    lemma_operators_are_runs(run);
    assert(CharSet::Operator.has(run[0]));
    lemma_run_end_is_unique(run, 0, CharSet::Operator, run.len() as int);
    assert(run.subrange(0, run.len() as int) =~= run);
}

/// A text that is one delimiter scans to one token of the category that the
/// delimiter table gives the character, and carries the character.
pub proof fn lemma_delimiter_scans_to_its_kind(c: char)
    requires
        delimiter_kind(c) is Some,
    ensures
        scan(seq![c], 0) == (Scan {
            kind: delimiter_kind(c)->0,
            value: ValueView::String(seq![c]),
            start: 0,
            end: 1,
        }),
{
    let text = seq![c];
    assert(text[0] == c);
    assert(text.subrange(0, 1) =~= text);
}

/// Every spelling in the keyword table is made of lower-case ASCII letters,
/// two of them or more.
pub proof fn lemma_keywords_are_words(word: Seq<char>)
    requires
        keyword_kind(word) is Some,
    ensures
        word.len() >= 2,
        forall|i: int| 0 <= i < word.len() ==> 'a' <= #[trigger] word[i] <= 'z',
{
    reveal_strlit("let");
    reveal_strlit("const");
    reveal_strlit("enum");
    reveal_strlit("struct");
    reveal_strlit("fun");
    reveal_strlit("if");
    reveal_strlit("elif");
    reveal_strlit("else");
    reveal_strlit("switch");
    reveal_strlit("case");
    reveal_strlit("default");
    reveal_strlit("for");
    reveal_strlit("while");
    reveal_strlit("do");
    reveal_strlit("break");
    reveal_strlit("continue");
    reveal_strlit("return");
}

/// A text that is a spelling of the keyword table scans to one token that
/// takes all of it, has the category that the table gives the spelling, and
/// carries the spelling.
pub proof fn lemma_keyword_scans_to_its_kind(word: Seq<char>)
    requires
        keyword_kind(word) is Some,
    ensures
        scan(word, 0) == (Scan {
            kind: keyword_kind(word)->0,
            value: ValueView::String(word),
            start: 0,
            end: word.len() as int,
        }),
{
    lemma_keywords_are_words(word);
    assert('a' <= word[0] <= 'z');
    assert forall|i: int| 0 <= i < word.len() implies CharSet::Letter.has(#[trigger] word[i]) by {
        assert('a' <= word[i] <= 'z');
    }
    lemma_run_end_is_unique(word, 0, CharSet::Letter, word.len() as int);
    assert(word.subrange(0, word.len() as int) =~= word);
}

/// No two spellings share a category: each table can be read backwards.
pub proof fn lemma_spellings_are_unique(a: Seq<char>, b: Seq<char>)
    ensures
        keyword_kind(a) is Some && keyword_kind(a) == keyword_kind(b) ==> a == b,
        operator_kind(a) is Some && operator_kind(a) == operator_kind(b) ==> a == b,
        keyword_kind(a) is Some && operator_kind(b) is Some ==> keyword_kind(a) != operator_kind(b),
{
}

/// No two delimiters share a category, among themselves or with a keyword or
/// an operator.
pub proof fn lemma_delimiters_are_unique(c: char, d: char, spelling: Seq<char>)
    ensures
        delimiter_kind(c) is Some && delimiter_kind(c) == delimiter_kind(d) ==> c == d,
        delimiter_kind(c) is Some ==> delimiter_kind(c) != keyword_kind(spelling)
            && delimiter_kind(c) != operator_kind(spelling),
{
}

/// A text that is one character which begins nothing scans to one `Error`
/// that carries the character.
pub proof fn lemma_stray_character_is_an_error(c: char)
    requires
        lead_of(c) == Lead::Stray,
    ensures
        scan(seq![c], 0) == (Scan {
            kind: TokenType::Error,
            value: ValueView::String(seq![c]),
            start: 0,
            end: 1,
        }),
{
    let text = seq![c];
    assert(text[0] == c);
    assert(text.subrange(0, 1) =~= text);
}

} // verus!
