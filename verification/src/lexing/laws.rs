//! What holds of every text: laws of the model, proved.

use vstd::prelude::*;
use crate::lexing::literal::{
    escape_of, scan_char, scan_char_value, scan_string, LiteralLexFailureReason, LiteralScan,
    Mode, DOUBLE_QUOTE_CHAR, ESCAPE_CHAR, SINGLE_QUOTE_CHAR,
};
use crate::lexing::model::{
    arrow_heads, col_at, identifier_chars, lemma_location_bounded, lemma_next_at_advances,
    lemma_run_end, line_at, location_at, next_at, operator_at, recovery_chars, run_end, spec_is_skipped_in_recovery,
    spec_is_valid_identifier_char, spec_is_whitespace, tokens_from, whitespace, word_at,
};
use crate::lexing::token::TokenView;
use crate::lexing::LexError;

verus! {

/// In a text that fits in memory a location holds line and column as they
/// are, with nothing cut off.
pub proof fn lemma_location_exact(s: Seq<char>, pos: int)
    requires
        0 <= pos <= s.len() <= usize::MAX,
    ensures
        location_at(s, pos).line == line_at(s, pos),
        location_at(s, pos).col == col_at(s, pos),
{
    lemma_location_bounded(s, pos);
}

/// Passing a line feed starts a new line: the line grows by one and the
/// column is zero. Passing any other character keeps the line and moves the
/// column by one.
pub proof fn lemma_location_step(s: Seq<char>, pos: int)
    requires
        0 <= pos < s.len(),
    ensures
        s[pos] == '\n' ==> line_at(s, pos + 1) == line_at(s, pos) + 1 && col_at(s, pos + 1) == 0,
        s[pos] != '\n' ==> line_at(s, pos + 1) == line_at(s, pos) && col_at(s, pos + 1) == col_at(
            s,
            pos,
        ) + 1,
{
}

/// Within one line the column is the distance from the start of the line:
/// if `start` is the start of the text or follows a line feed, and no line
/// feed lies between `start` and `pos`, then `pos` is on the line of `start`
/// at column `pos - start`.
pub proof fn lemma_location_within_line(s: Seq<char>, start: int, pos: int)
    requires
        0 <= start <= pos <= s.len(),
        start == 0 || s[start - 1] == '\n',
        forall|k: int| start <= k < pos ==> #[trigger] s[k] != '\n',
    ensures
        line_at(s, pos) == line_at(s, start),
        col_at(s, pos) == pos - start,
    decreases pos - start,
{
    if start < pos {
        lemma_location_within_line(s, start, pos - 1);
    }
}

/// The line never decreases along the text.
pub proof fn lemma_line_monotonic(s: Seq<char>, from: int, to: int)
    requires
        0 <= from <= to <= s.len(),
    ensures
        line_at(s, from) <= line_at(s, to),
    decreases to - from,
{
    if from < to {
        lemma_line_monotonic(s, from, to - 1);
    }
}

/// A position behind a line feed is on a later line than a position at or
/// before it.
pub proof fn lemma_line_grows_past_newline(s: Seq<char>, from: int, newline: int, to: int)
    requires
        0 <= from <= newline < to <= s.len(),
        s[newline] == '\n',
    ensures
        line_at(s, from) < line_at(s, to),
{
    lemma_line_monotonic(s, from, newline);
    lemma_location_step(s, newline);
    lemma_line_monotonic(s, newline + 1, to);
}

/// Scanning terminates: a text gives no more tokens and errors than it has
/// characters.
pub proof fn lemma_tokens_bounded(s: Seq<char>, from: int)
    requires
        0 <= from <= s.len(),
    ensures
        tokens_from(s, from).len() <= s.len() - from,
    decreases s.len() - from,
{
    let step = next_at(s, from);
    lemma_next_at_advances(s, from);
    if step.outcome != Ok::<TokenView, LexError>(TokenView::EOF) {
        lemma_tokens_bounded(s, step.end);
    }
}

/// The sequence of a text never holds the end-of-input token.
pub proof fn lemma_tokens_hold_no_eof(s: Seq<char>, from: int, i: int)
    requires
        0 <= from <= s.len(),
        0 <= i < tokens_from(s, from).len(),
    ensures
        tokens_from(s, from)[i] != Ok::<TokenView, LexError>(TokenView::EOF),
    decreases s.len() - from,
{
    let step = next_at(s, from);
    lemma_next_at_advances(s, from);
    if i > 0 {
        lemma_tokens_hold_no_eof(s, step.end, i - 1);
    }
}

/// Every token but the end-of-input token carries the location of the first
/// character of its lexeme: the first character at or after the start of the
/// step that is no whitespace.
pub proof fn lemma_token_location(s: Seq<char>, from: int)
    requires
        0 <= from <= s.len(),
    ensures
        next_at(s, from).outcome matches Ok(token) ==> token == TokenView::EOF || token.location()
            == Some(location_at(s, run_end(s, from, whitespace()))),
{
    lemma_run_end(s, from, whitespace());
}

/// Words are maximal: the word at position `at` holds identifier characters
/// behind its first character, and no identifier character follows it.
pub proof fn lemma_word_is_maximal(s: Seq<char>, at: int)
    requires
        0 <= at < s.len(),
    ensures
        at < word_at(s, at).end <= s.len(),
        forall|k: int|
            at < k < word_at(s, at).end ==> spec_is_valid_identifier_char(#[trigger] s[k]),
        word_at(s, at).end < s.len() ==> !spec_is_valid_identifier_char(s[word_at(s, at).end]),
{
    lemma_run_end(s, at + 1, identifier_chars());
}

/// Scanning never gives the `Illegal` marker: what is no token is reported
/// as an error.
pub proof fn lemma_step_is_never_illegal(s: Seq<char>, from: int)
    requires
        0 <= from <= s.len(),
    ensures
        next_at(s, from).outcome != Ok::<TokenView, LexError>(TokenView::Illegal),
{
}

/// An `=` is read together with every `>` that follows it directly. With
/// none it is an assignment, with exactly one an arrow, and with more the
/// operator is malformed.
pub proof fn lemma_operator_by_arrow_heads(s: Seq<char>, at: int)
    requires
        0 <= at < s.len(),
        s[at] == '=',
    ensures
        ({
            let step = operator_at(s, at);
            let loc = location_at(s, at);
            &&& at < step.end <= s.len()
            &&& forall|k: int| at < k < step.end ==> #[trigger] s[k] == '>'
            &&& step.end < s.len() ==> s[step.end] != '>'
            &&& step.end == at + 1 ==> step.outcome == Ok::<TokenView, LexError>(
                TokenView::Assign(loc),
            )
            &&& step.end == at + 2 ==> step.outcome == Ok::<TokenView, LexError>(
                TokenView::Arrow(loc),
            )
            &&& step.end > at + 2 ==> step.outcome == Err::<TokenView, LexError>(
                LexError::MalformedOperator(loc),
            )
        }),
{
    let end = run_end(s, at + 1, arrow_heads());
    lemma_run_end(s, at + 1, arrow_heads());
    reveal_strlit("=>");
    if end == at + 2 {
        assert(s.subrange(at, end) == "=>"@);
    }
}

/// A character literal that fails leaves the cursor at the end of the word
/// in which it failed: what was passed over after the failure holds neither
/// a single quote nor whitespace, and the scan ends at a single quote, at
/// whitespace or at the end of the input.
pub proof fn lemma_recovery_ends_the_word(s: Seq<char>, from: int)
    requires
        0 <= from <= s.len(),
        scan_char(s, from).outcome is Err,
    ensures
        ({
            let resumed = scan_char_value(s, from).end;
            let end = scan_char(s, from).end;
            &&& from <= resumed <= end <= s.len()
            &&& forall|k: int| resumed <= k < end ==> spec_is_skipped_in_recovery(#[trigger] s[k])
            &&& end < s.len() ==> s[end] == SINGLE_QUOTE_CHAR || spec_is_whitespace(s[end])
        }),
{
    lemma_run_end(s, scan_char_value(s, from).end, recovery_chars());
}

/// A string without escapes is its own text: if the body from `from` holds no
/// backslash before its first double quote, at `close`, the literal is
/// closed there and its text is what stands between.
pub proof fn lemma_plain_string(s: Seq<char>, from: int, close: int)
    requires
        0 <= from <= close < s.len(),
        s[close] == DOUBLE_QUOTE_CHAR,
        forall|k: int|
            from <= k < close ==> #[trigger] s[k] != DOUBLE_QUOTE_CHAR && s[k] != ESCAPE_CHAR,
    ensures
        scan_string(s, from) == (LiteralScan::<Seq<char>> {
            outcome: Ok(s.subrange(from, close)),
            end: close + 1,
        }),
    decreases close - from,
{
    if from < close {
        lemma_plain_string(s, from + 1, close);
        assert(seq![s[from]] + s.subrange(from + 1, close) == s.subrange(from, close));
    } else {
        assert(s.subrange(from, close) == Seq::<char>::empty());
    }
}

/// A string literal fails in two ways only. The input ends inside it, and
/// the failure is located at the end of the input. Or a backslash is followed
/// by a character that the escape table of strings does not hold: the scan
/// ends behind that character, and the failure names it and is located at it.
pub proof fn lemma_string_failure(s: Seq<char>, from: int)
    requires
        0 <= from <= s.len(),
        scan_string(s, from).outcome is Err,
    ensures
        ({
            let end = scan_string(s, from).end;
            match scan_string(s, from).outcome->Err_0 {
                LiteralLexFailureReason::UnclosedLiteral(loc) => {
                    &&& end == s.len()
                    &&& loc == location_at(s, end)
                },
                LiteralLexFailureReason::UnknownEscapeCharacter(loc, ch) => {
                    &&& from + 2 <= end <= s.len()
                    &&& s[end - 2] == ESCAPE_CHAR
                    &&& s[end - 1] == ch
                    &&& escape_of(ch, Mode::Str) is None
                    &&& loc == location_at(s, end - 1)
                },
                LiteralLexFailureReason::InvalidCharLiteral(_) => false,
            }
        }),
    decreases s.len() - from,
{
    if from < s.len() && s[from] != DOUBLE_QUOTE_CHAR {
        if s[from] == ESCAPE_CHAR {
            if from + 1 < s.len() && escape_of(s[from + 1], Mode::Str) is Some {
                lemma_string_failure(s, from + 2);
            }
        } else {
            lemma_string_failure(s, from + 1);
        }
    }
}

} // verus!
