//! The mathematical model of scanning: character classes, maximal runs, the
//! location of a position in a text, the token that starts at a position and
//! the sequence of tokens of a text.
//!
//! A text is a `Seq<char>` and a position in it is an index between zero and
//! its length; the position equal to the length is the end of the input.
//!
//! Every location is that of a character of the text, or of the end of the
//! input: line and column of the cursor just before that character is read.
//! A token carries the location of the first character of its lexeme.

use vstd::prelude::*;
use crate::lexing::literal::{
    lemma_scan_char_end, lemma_scan_string_end, scan_literal, spec_literal_mode, Mode,
};
use crate::lexing::token::{Delimiter, SourceLocation, TokenView};
use crate::lexing::{LexError, EOF_CHAR};

verus! {

/// Whitespace is a space, a tab, a carriage return or a line feed.
pub open spec fn spec_is_whitespace(ch: char) -> bool {
    ch == ' ' || ch == '\t' || ch == '\r' || ch == '\n'
}

/// A letter is an ASCII letter.
pub open spec fn spec_is_letter(ch: char) -> bool {
    'a' <= ch <= 'z' || 'A' <= ch <= 'Z'
}

/// The characters that continue an identifier: ASCII letters and the
/// underscore.
pub open spec fn spec_is_valid_identifier_char(ch: char) -> bool {
    spec_is_letter(ch) || ch == '_'
}

/// The characters that the recovery after a malformed character literal
/// passes over: all but the single quote and whitespace.
pub open spec fn spec_is_skipped_in_recovery(ch: char) -> bool {
    ch != '\'' && !spec_is_whitespace(ch)
}

/// The class of whitespace characters.
pub open spec fn whitespace() -> spec_fn(char) -> bool {
    |ch: char| spec_is_whitespace(ch)
}

/// The class of all characters but whitespace.
pub open spec fn non_whitespace() -> spec_fn(char) -> bool {
    |ch: char| !spec_is_whitespace(ch)
}

/// The class of identifier characters.
pub open spec fn identifier_chars() -> spec_fn(char) -> bool {
    |ch: char| spec_is_valid_identifier_char(ch)
}

/// The class of characters that recovery passes over.
pub open spec fn recovery_chars() -> spec_fn(char) -> bool {
    |ch: char| spec_is_skipped_in_recovery(ch)
}

/// The class that holds `>` alone.
pub open spec fn arrow_heads() -> spec_fn(char) -> bool {
    |ch: char| ch == '>'
}

/// The end of the maximal run of characters of `class` that starts at `from`:
/// the first position at or after `from` that is the end of the input or
/// holds a character outside `class`.
pub open spec fn run_end(s: Seq<char>, from: int, class: spec_fn(char) -> bool) -> int
    decreases s.len() - from,
{
    if 0 <= from < s.len() && class(s[from]) {
        run_end(s, from + 1, class)
    } else {
        from
    }
}

/// The number of line feeds before position `pos`.
pub open spec fn line_at(s: Seq<char>, pos: int) -> nat
    decreases pos,
{
    if pos <= 0 || pos > s.len() {
        0
    } else if s[pos - 1] == '\n' {
        line_at(s, pos - 1) + 1
    } else {
        line_at(s, pos - 1)
    }
}

/// The number of characters between the last line feed before position `pos`,
/// or the start of the text if there is none, and `pos`.
pub open spec fn col_at(s: Seq<char>, pos: int) -> nat
    decreases pos,
{
    if pos <= 0 || pos > s.len() {
        0
    } else if s[pos - 1] == '\n' {
        0
    } else {
        col_at(s, pos - 1) + 1
    }
}

/// The location of position `pos`: that of the character at `pos`, or of the
/// end of the input.
pub open spec fn location_at(s: Seq<char>, pos: int) -> SourceLocation {
    SourceLocation { line: line_at(s, pos) as usize, col: col_at(s, pos) as usize }
}

/// A run ends between its start and the end of the input, holds only
/// characters of the class, and is followed by none.
pub proof fn lemma_run_end(s: Seq<char>, from: int, class: spec_fn(char) -> bool)
    requires
        0 <= from <= s.len(),
    ensures
        from <= run_end(s, from, class) <= s.len(),
        forall|k: int| from <= k < run_end(s, from, class) ==> class(#[trigger] s[k]),
        run_end(s, from, class) < s.len() ==> !class(s[run_end(s, from, class)]),
    decreases s.len() - from,
{
    if from < s.len() && class(s[from]) {
        lemma_run_end(s, from + 1, class);
    }
}

/// The end of a run is the only position with the properties that
/// [`lemma_run_end`] states.
pub proof fn lemma_run_end_unique(s: Seq<char>, from: int, class: spec_fn(char) -> bool, end: int)
    requires
        0 <= from <= end <= s.len(),
        forall|k: int| from <= k < end ==> class(#[trigger] s[k]),
        end < s.len() ==> !class(s[end]),
    ensures
        run_end(s, from, class) == end,
    decreases end - from,
{
    if from < end {
        lemma_run_end_unique(s, from + 1, class, end);
    }
}

/// Line and column are both bounded by the position, and so is their sum.
pub proof fn lemma_location_bounded(s: Seq<char>, pos: int)
    requires
        0 <= pos <= s.len(),
    ensures
        line_at(s, pos) + col_at(s, pos) <= pos,
    decreases pos,
{
    if pos > 0 {
        lemma_location_bounded(s, pos - 1);
    }
}

/// The keyword that `word` spells, as a token at `loc`. The table is
/// case-sensitive and matches whole words only.
pub open spec fn keyword_token(word: Seq<char>, loc: SourceLocation) -> Option<TokenView> {
    if word == "if"@ {
        Some(TokenView::If(loc))
    } else if word == "else"@ {
        Some(TokenView::Else(loc))
    } else if word == "true"@ {
        Some(TokenView::True(loc))
    } else if word == "false"@ {
        Some(TokenView::False(loc))
    } else if word == "node"@ {
        Some(TokenView::Node(loc))
    } else if word == "and"@ {
        Some(TokenView::AndAlso(loc))
    } else if word == "or"@ {
        Some(TokenView::OrElse(loc))
    } else {
        None
    }
}

/// The token that the single character `ch` makes by itself, at `loc`.
pub open spec fn punctuation_token(ch: char, loc: SourceLocation) -> Option<TokenView> {
    if ch == '.' {
        Some(TokenView::Dot(loc))
    } else if ch == ',' {
        Some(TokenView::Comma(loc))
    } else if ch == '(' {
        Some(TokenView::OpenDelimiter(loc, Delimiter::Paren))
    } else if ch == ')' {
        Some(TokenView::CloseDelimiter(loc, Delimiter::Paren))
    } else if ch == '{' {
        Some(TokenView::OpenDelimiter(loc, Delimiter::Brace))
    } else if ch == '}' {
        Some(TokenView::CloseDelimiter(loc, Delimiter::Brace))
    } else if ch == '[' {
        Some(TokenView::OpenDelimiter(loc, Delimiter::Bracket))
    } else if ch == ']' {
        Some(TokenView::CloseDelimiter(loc, Delimiter::Bracket))
    } else if ch == '+' {
        Some(TokenView::Plus(loc))
    } else if ch == '-' {
        Some(TokenView::Dash(loc))
    } else if ch == '/' {
        Some(TokenView::Slash(loc))
    } else if ch == '*' {
        Some(TokenView::Asterisk(loc))
    } else if ch == '!' {
        Some(TokenView::Bang(loc))
    } else if ch == '>' {
        Some(TokenView::GreaterThan(loc))
    } else if ch == '<' {
        Some(TokenView::LessThan(loc))
    } else if ch == '|' {
        Some(TokenView::Pipe(loc))
    } else {
        None
    }
}

/// One step of scanning: the token or the error that it gave, and the
/// position at which it left the cursor.
pub struct Step {
    pub outcome: Result<TokenView, LexError>,
    pub end: int,
}

/// The step for an `=` at position `at`: the `=` and every `>` that follows
/// it directly are read. Alone the `=` is an assignment, with one `>` it is an
/// arrow, and with more it is malformed.
pub open spec fn operator_at(s: Seq<char>, at: int) -> Step {
    let loc = location_at(s, at);
    let end = run_end(s, at + 1, arrow_heads());
    let run = s.subrange(at, end);
    Step {
        outcome: if run.len() == 1 {
            Ok(TokenView::Assign(loc))
        } else if run == "=>"@ {
            Ok(TokenView::Arrow(loc))
        } else {
            Err(LexError::MalformedOperator(loc))
        },
        end,
    }
}

/// The step for a word at position `at`: the character at `at`, whatever it
/// is, and the maximal run of identifier characters behind it. The word is a
/// keyword if the table holds it, and an identifier otherwise.
pub open spec fn word_at(s: Seq<char>, at: int) -> Step {
    let loc = location_at(s, at);
    let end = run_end(s, at + 1, identifier_chars());
    let word = s.subrange(at, end);
    Step {
        outcome: Ok(
            match keyword_token(word, loc) {
                Some(keyword) => keyword,
                None => TokenView::Identifier(loc, word),
            },
        ),
        end,
    }
}

/// The step for a literal of mode `mode` whose opening quote is at position
/// `at`.
pub open spec fn literal_at(s: Seq<char>, at: int, mode: Mode) -> Step {
    let scan = scan_literal(s, at + 1, mode, location_at(s, at));
    Step {
        outcome: match scan.outcome {
            Ok(token) => Ok(token),
            Err(reason) => Err(LexError::Literal(reason)),
        },
        end: scan.end,
    }
}

/// The step that scanning takes from position `from`.
///
/// Whitespace is passed over. At the end of the input, and at a NUL
/// character, the step gives the end-of-input token. Otherwise the first
/// character decides: a punctuation character is a token by itself, `=`
/// starts an operator, a quote opens a literal, and anything else starts a
/// word.
pub open spec fn next_at(s: Seq<char>, from: int) -> Step {
    let at = run_end(s, from, whitespace());
    if !(0 <= at < s.len()) {
        Step { outcome: Ok(TokenView::EOF), end: at }
    } else if s[at] == EOF_CHAR {
        Step { outcome: Ok(TokenView::EOF), end: at + 1 }
    } else if s[at] == '=' {
        operator_at(s, at)
    } else if spec_literal_mode(s[at]) is Some {
        literal_at(s, at, spec_literal_mode(s[at])->0)
    } else {
        match punctuation_token(s[at], location_at(s, at)) {
            Some(token) => Step { outcome: Ok(token), end: at + 1 },
            None => word_at(s, at),
        }
    }
}

/// The tokens and errors that scanning gives from position `from` on, up to
/// the first end-of-input token, which is left out.
pub open spec fn tokens_from(s: Seq<char>, from: int) -> Seq<Result<TokenView, LexError>>
    decreases s.len() - from,
    when 0 <= from <= s.len()
    via tokens_from_decreases
{
    let step = next_at(s, from);
    if step.outcome == Ok::<TokenView, LexError>(TokenView::EOF) {
        Seq::empty()
    } else {
        seq![step.outcome] + tokens_from(s, step.end)
    }
}

#[via_fn]
proof fn tokens_from_decreases(s: Seq<char>, from: int) {
    lemma_next_at_advances(s, from);
}

/// A step ends between its start and the end of the input, and every step
/// but the one that gives the end-of-input token reads at least one
/// character.
pub proof fn lemma_next_at_advances(s: Seq<char>, from: int)
    requires
        0 <= from <= s.len(),
    ensures
        from <= next_at(s, from).end <= s.len(),
        next_at(s, from).outcome != Ok::<TokenView, LexError>(TokenView::EOF) ==> from < next_at(
            s,
            from,
        ).end,
{
    let at = run_end(s, from, whitespace());
    lemma_run_end(s, from, whitespace());
    if at < s.len() {
        lemma_run_end(s, at + 1, arrow_heads());
        lemma_run_end(s, at + 1, identifier_chars());
        lemma_scan_string_end(s, at + 1);
        lemma_scan_char_end(s, at + 1);
    }
}

} // verus!
