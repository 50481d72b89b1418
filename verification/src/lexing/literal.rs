//! String and character literals: the escape table, the model of a literal's
//! body and the functions that scan one.
//!
//! A literal is scanned from the position after its opening quote. A token
//! carries the location of the opening quote. A failure carries the location
//! of the character at which the scan failed: the character that follows the
//! backslash of an unknown escape, the character found where the closing
//! quote of a character literal should be, or the end of the input where the
//! input ended inside the literal.

use vstd::prelude::*;
use crate::lexing::model::{
    lemma_run_end, lemma_run_end_unique, location_at, recovery_chars, run_end,
    spec_is_skipped_in_recovery,
};
use crate::lexing::text::string_from_chars;
use crate::lexing::token::{SourceLocation, Token, TokenView};
use crate::lexing::{is_whitespace, Lexer};

verus! {

pub const SINGLE_QUOTE_CHAR: char = '\'';

pub const DOUBLE_QUOTE_CHAR: char = '"';

pub const SLASH_CHAR: char = '\\';

/// The character that introduces an escape sequence.
pub const ESCAPE_CHAR: char = SLASH_CHAR;

/// Why a literal could not be scanned, and where.
#[derive(Debug, PartialEq, Eq, Clone, Copy, Structural)]
pub enum LiteralLexFailureReason {
    /// The input ended before the closing quote.
    UnclosedLiteral(SourceLocation),
    /// A backslash was followed by the given character, which the mode's
    /// escape table does not hold.
    UnknownEscapeCharacter(SourceLocation, char),
    /// A character literal was not closed right after its one character.
    InvalidCharLiteral(SourceLocation),
}

/// The two kinds of literal.
#[derive(Debug, PartialEq, Eq, Clone, Copy, Structural)]
pub enum Mode {
    /// A character literal, between single quotes.
    Char,
    /// A string literal, between double quotes.
    Str,
}

impl Mode {
    /// The quote that opens and closes a literal of this mode.
    pub open spec fn spec_open_close_char(self) -> char {
        match self {
            Mode::Char => SINGLE_QUOTE_CHAR,
            Mode::Str => DOUBLE_QUOTE_CHAR,
        }
    }

    /// The quote that opens and closes a literal of this mode.
    pub fn open_close_char(self) -> (quote: char)
        ensures
            quote == self.spec_open_close_char(),
    {
        match self {
            Mode::Char => SINGLE_QUOTE_CHAR,
            Mode::Str => DOUBLE_QUOTE_CHAR,
        }
    }
}

/// The mode of the literal that `ch` opens, if it opens one.
pub open spec fn spec_literal_mode(ch: char) -> Option<Mode> {
    if ch == SINGLE_QUOTE_CHAR {
        Some(Mode::Char)
    } else if ch == DOUBLE_QUOTE_CHAR {
        Some(Mode::Str)
    } else {
        None
    }
}

/// Characters as openers of literals.
pub trait LiteralMode {
    /// Whether this character opens a literal.
    fn is_literal_mode(self) -> bool;

    /// The mode of the literal that this character opens.
    fn literal_mode(self) -> Option<Mode>;
}

impl LiteralMode for char {
    fn is_literal_mode(self) -> (b: bool)
        ensures
            b == spec_literal_mode(self) is Some,
    {
        self.literal_mode().is_some()
    }

    fn literal_mode(self) -> (mode: Option<Mode>)
        ensures
            mode == spec_literal_mode(self),
    {
        if self == SINGLE_QUOTE_CHAR {
            Some(Mode::Char)
        } else if self == DOUBLE_QUOTE_CHAR {
            Some(Mode::Str)
        } else {
            None
        }
    }
}

/// The escape table: the character that a backslash followed by `ch` stands
/// for in a literal of mode `mode`, if any.
///
/// `r` gives a carriage return, `n` a line feed, a backslash itself, and the
/// quote of the mode itself.
pub open spec fn escape_of(ch: char, mode: Mode) -> Option<char> {
    if ch == 'r' {
        Some('\r')
    } else if ch == 'n' {
        Some('\n')
    } else if ch == SLASH_CHAR {
        Some(SLASH_CHAR)
    } else if ch == mode.spec_open_close_char() {
        Some(ch)
    } else {
        None
    }
}

/// Looks `ch` up in the escape table of `mode`.
pub fn escaped_character(ch: char, mode: Mode) -> (decoded: Option<char>)
    ensures
        decoded == escape_of(ch, mode),
{
    if ch == 'r' {
        Some('\r')
    } else if ch == 'n' {
        Some('\n')
    } else if ch == SLASH_CHAR {
        Some(SLASH_CHAR)
    } else if ch == mode.open_close_char() {
        Some(ch)
    } else {
        None
    }
}

/// The result of scanning a literal from some position: what was decoded, or
/// why nothing was, and the position at which the scan left the cursor.
pub struct LiteralScan<T> {
    pub outcome: Result<T, LiteralLexFailureReason>,
    pub end: int,
}

impl<T> LiteralScan<T> {
    /// The scan that ran into the end of the text `s`.
    pub open spec fn unclosed(s: Seq<char>) -> Self {
        LiteralScan {
            outcome: Err(LiteralLexFailureReason::UnclosedLiteral(location_at(s, s.len() as int))),
            end: s.len() as int,
        }
    }
}

impl LiteralScan<Seq<char>> {
    /// This scan of the rest of a string, with `prefix` decoded before it.
    pub open spec fn after(self, prefix: Seq<char>) -> Self {
        LiteralScan {
            outcome: match self.outcome {
                Ok(text) => Ok(prefix + text),
                Err(reason) => Err(reason),
            },
            end: self.end,
        }
    }

    /// The string literal token that this scan gives for a literal opened at
    /// `loc`.
    pub open spec fn token(self, loc: SourceLocation) -> LiteralScan<TokenView> {
        LiteralScan {
            outcome: match self.outcome {
                Ok(text) => Ok(TokenView::StringLiteral(loc, text)),
                Err(reason) => Err(reason),
            },
            end: self.end,
        }
    }
}

impl LiteralScan<char> {
    /// The character literal token that this scan gives for a literal opened
    /// at `loc`.
    pub open spec fn token(self, loc: SourceLocation) -> LiteralScan<TokenView> {
        LiteralScan {
            outcome: match self.outcome {
                Ok(ch) => Ok(TokenView::CharLiteral(loc, ch)),
                Err(reason) => Err(reason),
            },
            end: self.end,
        }
    }
}

impl LiteralScan<TokenView> {
    /// Whether `result` is the outcome of this scan.
    pub open spec fn yields(self, result: Result<Token, LiteralLexFailureReason>) -> bool {
        match result {
            Ok(token) => self.outcome == Ok::<TokenView, LiteralLexFailureReason>(token@),
            Err(reason) => self.outcome == Err::<TokenView, LiteralLexFailureReason>(reason),
        }
    }
}

/// The body of a string literal, scanned from position `from`, which follows
/// the opening quote.
///
/// The body runs up to the first double quote that no backslash precedes.
/// A backslash and the character after it stand for the character that the
/// escape table gives; every other character stands for itself. The scan
/// ends behind the closing quote, behind the character of an unknown escape,
/// or at the end of the input.
pub open spec fn scan_string(s: Seq<char>, from: int) -> LiteralScan<Seq<char>>
    decreases s.len() - from,
{
    if from < 0 || from >= s.len() {
        LiteralScan::unclosed(s)
    } else if s[from] == DOUBLE_QUOTE_CHAR {
        LiteralScan { outcome: Ok(Seq::empty()), end: from + 1 }
    } else if s[from] == ESCAPE_CHAR {
        if from + 1 >= s.len() {
            LiteralScan::unclosed(s)
        } else {
            match escape_of(s[from + 1], Mode::Str) {
                Some(decoded) => scan_string(s, from + 2).after(seq![decoded]),
                None => LiteralScan {
                    outcome: Err(
                        LiteralLexFailureReason::UnknownEscapeCharacter(
                            location_at(s, from + 1),
                            s[from + 1],
                        ),
                    ),
                    end: from + 2,
                },
            }
        }
    } else {
        scan_string(s, from + 1).after(seq![s[from]])
    }
}

/// The one character of a character literal, scanned from position `from`,
/// which follows the opening quote: a backslash and the character after it
/// stand for what the escape table gives, any other character for itself.
pub open spec fn scan_char_value(s: Seq<char>, from: int) -> LiteralScan<char> {
    if from < 0 || from >= s.len() {
        LiteralScan::unclosed(s)
    } else if s[from] != ESCAPE_CHAR {
        LiteralScan { outcome: Ok(s[from]), end: from + 1 }
    } else if from + 1 >= s.len() {
        LiteralScan::unclosed(s)
    } else {
        match escape_of(s[from + 1], Mode::Char) {
            Some(decoded) => LiteralScan { outcome: Ok(decoded), end: from + 2 },
            None => LiteralScan {
                outcome: Err(
                    LiteralLexFailureReason::UnknownEscapeCharacter(
                        location_at(s, from + 1),
                        s[from + 1],
                    ),
                ),
                end: from + 2,
            },
        }
    }
}

/// The body of a character literal, scanned from position `from`, which
/// follows the opening quote.
///
/// After the one character the closing quote must follow at once. Where
/// another character follows, or the escape is unknown, the scan fails and
/// passes over the characters up to the next single quote or whitespace.
pub open spec fn scan_char(s: Seq<char>, from: int) -> LiteralScan<char> {
    let value = scan_char_value(s, from);
    match value.outcome {
        Ok(ch) => {
            if value.end >= s.len() {
                LiteralScan::unclosed(s)
            } else if s[value.end] == SINGLE_QUOTE_CHAR {
                LiteralScan { outcome: Ok(ch), end: value.end + 1 }
            } else {
                LiteralScan {
                    outcome: Err(
                        LiteralLexFailureReason::InvalidCharLiteral(location_at(s, value.end)),
                    ),
                    end: run_end(s, value.end, recovery_chars()),
                }
            }
        },
        Err(reason) => LiteralScan {
            outcome: Err(reason),
            end: run_end(s, value.end, recovery_chars()),
        },
    }
}

/// The literal of mode `mode` that was opened at `loc`, scanned from
/// position `from`, which follows the opening quote.
pub open spec fn scan_literal(s: Seq<char>, from: int, mode: Mode, loc: SourceLocation)
    -> LiteralScan<TokenView> {
    match mode {
        Mode::Char => scan_char(s, from).token(loc),
        Mode::Str => scan_string(s, from).token(loc),
    }
}

/// A scan ends between its start and the end of the input, and a literal
/// that was closed ends behind at least its closing quote.
pub proof fn lemma_scan_string_end(s: Seq<char>, from: int)
    requires
        0 <= from <= s.len(),
    ensures
        from <= scan_string(s, from).end <= s.len(),
        scan_string(s, from).outcome is Ok ==> from < scan_string(s, from).end,
    decreases s.len() - from,
{
    if from < s.len() && s[from] != DOUBLE_QUOTE_CHAR {
        if s[from] == ESCAPE_CHAR {
            if from + 1 < s.len() && escape_of(s[from + 1], Mode::Str) is Some {
                lemma_scan_string_end(s, from + 2);
            }
        } else {
            lemma_scan_string_end(s, from + 1);
        }
    }
}

/// A scan ends between its start and the end of the input, and a literal
/// that was closed ends behind its character and its closing quote.
pub proof fn lemma_scan_char_end(s: Seq<char>, from: int)
    requires
        0 <= from <= s.len(),
    ensures
        from <= scan_char(s, from).end <= s.len(),
        scan_char(s, from).outcome is Ok ==> from + 2 <= scan_char(s, from).end,
{
    let value = scan_char_value(s, from);
    lemma_run_end(s, value.end, recovery_chars());
}

/// Scans the literal that the character read last has opened.
pub fn lex_literal(l: &mut Lexer, loc: SourceLocation) -> (result: Result<
    Token,
    LiteralLexFailureReason,
>)
    requires
        old(l).wf(),
        spec_literal_mode(old(l)@.current()) is Some,
    ensures
        final(l).wf(),
        ({
            let scan = scan_literal(
                old(l)@.input,
                old(l)@.pos,
                spec_literal_mode(old(l)@.current())->0,
                loc,
            );
            &&& scan.yields(result)
            &&& final(l)@ == old(l)@.at(scan.end)
        }),
{
    let mode = l.current_char().literal_mode().unwrap();
    match mode {
        Mode::Char => lex_character_literal(l, loc),
        Mode::Str => lex_string_literal(l, loc),
    }
}

/// Scans the body of a string literal that was opened at `loc`.
pub fn lex_string_literal(l: &mut Lexer, loc: SourceLocation) -> (result: Result<
    Token,
    LiteralLexFailureReason,
>)
    requires
        old(l).wf(),
    ensures
        final(l).wf(),
        ({
            let scan = scan_string(old(l)@.input, old(l)@.pos).token(loc);
            &&& scan.yields(result)
            &&& final(l)@ == old(l)@.at(scan.end)
        }),
{
    let ghost start = l@;
    let ghost s = l@.input;
    let mut literal: Vec<char> = Vec::new();
    let mut escape = false;
    proof {
        l.lemma_pos_in_bounds();
    }
    loop
        invariant
            l.wf(),
            start == old(l)@,
            l@ == start.at(l@.pos),
            s == start.input,
            0 <= start.pos <= l@.pos <= s.len(),
            escape ==> start.pos < l@.pos && s[l@.pos - 1] == ESCAPE_CHAR,
            scan_string(s, start.pos) == scan_string(
                s,
                if escape {
                    l@.pos - 1
                } else {
                    l@.pos
                },
            ).after(literal@),
        decreases s.len() - l@.pos,
    {
        let at = l.location();
        match l.peek_next() {
            None => {
                return Err(LiteralLexFailureReason::UnclosedLiteral(at));
            },
            Some(ch) => {
                l.advance_pos();
                if ch == DOUBLE_QUOTE_CHAR && !escape {
                    return Ok(Token::StringLiteral(loc, string_from_chars(&literal)));
                } else if ch == ESCAPE_CHAR && !escape {
                    escape = true;
                } else {
                    let decoded = if escape {
                        match escaped_character(ch, Mode::Str) {
                            Some(decoded) => decoded,
                            None => {
                                return Err(
                                    LiteralLexFailureReason::UnknownEscapeCharacter(at, ch),
                                );
                            },
                        }
                    } else {
                        ch
                    };
                    escape = false;
                    proof {
                        let next = scan_string(s, l@.pos);
                        assert(next.after(seq![decoded]).after(literal@) == next.after(
                            literal@.push(decoded),
                        )) by {
                            if next.outcome is Ok {
                                let text = next.outcome->Ok_0;
                                assert(literal@ + (seq![decoded] + text) == literal@.push(decoded)
                                    + text);
                            }
                        }
                    }
                    literal.push(decoded);
                }
            },
        }
    }
}

/// Scans the body of a character literal that was opened at `loc`: its one
/// character, then the closing quote. On a failure other than the end of the
/// input, reads on to the next single quote or whitespace.
pub fn lex_character_literal(l: &mut Lexer, loc: SourceLocation) -> (result: Result<
    Token,
    LiteralLexFailureReason,
>)
    requires
        old(l).wf(),
    ensures
        final(l).wf(),
        ({
            let scan = scan_char(old(l)@.input, old(l)@.pos).token(loc);
            &&& scan.yields(result)
            &&& final(l)@ == old(l)@.at(scan.end)
        }),
{
    let ghost start = l@;
    let skip_bad_char = |ch: char| -> (b: bool)
        ensures
            b == spec_is_skipped_in_recovery(ch),
        { ch != SINGLE_QUOTE_CHAR && !is_whitespace(ch) };
    proof {
        l.lemma_pos_in_bounds();
    }
    match lex_character_literal_core(l, loc) {
        Ok(token) => {
            let at = l.location();
            let ghost value_end = l@.pos;
            match l.peek_next() {
                Some(ch) => {
                    if ch == SINGLE_QUOTE_CHAR {
                        l.advance_pos();
                        Ok(token)
                    } else {
                        l.skip_while(skip_bad_char);
                        proof {
                            lemma_run_end_unique(start.input, value_end, recovery_chars(), l@.pos);
                        }
                        Err(LiteralLexFailureReason::InvalidCharLiteral(at))
                    }
                },
                None => Err(LiteralLexFailureReason::UnclosedLiteral(at)),
            }
        },
        Err(reason) => {
            let ghost value_end = l@.pos;
            l.skip_while(skip_bad_char);
            proof {
                lemma_run_end_unique(start.input, value_end, recovery_chars(), l@.pos);
            }
            Err(reason)
        },
    }
}

/// Scans the one character of a character literal that was opened at `loc`,
/// and gives the token that the literal makes if it is closed behind it.
pub fn lex_character_literal_core(l: &mut Lexer, loc: SourceLocation) -> (result: Result<
    Token,
    LiteralLexFailureReason,
>)
    requires
        old(l).wf(),
    ensures
        final(l).wf(),
        ({
            let scan = scan_char_value(old(l)@.input, old(l)@.pos).token(loc);
            &&& scan.yields(result)
            &&& final(l)@ == old(l)@.at(scan.end)
        }),
{
    proof {
        l.lemma_pos_in_bounds();
    }
    let at = l.location();
    match l.peek_next() {
        None => Err(LiteralLexFailureReason::UnclosedLiteral(at)),
        Some(ch) => {
            l.advance_pos();
            if ch == ESCAPE_CHAR {
                let at = l.location();
                match l.peek_next() {
                    Some(escape) => {
                        l.advance_pos();
                        match escaped_character(escape, Mode::Char) {
                            Some(decoded) => Ok(Token::CharLiteral(loc, decoded)),
                            None => Err(
                                LiteralLexFailureReason::UnknownEscapeCharacter(at, escape),
                            ),
                        }
                    },
                    None => Err(LiteralLexFailureReason::UnclosedLiteral(at)),
                }
            } else {
                Ok(Token::CharLiteral(loc, ch))
            }
        },
    }
}

} // verus!
