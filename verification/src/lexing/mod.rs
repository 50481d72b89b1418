//! Scanning source text into tokens.

use vstd::prelude::*;
use vstd::string::StringExecFns;
use crate::lexing::laws::lemma_tokens_bounded;
use crate::lexing::literal::{lex_literal, LiteralLexFailureReason, LiteralMode};
use crate::lexing::model::{
    arrow_heads, col_at, identifier_chars, keyword_token, lemma_location_bounded,
    lemma_next_at_advances, lemma_run_end, lemma_run_end_unique, line_at, location_at, next_at,
    non_whitespace, operator_at, punctuation_token, run_end, spec_is_letter,
    spec_is_valid_identifier_char, spec_is_whitespace, tokens_from, whitespace, word_at, Step,
};
use crate::lexing::text::string_from_chars;
use crate::lexing::token::{Delimiter, SourceLocation, Token, TokenView};

pub mod laws;
pub mod literal;
pub mod model;
pub mod text;
pub mod token;

verus! {

broadcast use vstd::string::group_string_axioms;

/// The character that stands for the end of the input.
pub const EOF_CHAR: char = '\0';

/// What scanning reports in place of a token.
#[derive(Debug, PartialEq, Eq, Clone, Copy, Structural)]
pub enum LexError {
    /// A literal could not be scanned.
    Literal(LiteralLexFailureReason),
    /// An `=` at the given location was followed by more than one `>`.
    MalformedOperator(SourceLocation),
}

/// Whether `ch` is a space, a tab, a carriage return or a line feed.
pub fn is_whitespace(ch: char) -> (b: bool)
    ensures
        b == spec_is_whitespace(ch),
{
    ch == ' ' || ch == '\t' || ch == '\r' || ch == '\n'
}

/// Whether `ch` is an ASCII letter.
pub fn is_letter(ch: char) -> (b: bool)
    ensures
        b == spec_is_letter(ch),
{
    'a' <= ch && ch <= 'z' || 'A' <= ch && ch <= 'Z'
}

/// Whether `ch` may continue an identifier: an ASCII letter or an underscore.
pub fn is_valid_identifier_char(ch: char) -> (b: bool)
    ensures
        b == spec_is_valid_identifier_char(ch),
{
    is_letter(ch) || ch == '_'
}

/// Whether `word` spells `text`.
fn spells(word: &Vec<char>, text: &str) -> (b: bool)
    ensures
        b == (word@ == text@),
{
    let mut i: usize = 0;
    for ch in it: text.chars()
        invariant
            it.seq() == text@,
            i == it.index(),
            i <= word.len(),
            word@.take(i as int) == text@.take(i as int),
    {
        if i >= word.len() || word[i] != ch {
            assert(word@ != text@);
            return false;
        }
        i += 1;
    }
    assert(text@.take(i as int) == text@);
    if i == word.len() {
        assert(word@.take(i as int) == word@);
        true
    } else {
        false
    }
}

/// Looks `identifier` up in the keyword table and gives the keyword's token
/// at `pos`. A word that the table does not hold gives the message
/// `Unknown keyword`.
pub fn match_keyword(identifier: &Vec<char>, pos: SourceLocation) -> (result: Result<
    Token,
    String,
>)
    ensures
        match result {
            Ok(token) => keyword_token(identifier@, pos) == Some(token@),
            Err(message) => keyword_token(identifier@, pos) is None && message@
                == "Unknown keyword"@,
        },
{
    if spells(identifier, "if") {
        Ok(Token::If(pos))
    } else if spells(identifier, "else") {
        Ok(Token::Else(pos))
    } else if spells(identifier, "true") {
        Ok(Token::True(pos))
    } else if spells(identifier, "false") {
        Ok(Token::False(pos))
    } else if spells(identifier, "node") {
        Ok(Token::Node(pos))
    } else if spells(identifier, "and") {
        Ok(Token::AndAlso(pos))
    } else if spells(identifier, "or") {
        Ok(Token::OrElse(pos))
    } else {
        Err(String::from_str("Unknown keyword"))
    }
}

/// The token that the single character `ch` makes by itself, at `loc`.
fn match_punctuation(ch: char, loc: SourceLocation) -> (token: Option<Token>)
    ensures
        match token {
            Some(token) => punctuation_token(ch, loc) == Some(token@),
            None => punctuation_token(ch, loc) is None,
        },
{
    match ch {
        '.' => Some(Token::Dot(loc)),
        ',' => Some(Token::Comma(loc)),
        '(' => Some(Token::OpenDelimiter(loc, Delimiter::Paren)),
        ')' => Some(Token::CloseDelimiter(loc, Delimiter::Paren)),
        '{' => Some(Token::OpenDelimiter(loc, Delimiter::Brace)),
        '}' => Some(Token::CloseDelimiter(loc, Delimiter::Brace)),
        '[' => Some(Token::OpenDelimiter(loc, Delimiter::Bracket)),
        ']' => Some(Token::CloseDelimiter(loc, Delimiter::Bracket)),
        '+' => Some(Token::Plus(loc)),
        '-' => Some(Token::Dash(loc)),
        '/' => Some(Token::Slash(loc)),
        '*' => Some(Token::Asterisk(loc)),
        '!' => Some(Token::Bang(loc)),
        '>' => Some(Token::GreaterThan(loc)),
        '<' => Some(Token::LessThan(loc)),
        '|' => Some(Token::Pipe(loc)),
        _ => None,
    }
}

/// What the result of a step is in specifications.
pub open spec fn outcome_view(result: Result<Token, LexError>) -> Result<TokenView, LexError> {
    match result {
        Ok(token) => Ok(token@),
        Err(error) => Err(error),
    }
}

/// What a sequence of results is in specifications.
pub open spec fn outcome_views(results: Seq<Result<Token, LexError>>) -> Seq<
    Result<TokenView, LexError>,
> {
    results.map_values(|result: Result<Token, LexError>| outcome_view(result))
}

/// One scanning session over one text.
///
/// The session owns the characters of the text and a cursor into them. It is
/// made once for a text, advanced by every token it gives, and at its end
/// once it has given the end-of-input token.
pub struct Lexer {
    input: Vec<char>,
    /// Index of the character read last, zero before any was read.
    pos: usize,
    /// Index of the character to read next.
    read_pos: usize,
    /// Column of the character to read next.
    line_pos: usize,
    /// Line of the character to read next.
    line: usize,
    /// The character read last, `EOF_CHAR` before any was read.
    ch: char,
    /// The token given last; `Illegal` after an error.
    prev_token: Option<Token>,
    /// Whether the end-of-input token has been given.
    done: bool,
}

/// What a [`Lexer`] is in specifications.
pub struct LexerView {
    /// The text that is scanned.
    pub input: Seq<char>,
    /// The position of the character to read next, from zero to the length
    /// of the text.
    pub pos: int,
    /// The token given last, `Illegal` after an error, `None` before the
    /// first.
    pub prev_token: Option<TokenView>,
    /// Whether the end-of-input token has been given.
    pub done: bool,
}

impl LexerView {
    /// The character read last: the one before `pos`, or `EOF_CHAR` at the
    /// start of the text.
    pub open spec fn current(self) -> char {
        if 0 < self.pos <= self.input.len() {
            self.input[self.pos - 1]
        } else {
            EOF_CHAR
        }
    }

    /// The location of the character to read next.
    pub open spec fn location(self) -> SourceLocation {
        location_at(self.input, self.pos)
    }

    /// This state with the cursor moved to `pos`.
    pub open spec fn at(self, pos: int) -> LexerView {
        LexerView { pos, ..self }
    }

    /// The state after the session has taken `step`: the cursor is where the
    /// step ended, the step's token is kept as the token given last, an
    /// error as `Illegal`, and the session is at its end if the step gave the
    /// end-of-input token.
    pub open spec fn after(self, step: Step) -> LexerView {
        LexerView {
            input: self.input,
            pos: step.end,
            prev_token: Some(
                match step.outcome {
                    Ok(token) => token,
                    Err(_) => TokenView::Illegal,
                },
            ),
            done: step.outcome == Ok::<TokenView, LexError>(TokenView::EOF),
        }
    }
}

impl View for Lexer {
    type V = LexerView;

    closed spec fn view(&self) -> LexerView {
        LexerView {
            input: self.input@,
            pos: self.read_pos as int,
            prev_token: match self.prev_token {
                Some(token) => Some(token@),
                None => None,
            },
            done: self.done,
        }
    }
}

impl Lexer {
    /// The invariant of a session: the cursor lies within the text, and the
    /// counters and the current character agree with its position.
    pub closed spec fn wf(&self) -> bool {
        &&& self.read_pos <= self.input.len()
        &&& self.pos == if self.read_pos == 0 { 0 } else { self.read_pos - 1 }
        &&& self.line == line_at(self.input@, self.read_pos as int)
        &&& self.line_pos == col_at(self.input@, self.read_pos as int)
        &&& self.ch == self@.current()
    }

    /// In a well-formed session the cursor lies within the text.
    pub proof fn lemma_pos_in_bounds(&self)
        requires
            self.wf(),
        ensures
            0 <= self@.pos <= self@.input.len(),
    {
    }

    /// A session at the start of `input`.
    pub fn new(input: &str) -> (lexer: Self)
        ensures
            lexer.wf(),
            lexer@ == (LexerView { input: input@, pos: 0, prev_token: None, done: false }),
    {
        let mut chars: Vec<char> = Vec::new();
        for ch in it: input.chars()
            invariant
                it.seq() == input@,
                chars@ == it.seq().take(it.index()),
        {
            chars.push(ch);
        }
        assert(chars@ == input@);
        Self {
            input: chars,
            pos: 0,
            read_pos: 0,
            line_pos: 0,
            line: 0,
            ch: EOF_CHAR,
            prev_token: None,
            done: false,
        }
    }

    /// The index of the character read last, zero before any was read.
    pub fn pos(&self) -> (pos: usize)
        requires
            self.wf(),
        ensures
            pos == if self@.pos == 0 {
                0
            } else {
                self@.pos - 1
            },
    {
        self.pos
    }

    /// The index of the character to read next.
    pub fn read_pos(&self) -> (pos: usize)
        ensures
            pos == self@.pos,
    {
        self.read_pos
    }

    /// The token given last, `Illegal` after an error, `None` before the
    /// first.
    pub fn prev_token(&self) -> (token: Option<&Token>)
        ensures
            match token {
                Some(token) => self@.prev_token == Some(token@),
                None => self@.prev_token is None,
            },
    {
        self.prev_token.as_ref()
    }

    /// Whether the end-of-input token has been given.
    pub fn is_done(&self) -> (done: bool)
        ensures
            done == self@.done,
    {
        self.done
    }

    /// The character read last, or `EOF_CHAR` if none was read yet.
    pub fn current_char(&self) -> (ch: char)
        requires
            self.wf(),
        ensures
            ch == self@.current(),
    {
        self.ch
    }

    /// The location of the character to read next.
    pub fn location(&self) -> (loc: SourceLocation)
        requires
            self.wf(),
        ensures
            loc == self@.location(),
    {
        SourceLocation::new(self.line, self.line_pos)
    }

    /// The character to read next, or `None` at the end of the input.
    pub fn peek_next(&self) -> (next: Option<char>)
        requires
            self.wf(),
        ensures
            next == if self@.pos < self@.input.len() {
                Some(self@.input[self@.pos])
            } else {
                None
            },
    {
        if self.read_pos < self.input.len() {
            Some(self.input[self.read_pos])
        } else {
            None
        }
    }

    /// The character after the one to read next, or `None` if the input ends
    /// before it.
    pub fn peek_next_next(&self) -> (next: Option<char>)
        requires
            self.wf(),
        ensures
            next == if self@.pos + 1 < self@.input.len() {
                Some(self@.input[self@.pos + 1])
            } else {
                None
            },
    {
        if self.read_pos < self.input.len() && self.read_pos + 1 < self.input.len() {
            Some(self.input[self.read_pos + 1])
        } else {
            None
        }
    }

    /// Reads one character: the cursor moves past it, to the start of the
    /// next line if it is a line feed. At the end of the input nothing
    /// changes.
    pub fn advance_pos(&mut self)
        requires
            old(self).wf(),
        ensures
            final(self).wf(),
            final(self)@ == if old(self)@.pos < old(self)@.input.len() {
                old(self)@.at(old(self)@.pos + 1)
            } else {
                old(self)@
            },
    {
        if self.read_pos < self.input.len() {
            let ch = self.input[self.read_pos];
            proof {
                lemma_location_bounded(self.input@, self.read_pos as int);
            }
            self.pos = self.read_pos;
            self.read_pos = self.read_pos + 1;
            if ch == '\n' {
                self.line = self.line + 1;
                self.line_pos = 0;
            } else {
                self.line_pos = self.line_pos + 1;
            }
            self.ch = ch;
        }
    }

    /// Reads whitespace up to the next character that is none, or to the end
    /// of the input.
    pub fn skip_whitespace(&mut self)
        requires
            old(self).wf(),
        ensures
            final(self).wf(),
            final(self)@ == old(self)@.at(run_end(old(self)@.input, old(self)@.pos, whitespace())),
    {
        let ghost start = self@;
        loop
            invariant
                self.wf(),
                self@ == start.at(self@.pos),
                0 <= start.pos <= self@.pos <= start.input.len(),
                forall|k: int| start.pos <= k < self@.pos ==> spec_is_whitespace(start.input[k]),
            ensures
                self@.pos < start.input.len() ==> !spec_is_whitespace(start.input[self@.pos]),
            decreases self@.input.len() - self@.pos,
        {
            match self.peek_next() {
                Some(ch) => {
                    if !is_whitespace(ch) {
                        break ;
                    }
                    self.advance_pos();
                },
                None => {
                    break ;
                },
            }
        }
        proof {
            lemma_run_end_unique(start.input, start.pos, whitespace(), self@.pos);
        }
    }

    /// Reads the next significant character: skips whitespace, then reads
    /// one character and returns it. Returns `None` if only whitespace is
    /// left; the cursor is then at the end of the input.
    pub fn read_char(&mut self) -> (next: Option<char>)
        requires
            old(self).wf(),
        ensures
            final(self).wf(),
            ({
                let at = run_end(old(self)@.input, old(self)@.pos, whitespace());
                if at < old(self)@.input.len() {
                    &&& next == Some(old(self)@.input[at])
                    &&& final(self)@ == old(self)@.at(at + 1)
                } else {
                    &&& next == None::<char>
                    &&& final(self)@ == old(self)@.at(at)
                }
            }),
    {
        proof {
            lemma_run_end(self@.input, self@.pos, whitespace());
        }
        self.skip_whitespace();
        let next = self.peek_next();
        self.advance_pos();
        next
    }

    /// Reads the rest of a word whose first character has just been read:
    /// returns that character followed by the maximal run of identifier
    /// characters after it, and leaves the cursor behind the run.
    pub fn read_identifier(&mut self) -> (word: Vec<char>)
        requires
            old(self).wf(),
        ensures
            final(self).wf(),
            final(self)@ == old(self)@.at(
                run_end(old(self)@.input, old(self)@.pos, identifier_chars()),
            ),
            word@ == seq![old(self)@.current()] + old(self)@.input.subrange(
                old(self)@.pos,
                final(self)@.pos,
            ),
    {
        let ghost start = self@;
        let mut word: Vec<char> = Vec::new();
        word.push(self.ch);
        loop
            invariant
                self.wf(),
                self@ == start.at(self@.pos),
                0 <= start.pos <= self@.pos <= start.input.len(),
                forall|k: int|
                    start.pos <= k < self@.pos ==> spec_is_valid_identifier_char(start.input[k]),
                word@ == seq![start.current()] + start.input.subrange(start.pos, self@.pos),
            ensures
                self@.pos < start.input.len() ==> !spec_is_valid_identifier_char(
                    start.input[self@.pos],
                ),
            decreases self@.input.len() - self@.pos,
        {
            match self.peek_next() {
                Some(ch) => {
                    if !is_valid_identifier_char(ch) {
                        break ;
                    }
                    self.advance_pos();
                    word.push(ch);
                },
                None => {
                    break ;
                },
            }
        }
        proof {
            lemma_run_end_unique(start.input, start.pos, identifier_chars(), self@.pos);
        }
        word
    }

    /// Reads characters for as long as `pred` returns `true` for the next
    /// one: the cursor stops at the first character for which `pred` returns
    /// `false`, or at the end of the input.
    pub fn skip_while<F: Fn(char) -> bool>(&mut self, pred: F)
        requires
            old(self).wf(),
            forall|ch: char| call_requires(pred, (ch,)),
        ensures
            final(self).wf(),
            final(self)@ == old(self)@.at(final(self)@.pos),
            old(self)@.pos <= final(self)@.pos <= old(self)@.input.len(),
            forall|k: int|
                old(self)@.pos <= k < final(self)@.pos ==> call_ensures(
                    pred,
                    (#[trigger] old(self)@.input[k],),
                    true,
                ),
            final(self)@.pos < old(self)@.input.len() ==> call_ensures(
                pred,
                (old(self)@.input[final(self)@.pos],),
                false,
            ),
    {
        let ghost start = self@;
        loop
            invariant
                self.wf(),
                forall|ch: char| call_requires(pred, (ch,)),
                self@ == start.at(self@.pos),
                0 <= start.pos <= self@.pos <= start.input.len(),
                forall|k: int|
                    start.pos <= k < self@.pos ==> call_ensures(
                        pred,
                        (#[trigger] start.input[k],),
                        true,
                    ),
            ensures
                self@.pos < start.input.len() ==> call_ensures(
                    pred,
                    (start.input[self@.pos],),
                    false,
                ),
            decreases self@.input.len() - self@.pos,
        {
            match self.peek_next() {
                Some(ch) => {
                    if !pred(ch) {
                        break ;
                    }
                    self.advance_pos();
                },
                None => {
                    break ;
                },
            }
        }
    }

    /// Reads up to the next whitespace character, or to the end of the input.
    pub fn skip_to_next_whitespace(&mut self)
        requires
            old(self).wf(),
        ensures
            final(self).wf(),
            final(self)@ == old(self)@.at(
                run_end(old(self)@.input, old(self)@.pos, non_whitespace()),
            ),
    {
        let ghost start = self@;
        let not_whitespace = |ch: char| -> (b: bool)
            ensures
                b == !spec_is_whitespace(ch),
            { !is_whitespace(ch) };
        self.skip_while(not_whitespace);
        proof {
            lemma_run_end_unique(start.input, start.pos, non_whitespace(), self@.pos);
        }
    }

    /// Collects a run of characters that starts with the character read
    /// last, and reads what it collects.
    ///
    /// The run is extended by the next character for as long as that
    /// character is no whitespace and `stop_pred`, given that character and
    /// the one collected before it, returns `false`. The result is the run if
    /// it was extended at all, and `None` if it was not.
    pub fn lookahead_collect<F: Fn(char, char) -> bool>(&mut self, stop_pred: F) -> (collected:
        Option<String>)
        requires
            old(self).wf(),
            forall|ch: char, last: char| call_requires(stop_pred, (ch, last)),
        ensures
            final(self).wf(),
            final(self)@ == old(self)@.at(final(self)@.pos),
            old(self)@.pos <= final(self)@.pos <= old(self)@.input.len(),
            forall|k: int|
                old(self)@.pos <= k < final(self)@.pos ==> {
                    &&& !spec_is_whitespace(#[trigger] old(self)@.input[k])
                    &&& call_ensures(
                        stop_pred,
                        (old(self)@.input[k], old(self)@.at(k).current()),
                        false,
                    )
                },
            final(self)@.pos < old(self)@.input.len() ==> {
                ||| spec_is_whitespace(old(self)@.input[final(self)@.pos])
                ||| call_ensures(
                    stop_pred,
                    (old(self)@.input[final(self)@.pos], final(self)@.current()),
                    true,
                )
            },
            match collected {
                Some(run) => {
                    &&& old(self)@.pos < final(self)@.pos
                    &&& run@ == seq![old(self)@.current()] + old(self)@.input.subrange(
                        old(self)@.pos,
                        final(self)@.pos,
                    )
                },
                None => final(self)@.pos == old(self)@.pos,
            },
    {
        let ghost start = self@;
        let mut run: Vec<char> = Vec::new();
        run.push(self.ch);
        loop
            invariant
                self.wf(),
                forall|ch: char, last: char| call_requires(stop_pred, (ch, last)),
                self@ == start.at(self@.pos),
                0 <= start.pos <= self@.pos <= start.input.len(),
                forall|k: int|
                    start.pos <= k < self@.pos ==> {
                        &&& !spec_is_whitespace(#[trigger] start.input[k])
                        &&& call_ensures(stop_pred, (start.input[k], start.at(k).current()), false)
                    },
                run@ == seq![start.current()] + start.input.subrange(start.pos, self@.pos),
            ensures
                self@.pos < start.input.len() ==> {
                    ||| spec_is_whitespace(start.input[self@.pos])
                    ||| call_ensures(stop_pred, (start.input[self@.pos], self@.current()), true)
                },
            decreases self@.input.len() - self@.pos,
        {
            match self.peek_next() {
                Some(ch) => {
                    if is_whitespace(ch) || stop_pred(ch, self.ch) {
                        break ;
                    }
                    self.advance_pos();
                    run.push(ch);
                },
                None => {
                    break ;
                },
            }
        }
        if run.len() > 1 {
            Some(string_from_chars(&run))
        } else {
            None
        }
    }

    /// Reads the `=` operator whose first character has just been read, and
    /// gives its token for the location `loc` of that character.
    fn read_operator(&mut self, loc: SourceLocation) -> (result: Result<Token, LexError>)
        requires
            old(self).wf(),
            0 < old(self)@.pos,
            old(self)@.current() == '=',
            loc == location_at(old(self)@.input, old(self)@.pos - 1),
        ensures
            final(self).wf(),
            final(self)@ == old(self)@.at(operator_at(old(self)@.input, old(self)@.pos - 1).end),
            outcome_view(result) == operator_at(old(self)@.input, old(self)@.pos - 1).outcome,
    {
        let ghost start = self@;
        let collect_arrow = |ch: char, last: char| -> (stop: bool)
            ensures
                stop == (ch != '>'),
            { ch != '>' };
        let collected = self.lookahead_collect(collect_arrow);
        proof {
            lemma_run_end_unique(start.input, start.pos, arrow_heads(), self@.pos);
            reveal_strlit("=>");
            assert(seq![start.current()] + start.input.subrange(start.pos, self@.pos)
                == start.input.subrange(start.pos - 1, self@.pos));
        }
        match collected {
            Some(run) => {
                if spells_arrow(&run) {
                    Ok(Token::Arrow(loc))
                } else {
                    Err(LexError::MalformedOperator(loc))
                }
            },
            None => Ok(Token::Assign(loc)),
        }
    }

    /// Reads the word whose first character has just been read, and gives
    /// its token for the location `loc` of that character.
    fn read_word(&mut self, loc: SourceLocation) -> (token: Token)
        requires
            old(self).wf(),
            0 < old(self)@.pos,
            loc == location_at(old(self)@.input, old(self)@.pos - 1),
        ensures
            final(self).wf(),
            final(self)@ == old(self)@.at(word_at(old(self)@.input, old(self)@.pos - 1).end),
            Ok::<TokenView, LexError>(token@) == word_at(
                old(self)@.input,
                old(self)@.pos - 1,
            ).outcome,
    {
        let ghost start = self@;
        let ident = self.read_identifier();
        proof {
            lemma_run_end(start.input, start.pos, identifier_chars());
            assert(ident@ == start.input.subrange(start.pos - 1, self@.pos));
        }
        match match_keyword(&ident, loc) {
            Ok(token) => token,
            Err(_) => Token::Identifier(loc, string_from_chars(&ident)),
        }
    }

    /// Gives the next token of the text, or the error that stands in its
    /// place, and moves the cursor behind what was read.
    ///
    /// The outcome and the new position are those of [`next_at`]. Once the
    /// end-of-input token has been given, the session is at its end: it
    /// gives that token again and changes no more.
    pub fn next_token(&mut self) -> (result: Result<Token, LexError>)
        requires
            old(self).wf(),
        ensures
            final(self).wf(),
            old(self)@.done ==> {
                &&& outcome_view(result) == Ok::<TokenView, LexError>(TokenView::EOF)
                &&& final(self)@ == old(self)@
            },
            !old(self)@.done ==> {
                &&& outcome_view(result) == next_at(old(self)@.input, old(self)@.pos).outcome
                &&& final(self)@ == old(self)@.after(next_at(old(self)@.input, old(self)@.pos))
            },
    {
        if self.done {
            return Ok(Token::EOF);
        }
        let ghost start = self@;
        proof {
            lemma_run_end(start.input, start.pos, whitespace());
        }
        self.skip_whitespace();
        let loc = self.location();
        let result = match self.read_char() {
            None => Ok(Token::EOF),
            Some(ch) => {
                if ch == EOF_CHAR {
                    Ok(Token::EOF)
                } else if ch == '=' {
                    self.read_operator(loc)
                } else if ch.is_literal_mode() {
                    match lex_literal(self, loc) {
                        Ok(token) => Ok(token),
                        Err(reason) => Err(LexError::Literal(reason)),
                    }
                } else {
                    match match_punctuation(ch, loc) {
                        Some(token) => Ok(token),
                        None => Ok(self.read_word(loc)),
                    }
                }
            },
        };
        let prev = match &result {
            Ok(token) => token.clone(),
            Err(_) => Token::Illegal,
        };
        self.done = matches!(prev, Token::EOF);
        self.prev_token = Some(prev);
        result
    }
}

/// Whether `run` is the text `=>`.
fn spells_arrow(run: &String) -> (b: bool)
    ensures
        b == (run@ == "=>"@),
{
    let arrow = String::from_str("=>");
    *run == arrow
}

/// The tokens of one text, given one at a time.
///
/// The stream scans each token or error when it is asked for it, and keeps
/// none: its cursor lies behind the item that it gave last. It ends before
/// the end-of-input token, and once it has ended it gives nothing more.
pub struct TokenStream {
    lexer: Lexer,
}

impl TokenStream {
    /// The invariant of a stream: its session is well-formed.
    pub closed spec fn wf(&self) -> bool {
        self.lexer.wf()
    }

    /// The text that is scanned.
    pub closed spec fn input(&self) -> Seq<char> {
        self.lexer@.input
    }

    /// The position up to which the text has been scanned.
    pub closed spec fn position(&self) -> int {
        self.lexer@.pos
    }

    /// Whether the stream has come to the end of the input.
    pub closed spec fn ended(&self) -> bool {
        self.lexer@.done
    }

    /// What the stream has yet to give.
    pub open spec fn remaining(&self) -> Seq<Result<TokenView, LexError>> {
        if self.ended() {
            Seq::empty()
        } else {
            tokens_from(self.input(), self.position())
        }
    }

    /// In a well-formed stream the cursor lies within the text.
    pub proof fn lemma_position_in_bounds(&self)
        requires
            self.wf(),
        ensures
            0 <= self.position() <= self.input().len(),
    {
        self.lexer.lemma_pos_in_bounds();
    }

    /// Gives the next token or error of the text, or `None` once the end of
    /// the input is reached.
    ///
    /// One step is scanned, and no more: the cursor is left where
    /// [`next_at`] ends. A stream that has ended does not change.
    pub fn next(&mut self) -> (item: Option<Result<Token, LexError>>)
        requires
            old(self).wf(),
        ensures
            final(self).wf(),
            final(self).input() == old(self).input(),
            match item {
                Some(result) => {
                    &&& old(self).remaining().len() > 0
                    &&& outcome_view(result) == old(self).remaining()[0]
                    &&& final(self).remaining() == old(self).remaining().drop_first()
                },
                None => {
                    &&& old(self).remaining().len() == 0
                    &&& final(self).remaining().len() == 0
                },
            },
            old(self).ended() ==> final(self).ended() && final(self).position() == old(
                self,
            ).position(),
            !old(self).ended() ==> {
                let step = next_at(old(self).input(), old(self).position());
                &&& final(self).position() == step.end
                &&& final(self).ended() == (step.outcome == Ok::<TokenView, LexError>(
                    TokenView::EOF,
                ))
            },
    {
        proof {
            self.lexer.lemma_pos_in_bounds();
            lemma_next_at_advances(self.lexer@.input, self.lexer@.pos);
        }
        let result = self.lexer.next_token();
        match result {
            Ok(Token::EOF) => None,
            _ => {
                Some(result)
            },
        }
    }

    /// Gives all that the stream has yet to give, in order.
    pub fn collect(self) -> (items: Vec<Result<Token, LexError>>)
        requires
            self.wf(),
        ensures
            outcome_views(items@) == self.remaining(),
    {
        let ghost all = self.remaining();
        let mut stream = self;
        let mut items: Vec<Result<Token, LexError>> = Vec::new();
        loop
            invariant
                stream.wf(),
                all == outcome_views(items@) + stream.remaining(),
            ensures
                all == outcome_views(items@),
            decreases stream.remaining().len(),
        {
            match stream.next() {
                Some(result) => {
                    items.push(result);
                    assert(outcome_views(items@) + stream.remaining() == all);
                },
                None => {
                    break ;
                },
            }
        }
        items
    }
}

/// Starts scanning `input`: the stream will give the tokens and errors of
/// the whole text, in the order of the text, and has scanned none of it yet.
/// There are no more of them than the text has characters.
pub fn tokenize(input: &str) -> (tokens: TokenStream)
    ensures
        tokens.wf(),
        tokens.input() == input@,
        tokens.position() == 0,
        !tokens.ended(),
        tokens.remaining() == tokens_from(input@, 0),
        tokens.remaining().len() <= input@.len(),
{
    proof {
        lemma_tokens_bounded(input@, 0);
    }
    TokenStream { lexer: Lexer::new(input) }
}

} // verus!
