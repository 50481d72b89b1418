//! Tokens and source locations.

use vstd::prelude::*;
use vstd::string::*;
use crate::lexing::text::string_from_char;

verus! {

/// A position in the source text: a line and a column, both counted from zero
/// in characters. The column starts over after every line feed.
#[derive(Debug, PartialEq, Eq, Clone, Copy, Structural)]
pub struct SourceLocation {
    pub line: usize,
    pub col: usize,
}

impl SourceLocation {
    pub fn new(line: usize, col: usize) -> (loc: Self)
        ensures
            loc == (SourceLocation { line, col }),
    {
        Self { line, col }
    }
}

/// The three kinds of bracket.
#[derive(Debug, PartialEq, Eq, Clone, Copy, Structural)]
pub enum Delimiter {
    Brace,
    Paren,
    Bracket,
}

/// A lexical unit of the language.
///
/// Every variant but `EOF` and `Illegal` carries the location of the first
/// character of its lexeme.
#[derive(Debug, PartialEq)]
pub enum Token {
    /// The end of the input.
    EOF,
    /// The marker that stands for input which gave no token.
    Illegal,
    Identifier(SourceLocation, String),
    /// A string literal, with its decoded text.
    StringLiteral(SourceLocation, String),
    /// A character literal, with its decoded character.
    CharLiteral(SourceLocation, char),
    OpenDelimiter(SourceLocation, Delimiter),
    CloseDelimiter(SourceLocation, Delimiter),
    /// `node`
    Node(SourceLocation),
    /// `if`
    If(SourceLocation),
    /// `else`
    Else(SourceLocation),
    /// `true`
    True(SourceLocation),
    /// `false`
    False(SourceLocation),
    /// `and`
    AndAlso(SourceLocation),
    /// `or`
    OrElse(SourceLocation),
    /// `=`
    Assign(SourceLocation),
    /// `.`
    Dot(SourceLocation),
    /// `,`
    Comma(SourceLocation),
    /// `/`
    Slash(SourceLocation),
    /// `+`
    Plus(SourceLocation),
    /// `-`
    Dash(SourceLocation),
    /// `*`
    Asterisk(SourceLocation),
    /// `!`
    Bang(SourceLocation),
    /// `|`
    Pipe(SourceLocation),
    /// `<`
    LessThan(SourceLocation),
    /// `>`
    GreaterThan(SourceLocation),
    /// `=>`
    Arrow(SourceLocation),
}

/// What a [`Token`] is in specifications: the same variants, with the text of
/// an identifier or a string literal as a sequence of characters.
pub enum TokenView {
    EOF,
    Illegal,
    Identifier(SourceLocation, Seq<char>),
    StringLiteral(SourceLocation, Seq<char>),
    CharLiteral(SourceLocation, char),
    OpenDelimiter(SourceLocation, Delimiter),
    CloseDelimiter(SourceLocation, Delimiter),
    Node(SourceLocation),
    If(SourceLocation),
    Else(SourceLocation),
    True(SourceLocation),
    False(SourceLocation),
    AndAlso(SourceLocation),
    OrElse(SourceLocation),
    Assign(SourceLocation),
    Dot(SourceLocation),
    Comma(SourceLocation),
    Slash(SourceLocation),
    Plus(SourceLocation),
    Dash(SourceLocation),
    Asterisk(SourceLocation),
    Bang(SourceLocation),
    Pipe(SourceLocation),
    LessThan(SourceLocation),
    GreaterThan(SourceLocation),
    Arrow(SourceLocation),
}

impl View for Token {
    type V = TokenView;

    open spec fn view(&self) -> TokenView {
        match *self {
            Token::EOF => TokenView::EOF,
            Token::Illegal => TokenView::Illegal,
            Token::Identifier(loc, text) => TokenView::Identifier(loc, text@),
            Token::StringLiteral(loc, text) => TokenView::StringLiteral(loc, text@),
            Token::CharLiteral(loc, ch) => TokenView::CharLiteral(loc, ch),
            Token::OpenDelimiter(loc, d) => TokenView::OpenDelimiter(loc, d),
            Token::CloseDelimiter(loc, d) => TokenView::CloseDelimiter(loc, d),
            Token::Node(loc) => TokenView::Node(loc),
            Token::If(loc) => TokenView::If(loc),
            Token::Else(loc) => TokenView::Else(loc),
            Token::True(loc) => TokenView::True(loc),
            Token::False(loc) => TokenView::False(loc),
            Token::AndAlso(loc) => TokenView::AndAlso(loc),
            Token::OrElse(loc) => TokenView::OrElse(loc),
            Token::Assign(loc) => TokenView::Assign(loc),
            Token::Dot(loc) => TokenView::Dot(loc),
            Token::Comma(loc) => TokenView::Comma(loc),
            Token::Slash(loc) => TokenView::Slash(loc),
            Token::Plus(loc) => TokenView::Plus(loc),
            Token::Dash(loc) => TokenView::Dash(loc),
            Token::Asterisk(loc) => TokenView::Asterisk(loc),
            Token::Bang(loc) => TokenView::Bang(loc),
            Token::Pipe(loc) => TokenView::Pipe(loc),
            Token::LessThan(loc) => TokenView::LessThan(loc),
            Token::GreaterThan(loc) => TokenView::GreaterThan(loc),
            Token::Arrow(loc) => TokenView::Arrow(loc),
        }
    }
}

impl TokenView {
    /// The location that the token carries; the two markers carry none.
    pub open spec fn location(self) -> Option<SourceLocation> {
        match self {
            TokenView::EOF => None,
            TokenView::Illegal => None,
            TokenView::Identifier(loc, _) => Some(loc),
            TokenView::StringLiteral(loc, _) => Some(loc),
            TokenView::CharLiteral(loc, _) => Some(loc),
            TokenView::OpenDelimiter(loc, _) => Some(loc),
            TokenView::CloseDelimiter(loc, _) => Some(loc),
            TokenView::Node(loc) => Some(loc),
            TokenView::If(loc) => Some(loc),
            TokenView::Else(loc) => Some(loc),
            TokenView::True(loc) => Some(loc),
            TokenView::False(loc) => Some(loc),
            TokenView::AndAlso(loc) => Some(loc),
            TokenView::OrElse(loc) => Some(loc),
            TokenView::Assign(loc) => Some(loc),
            TokenView::Dot(loc) => Some(loc),
            TokenView::Comma(loc) => Some(loc),
            TokenView::Slash(loc) => Some(loc),
            TokenView::Plus(loc) => Some(loc),
            TokenView::Dash(loc) => Some(loc),
            TokenView::Asterisk(loc) => Some(loc),
            TokenView::Bang(loc) => Some(loc),
            TokenView::Pipe(loc) => Some(loc),
            TokenView::LessThan(loc) => Some(loc),
            TokenView::GreaterThan(loc) => Some(loc),
            TokenView::Arrow(loc) => Some(loc),
        }
    }

    /// The text that [`Token::to_string`] gives for a token.
    ///
    /// An identifier or a string literal gives its text and a character
    /// literal its character. A delimiter, opening or closing, gives the
    /// opening character of its kind. A comma gives `),`, every other keyword
    /// or operator its spelling, and the two markers give a NUL character.
    pub open spec fn text(self) -> Seq<char> {
        match self {
            TokenView::EOF => "\0"@,
            TokenView::Illegal => "\0"@,
            TokenView::Identifier(_, text) => text,
            TokenView::StringLiteral(_, text) => text,
            TokenView::CharLiteral(_, ch) => seq![ch],
            TokenView::OpenDelimiter(_, Delimiter::Brace) => "{"@,
            TokenView::OpenDelimiter(_, Delimiter::Paren) => "("@,
            TokenView::OpenDelimiter(_, Delimiter::Bracket) => "["@,
            TokenView::CloseDelimiter(_, Delimiter::Brace) => "{"@,
            TokenView::CloseDelimiter(_, Delimiter::Paren) => "("@,
            TokenView::CloseDelimiter(_, Delimiter::Bracket) => "["@,
            TokenView::Node(_) => "node"@,
            TokenView::If(_) => "if"@,
            TokenView::Else(_) => "else"@,
            TokenView::True(_) => "true"@,
            TokenView::False(_) => "false"@,
            TokenView::AndAlso(_) => "and"@,
            TokenView::OrElse(_) => "or"@,
            TokenView::Assign(_) => "="@,
            TokenView::Arrow(_) => "=>"@,
            TokenView::Dot(_) => "."@,
            TokenView::Comma(_) => "),"@,
            TokenView::Slash(_) => "/"@,
            TokenView::Plus(_) => "+"@,
            TokenView::Dash(_) => "-"@,
            TokenView::Asterisk(_) => "*"@,
            TokenView::LessThan(_) => "<"@,
            TokenView::GreaterThan(_) => ">"@,
            TokenView::Bang(_) => "!"@,
            TokenView::Pipe(_) => "|"@,
        }
    }
}

impl Clone for Token {
    fn clone(&self) -> (copy: Self)
        ensures
            copy == *self,
    {
        match self {
            Token::EOF => Token::EOF,
            Token::Illegal => Token::Illegal,
            Token::Identifier(loc, text) => Token::Identifier(*loc, text.clone()),
            Token::StringLiteral(loc, text) => Token::StringLiteral(*loc, text.clone()),
            Token::CharLiteral(loc, ch) => Token::CharLiteral(*loc, *ch),
            Token::OpenDelimiter(loc, d) => Token::OpenDelimiter(*loc, *d),
            Token::CloseDelimiter(loc, d) => Token::CloseDelimiter(*loc, *d),
            Token::Node(loc) => Token::Node(*loc),
            Token::If(loc) => Token::If(*loc),
            Token::Else(loc) => Token::Else(*loc),
            Token::True(loc) => Token::True(*loc),
            Token::False(loc) => Token::False(*loc),
            Token::AndAlso(loc) => Token::AndAlso(*loc),
            Token::OrElse(loc) => Token::OrElse(*loc),
            Token::Assign(loc) => Token::Assign(*loc),
            Token::Dot(loc) => Token::Dot(*loc),
            Token::Comma(loc) => Token::Comma(*loc),
            Token::Slash(loc) => Token::Slash(*loc),
            Token::Plus(loc) => Token::Plus(*loc),
            Token::Dash(loc) => Token::Dash(*loc),
            Token::Asterisk(loc) => Token::Asterisk(*loc),
            Token::Bang(loc) => Token::Bang(*loc),
            Token::Pipe(loc) => Token::Pipe(*loc),
            Token::LessThan(loc) => Token::LessThan(*loc),
            Token::GreaterThan(loc) => Token::GreaterThan(*loc),
            Token::Arrow(loc) => Token::Arrow(*loc),
        }
    }
}

impl Token {
    /// The location that this token carries; the two markers carry none.
    pub fn location(&self) -> (loc: Option<SourceLocation>)
        ensures
            loc == self@.location(),
    {
        match self {
            Token::EOF => None,
            Token::Illegal => None,
            Token::Identifier(loc, _) => Some(*loc),
            Token::StringLiteral(loc, _) => Some(*loc),
            Token::CharLiteral(loc, _) => Some(*loc),
            Token::OpenDelimiter(loc, _) => Some(*loc),
            Token::CloseDelimiter(loc, _) => Some(*loc),
            Token::Node(loc) => Some(*loc),
            Token::If(loc) => Some(*loc),
            Token::Else(loc) => Some(*loc),
            Token::True(loc) => Some(*loc),
            Token::False(loc) => Some(*loc),
            Token::AndAlso(loc) => Some(*loc),
            Token::OrElse(loc) => Some(*loc),
            Token::Assign(loc) => Some(*loc),
            Token::Dot(loc) => Some(*loc),
            Token::Comma(loc) => Some(*loc),
            Token::Slash(loc) => Some(*loc),
            Token::Plus(loc) => Some(*loc),
            Token::Dash(loc) => Some(*loc),
            Token::Asterisk(loc) => Some(*loc),
            Token::Bang(loc) => Some(*loc),
            Token::Pipe(loc) => Some(*loc),
            Token::LessThan(loc) => Some(*loc),
            Token::GreaterThan(loc) => Some(*loc),
            Token::Arrow(loc) => Some(*loc),
        }
    }

    /// The text of this token, as [`TokenView::text`] defines it.
    pub fn to_string(&self) -> (text: String)
        ensures
            text@ == self@.text(),
    {
        match self {
            Token::EOF => String::from_str("\0"),
            Token::Illegal => String::from_str("\0"),
            Token::Identifier(_, txt) => txt.clone(),
            Token::StringLiteral(_, txt) => txt.clone(),
            Token::CharLiteral(_, ch) => string_from_char(*ch),
            Token::OpenDelimiter(_, Delimiter::Brace) => String::from_str("{"),
            Token::OpenDelimiter(_, Delimiter::Paren) => String::from_str("("),
            Token::OpenDelimiter(_, Delimiter::Bracket) => String::from_str("["),
            Token::CloseDelimiter(_, Delimiter::Brace) => String::from_str("{"),
            Token::CloseDelimiter(_, Delimiter::Paren) => String::from_str("("),
            Token::CloseDelimiter(_, Delimiter::Bracket) => String::from_str("["),
            Token::Node(_) => String::from_str("node"),
            Token::If(_) => String::from_str("if"),
            Token::Else(_) => String::from_str("else"),
            Token::True(_) => String::from_str("true"),
            Token::False(_) => String::from_str("false"),
            Token::AndAlso(_) => String::from_str("and"),
            Token::OrElse(_) => String::from_str("or"),
            Token::Assign(_) => String::from_str("="),
            Token::Arrow(_) => String::from_str("=>"),
            Token::Dot(_) => String::from_str("."),
            Token::Comma(_) => String::from_str("),"),
            Token::Slash(_) => String::from_str("/"),
            Token::Plus(_) => String::from_str("+"),
            Token::Dash(_) => String::from_str("-"),
            Token::Asterisk(_) => String::from_str("*"),
            Token::LessThan(_) => String::from_str("<"),
            Token::GreaterThan(_) => String::from_str(">"),
            Token::Bang(_) => String::from_str("!"),
            Token::Pipe(_) => String::from_str("|"),
        }
    }
}

} // verus!
