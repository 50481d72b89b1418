use blinglang::lexing::literal::{
    escaped_character, lex_character_literal, lex_character_literal_core, lex_literal,
    lex_string_literal, LiteralLexFailureReason, LiteralMode, Mode, DOUBLE_QUOTE_CHAR,
    ESCAPE_CHAR, SINGLE_QUOTE_CHAR, SLASH_CHAR,
};
use blinglang::lexing::text::{string_from_char, string_from_chars};
use blinglang::lexing::token::{SourceLocation, Token};
use blinglang::lexing::{
    is_letter, is_valid_identifier_char, is_whitespace, match_keyword, Lexer, EOF_CHAR,
};

fn loc(line: usize, col: usize) -> SourceLocation {
    SourceLocation::new(line, col)
}

#[test]
fn source_location_new_keeps_its_arguments() {
    let l = SourceLocation::new(3, 7);
    assert_eq!(l.line, 3);
    assert_eq!(l.col, 7);
    assert_ne!(SourceLocation::new(3, 7), SourceLocation::new(7, 3));
}

#[test]
fn character_classes() {
    for ch in [' ', '\t', '\r', '\n'] {
        assert!(is_whitespace(ch));
    }
    for ch in ['a', '_', '\0', '\u{a0}', '\u{b}', '\u{c}'] {
        assert!(!is_whitespace(ch));
    }
    for ch in ['a', 'z', 'A', 'Z', 'm'] {
        assert!(is_letter(ch));
        assert!(is_valid_identifier_char(ch));
    }
    for ch in ['`', '{', '@', '[', '0', '9', 'é', '_', ' '] {
        assert!(!is_letter(ch));
    }
    assert!(is_valid_identifier_char('_'));
    for ch in ['0', '-', 'é', ' ', '\''] {
        assert!(!is_valid_identifier_char(ch));
    }
}

#[test]
fn new_session_is_at_the_start() {
    let lexer = Lexer::new("ab");
    assert_eq!(lexer.pos(), 0);
    assert_eq!(lexer.read_pos(), 0);
    assert_eq!(lexer.location(), loc(0, 0));
    assert_eq!(lexer.current_char(), EOF_CHAR);
    assert_eq!(lexer.prev_token(), None);
    assert!(!lexer.is_done());
    assert_eq!(lexer.peek_next(), Some('a'));
    assert_eq!(lexer.peek_next_next(), Some('b'));
}

#[test]
fn peek_does_not_read() {
    let lexer = Lexer::new("x");
    assert_eq!(lexer.peek_next(), Some('x'));
    assert_eq!(lexer.peek_next(), Some('x'));
    assert_eq!(lexer.peek_next_next(), None);
    assert_eq!(lexer.read_pos(), 0);
    let empty = Lexer::new("");
    assert_eq!(empty.peek_next(), None);
    assert_eq!(empty.peek_next_next(), None);
}

#[test]
fn advance_tracks_line_and_column() {
    let mut lexer = Lexer::new("a\nbc");
    lexer.advance_pos();
    assert_eq!(lexer.current_char(), 'a');
    assert_eq!((lexer.pos(), lexer.read_pos()), (0, 1));
    assert_eq!(lexer.location(), loc(0, 1));
    lexer.advance_pos();
    assert_eq!(lexer.current_char(), '\n');
    assert_eq!((lexer.pos(), lexer.read_pos()), (1, 2));
    assert_eq!(lexer.location(), loc(1, 0));
    lexer.advance_pos();
    lexer.advance_pos();
    assert_eq!(lexer.location(), loc(1, 2));
    assert_eq!((lexer.pos(), lexer.read_pos()), (3, 4));
    // At the end of the input nothing changes.
    lexer.advance_pos();
    assert_eq!(lexer.location(), loc(1, 2));
    assert_eq!((lexer.pos(), lexer.read_pos()), (3, 4));
    assert_eq!(lexer.current_char(), 'c');
    assert_eq!(lexer.peek_next(), None);
}

#[test]
fn read_char_skips_whitespace() {
    let mut lexer = Lexer::new(" \t\r\n  x y");
    assert_eq!(lexer.read_char(), Some('x'));
    assert_eq!(lexer.location(), loc(1, 3));
    assert_eq!(lexer.read_char(), Some('y'));
    assert_eq!(lexer.read_char(), None);
    assert_eq!(lexer.read_pos(), 9);

    let mut blank = Lexer::new("  \n ");
    assert_eq!(blank.read_char(), None);
    assert_eq!(blank.read_pos(), 4);
    assert_eq!(blank.location(), loc(1, 1));
}

#[test]
fn skip_whitespace_stops_before_the_next_character() {
    let mut lexer = Lexer::new("  \n x");
    lexer.skip_whitespace();
    assert_eq!(lexer.read_pos(), 4);
    assert_eq!(lexer.peek_next(), Some('x'));
    assert_eq!(lexer.location(), loc(1, 1));
    lexer.skip_whitespace();
    assert_eq!(lexer.read_pos(), 4);
}

#[test]
fn read_identifier_takes_the_longest_run() {
    let mut lexer = Lexer::new("ab_C1 d");
    assert_eq!(lexer.read_char(), Some('a'));
    assert_eq!(lexer.read_identifier(), vec!['a', 'b', '_', 'C']);
    assert_eq!(lexer.peek_next(), Some('1'));
    assert_eq!(lexer.read_char(), Some('1'));
    assert_eq!(lexer.read_identifier(), vec!['1']);
    assert_eq!(lexer.peek_next(), Some(' '));

    let mut fresh = Lexer::new("ab");
    assert_eq!(fresh.read_identifier(), vec![EOF_CHAR, 'a', 'b']);
}

#[test]
fn skip_while_stops_at_the_first_rejected_character() {
    let mut lexer = Lexer::new("aaab");
    lexer.skip_while(|c| c == 'a');
    assert_eq!(lexer.read_pos(), 3);
    assert_eq!(lexer.peek_next(), Some('b'));
    lexer.skip_while(|c| c == 'a');
    assert_eq!(lexer.read_pos(), 3);
    lexer.skip_while(|_| true);
    assert_eq!(lexer.read_pos(), 4);
    assert_eq!(lexer.peek_next(), None);
}

#[test]
fn skip_to_next_whitespace_stops_at_whitespace() {
    let mut lexer = Lexer::new("ab'c\td");
    lexer.skip_to_next_whitespace();
    assert_eq!(lexer.read_pos(), 4);
    assert_eq!(lexer.peek_next(), Some('\t'));
    let mut other = Lexer::new("abc");
    other.skip_to_next_whitespace();
    assert_eq!(other.read_pos(), 3);
}

#[test]
fn lookahead_collect_gathers_the_run() {
    let mut lexer = Lexer::new("=>>x");
    assert_eq!(lexer.read_char(), Some('='));
    assert_eq!(lexer.lookahead_collect(|c, _| c != '>'), Some("=>>".to_string()));
    assert_eq!(lexer.peek_next(), Some('x'));

    let mut alone = Lexer::new("= >");
    assert_eq!(alone.read_char(), Some('='));
    assert_eq!(alone.lookahead_collect(|c, _| c != '>'), None);
    assert_eq!(alone.read_pos(), 1);

    let mut at_end = Lexer::new("=");
    assert_eq!(at_end.read_char(), Some('='));
    assert_eq!(at_end.lookahead_collect(|c, _| c != '>'), None);
}

#[test]
fn lookahead_collect_hands_over_the_last_character() {
    // Collect for as long as the characters ascend.
    let mut lexer = Lexer::new("abdcz");
    assert_eq!(lexer.read_char(), Some('a'));
    assert_eq!(lexer.lookahead_collect(|c, last| c <= last), Some("abd".to_string()));
    assert_eq!(lexer.peek_next(), Some('c'));
    // Whitespace ends a run whatever the predicate says.
    let mut spaced = Lexer::new("ab c");
    assert_eq!(spaced.read_char(), Some('a'));
    assert_eq!(spaced.lookahead_collect(|_, _| false), Some("ab".to_string()));
}

#[test]
fn keyword_table() {
    let l = loc(1, 2);
    let word = |text: &str| text.chars().collect::<Vec<char>>();
    assert_eq!(match_keyword(&word("if"), l), Ok(Token::If(l)));
    assert_eq!(match_keyword(&word("else"), l), Ok(Token::Else(l)));
    assert_eq!(match_keyword(&word("true"), l), Ok(Token::True(l)));
    assert_eq!(match_keyword(&word("false"), l), Ok(Token::False(l)));
    assert_eq!(match_keyword(&word("node"), l), Ok(Token::Node(l)));
    assert_eq!(match_keyword(&word("and"), l), Ok(Token::AndAlso(l)));
    assert_eq!(match_keyword(&word("or"), l), Ok(Token::OrElse(l)));
    for other in ["", "i", "iff", "If", "nod", "nodes", "orelse", "andalso", "tru"] {
        assert_eq!(match_keyword(&word(other), l), Err("Unknown keyword".to_string()));
    }
}

#[test]
fn literal_modes() {
    assert_eq!(SINGLE_QUOTE_CHAR, '\'');
    assert_eq!(DOUBLE_QUOTE_CHAR, '"');
    assert_eq!(SLASH_CHAR, '\\');
    assert_eq!(ESCAPE_CHAR, '\\');
    assert_eq!(Mode::Char.open_close_char(), '\'');
    assert_eq!(Mode::Str.open_close_char(), '"');
    assert_eq!('\''.literal_mode(), Some(Mode::Char));
    assert_eq!('"'.literal_mode(), Some(Mode::Str));
    assert_eq!('`'.literal_mode(), None);
    assert!('\''.is_literal_mode());
    assert!('"'.is_literal_mode());
    assert!(!'a'.is_literal_mode());
}

#[test]
fn escape_table() {
    for mode in [Mode::Char, Mode::Str] {
        assert_eq!(escaped_character('r', mode), Some('\r'));
        assert_eq!(escaped_character('n', mode), Some('\n'));
        assert_eq!(escaped_character('\\', mode), Some('\\'));
        for other in ['t', '0', 'R', 'N', ' ', 'b'] {
            assert_eq!(escaped_character(other, mode), None);
        }
    }
    assert_eq!(escaped_character('\'', Mode::Char), Some('\''));
    assert_eq!(escaped_character('"', Mode::Char), None);
    assert_eq!(escaped_character('"', Mode::Str), Some('"'));
    assert_eq!(escaped_character('\'', Mode::Str), None);
}

#[test]
fn lex_literal_goes_by_the_opening_quote() {
    let mut lexer = Lexer::new("\"a'b\" 'c'");
    let start = lexer.location();
    assert_eq!(lexer.read_char(), Some('"'));
    assert_eq!(lex_literal(&mut lexer, start), Ok(Token::StringLiteral(start, "a'b".to_string())));
    lexer.skip_whitespace();
    let start = lexer.location();
    assert_eq!(start, loc(0, 6));
    assert_eq!(lexer.read_char(), Some('\''));
    assert_eq!(lex_literal(&mut lexer, start), Ok(Token::CharLiteral(start, 'c')));
    assert_eq!(lexer.peek_next(), None);
}

#[test]
fn lex_string_literal_scans_the_body() {
    let mut lexer = Lexer::new("ab\\\\c\" rest");
    assert_eq!(
        lex_string_literal(&mut lexer, loc(5, 5)),
        Ok(Token::StringLiteral(loc(5, 5), "ab\\c".to_string()))
    );
    assert_eq!(lexer.read_pos(), 6);

    let mut bad = Lexer::new("a\\tb\"");
    assert_eq!(
        lex_string_literal(&mut bad, loc(0, 0)),
        Err(LiteralLexFailureReason::UnknownEscapeCharacter(loc(0, 2), 't'))
    );
    assert_eq!(bad.read_pos(), 3);

    let mut open = Lexer::new("a\nb");
    assert_eq!(
        lex_string_literal(&mut open, loc(0, 0)),
        Err(LiteralLexFailureReason::UnclosedLiteral(loc(1, 1)))
    );
    assert_eq!(open.read_pos(), 3);
}

#[test]
fn lex_character_literal_core_scans_one_character() {
    let mut lexer = Lexer::new("xy");
    assert_eq!(
        lex_character_literal_core(&mut lexer, loc(0, 0)),
        Ok(Token::CharLiteral(loc(0, 0), 'x'))
    );
    assert_eq!(lexer.read_pos(), 1);

    let mut escaped = Lexer::new("\\ny");
    assert_eq!(
        lex_character_literal_core(&mut escaped, loc(0, 0)),
        Ok(Token::CharLiteral(loc(0, 0), '\n'))
    );
    assert_eq!(escaped.read_pos(), 2);

    let mut unknown = Lexer::new("\\zy");
    assert_eq!(
        lex_character_literal_core(&mut unknown, loc(0, 0)),
        Err(LiteralLexFailureReason::UnknownEscapeCharacter(loc(0, 1), 'z'))
    );
    assert_eq!(unknown.read_pos(), 2);

    let mut empty = Lexer::new("");
    assert_eq!(
        lex_character_literal_core(&mut empty, loc(0, 0)),
        Err(LiteralLexFailureReason::UnclosedLiteral(loc(0, 0)))
    );
    let mut cut = Lexer::new("\\");
    assert_eq!(
        lex_character_literal_core(&mut cut, loc(0, 0)),
        Err(LiteralLexFailureReason::UnclosedLiteral(loc(0, 1)))
    );
    assert_eq!(cut.read_pos(), 1);
}

#[test]
fn lex_character_literal_wants_the_closing_quote() {
    let mut lexer = Lexer::new("x' y");
    assert_eq!(
        lex_character_literal(&mut lexer, loc(0, 0)),
        Ok(Token::CharLiteral(loc(0, 0), 'x'))
    );
    assert_eq!(lexer.read_pos(), 2);

    let mut long = Lexer::new("xyz' w");
    assert_eq!(
        lex_character_literal(&mut long, loc(0, 0)),
        Err(LiteralLexFailureReason::InvalidCharLiteral(loc(0, 1)))
    );
    assert_eq!(long.read_pos(), 3);

    let mut spaced = Lexer::new("x y");
    assert_eq!(
        lex_character_literal(&mut spaced, loc(0, 0)),
        Err(LiteralLexFailureReason::InvalidCharLiteral(loc(0, 1)))
    );
    assert_eq!(spaced.read_pos(), 1);

    let mut unknown = Lexer::new("\\zab cd");
    assert_eq!(
        lex_character_literal(&mut unknown, loc(0, 0)),
        Err(LiteralLexFailureReason::UnknownEscapeCharacter(loc(0, 1), 'z'))
    );
    assert_eq!(unknown.read_pos(), 4);
}

#[test]
fn strings_are_built_from_characters() {
    assert_eq!(string_from_chars(&vec![]), "");
    assert_eq!(string_from_chars(&vec!['a', 'é', '\n', 'z']), "aé\nz");
    assert_eq!(string_from_char('q'), "q");
    assert_eq!(string_from_char('\0'), "\0");
}
