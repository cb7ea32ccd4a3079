use lox::error::{report, LexicalError, LexicalErrorKind, SyntaxError, SyntaxErrorKind};
use lox::scanner::scan;
use lox::text::{chars_of, push_decimal, spells, text_of};
use lox::token::{join_fields, Literal, Token, TokenType};

#[test]
fn token_without_literal_renders_kind_and_lexeme() {
    let t = Token::new(TokenType::LeftParen, "(".to_string(), None, 1);
    assert_eq!(t.to_string(), "LeftParen \"(\"");
    let eof = Token::new(TokenType::Eof, String::new(), None, 3);
    assert_eq!(eof.to_string(), "Eof \"\"");
}

#[test]
fn token_with_literal_renders_three_fields() {
    let name = Token::new(
        TokenType::Identifier,
        "abc".to_string(),
        Some(Literal::Identifier("abc".to_string())),
        1,
    );
    assert_eq!(name.to_string(), "Identifier \"abc\" \"abc\"");
    let text = Token::new(
        TokenType::String,
        "\"a b\"".to_string(),
        Some(Literal::Str("a b".to_string())),
        1,
    );
    assert_eq!(text.to_string(), "String \"\\\"a b\\\"\" \"a b\"");
    let number = Token::new(
        TokenType::Number,
        "12.5".to_string(),
        Some(Literal::Number("12.5".to_string())),
        1,
    );
    assert_eq!(number.to_string(), "Number \"12.5\" 12.5");
}

#[test]
fn rendering_escapes_what_debug_escapes() {
    let t = Token::new(
        TokenType::String,
        "\"a\nb\"".to_string(),
        Some(Literal::Str("a\nb\t\\".to_string())),
        1,
    );
    assert_eq!(t.to_string(), "String \"\\\"a\\nb\\\"\" \"a\\nb\\t\\\\\"");
}

#[test]
fn scanned_tokens_render() {
    let out = scan("var x = 1;");
    let lines: Vec<String> = out.tokens.iter().map(|t| t.to_string()).collect();
    assert_eq!(
        lines,
        vec![
            "Var \"var\"",
            "Identifier \"x\" \"x\"",
            "Equal \"=\"",
            "Number \"1\" 1",
            "Semicolon \";\"",
            "Eof \"\"",
        ]
    );
}

#[test]
fn literal_renders_alone() {
    assert_eq!(Literal::Identifier("a".to_string()).to_string(), "\"a\"");
    assert_eq!(Literal::Str("".to_string()).to_string(), "\"\"");
    assert_eq!(Literal::Number("7".to_string()).to_string(), "7");
}

#[test]
fn fields_are_joined_by_single_spaces() {
    assert_eq!(join_fields("A", "b", None), "A b");
    assert_eq!(join_fields("A", "b", Some("c".to_string())), "A b c");
    assert_eq!(join_fields("", "", Some(String::new())), "  ");
}

#[test]
fn every_kind_has_its_name() {
    assert_eq!(TokenType::LeftParen.name(), "LeftParen");
    assert_eq!(TokenType::BangEqual.name(), "BangEqual");
    assert_eq!(TokenType::String.name(), "String");
    assert_eq!(TokenType::Lambda.name(), "Lambda");
    assert_eq!(TokenType::Eof.name(), "Eof");
    assert_eq!(TokenType::While.name(), format!("{:?}", TokenType::While));
}

#[test]
fn lexical_diagnostics() {
    let unexpected = LexicalError { kind: LexicalErrorKind::UnexpectedCharacter('@'), line: 3 };
    assert_eq!(unexpected.message(), "Unexpected character.");
    assert_eq!(unexpected.to_string(), "[line 3] Error: Unexpected character.");
    let open = LexicalError { kind: LexicalErrorKind::UnterminatedString, line: 120 };
    assert_eq!(open.message(), "Unterminated string.");
    assert_eq!(open.to_string(), "[line 120] Error: Unterminated string.");
}

#[test]
fn syntax_diagnostics() {
    let e = SyntaxError { kind: SyntaxErrorKind::ExpectedExpression, line: 1 };
    assert_eq!(e.to_string(), "[line 1] Error: Expect expression.");
    let e = SyntaxError { kind: SyntaxErrorKind::Expected(TokenType::Semicolon), line: 2 };
    assert_eq!(e.message(), "Expect ';'.");
    assert_eq!(e.to_string(), "[line 2] Error: Expect ';'.");
    let e = SyntaxError { kind: SyntaxErrorKind::Expected(TokenType::Identifier), line: 10 };
    assert_eq!(e.to_string(), "[line 10] Error: Expect a name.");
    let e = SyntaxError { kind: SyntaxErrorKind::InvalidAssignmentTarget, line: 7 };
    assert_eq!(e.to_string(), "[line 7] Error: Invalid assignment target.");
}

#[test]
fn report_writes_the_line_in_decimal() {
    assert_eq!(report(0, "m"), "[line 0] Error: m");
    assert_eq!(report(9, "m"), "[line 9] Error: m");
    assert_eq!(report(10, "m"), "[line 10] Error: m");
    assert_eq!(report(1234567890, ""), "[line 1234567890] Error: ");
    assert_eq!(report(usize::MAX, "m"), format!("[line {}] Error: m", usize::MAX));
}

#[test]
fn decimal_numerals() {
    for n in [0usize, 1, 9, 10, 11, 99, 100, 101, 65535, usize::MAX] {
        let mut s = String::from("x");
        push_decimal(&mut s, n);
        assert_eq!(s, format!("x{}", n));
    }
}

#[test]
fn text_helpers() {
    let v = chars_of("héllo");
    assert_eq!(v, vec!['h', 'é', 'l', 'l', 'o']);
    assert_eq!(text_of(&v, 1, 4), "éll");
    assert_eq!(text_of(&v, 2, 2), "");
    assert!(spells(&v, 0, 5, "héllo"));
    assert!(spells(&v, 2, 4, "ll"));
    assert!(!spells(&v, 2, 4, "lo"));
    assert!(!spells(&v, 2, 4, "l"));
    assert!(spells(&v, 3, 3, ""));
}
