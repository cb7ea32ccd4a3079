use lox::error::{LexicalError, LexicalErrorKind};
use lox::scanner::{scan, Scanner};
use lox::token::{Literal, Token, TokenType};

fn kinds(tokens: &[Token]) -> Vec<TokenType> {
    tokens.iter().map(|t| t.token_type).collect()
}

fn lexemes(tokens: &[Token]) -> Vec<String> {
    tokens.iter().map(|t| t.lexeme.clone()).collect()
}

#[test]
fn empty_source_is_only_eof() {
    let out = scan("");
    assert_eq!(kinds(&out.tokens), vec![TokenType::Eof]);
    assert_eq!(out.tokens[0].lexeme, "");
    assert_eq!(out.tokens[0].literal, None);
    assert_eq!(out.tokens[0].line, 1);
    assert!(out.errors.is_empty());
}

#[test]
fn every_single_character_operator_is_one_token() {
    let table = [
        ("(", TokenType::LeftParen),
        (")", TokenType::RightParen),
        ("{", TokenType::LeftBrace),
        ("}", TokenType::RightBrace),
        ("[", TokenType::LeftBracket),
        ("]", TokenType::RightBracket),
        (",", TokenType::Comma),
        (".", TokenType::Dot),
        ("-", TokenType::Minus),
        ("+", TokenType::Plus),
        (";", TokenType::Semicolon),
        ("/", TokenType::Slash),
        ("*", TokenType::Star),
        ("!", TokenType::Bang),
        ("=", TokenType::Equal),
        ("<", TokenType::Less),
        (">", TokenType::Greater),
    ];
    for (text, kind) in table {
        let out = scan(text);
        assert_eq!(kinds(&out.tokens), vec![kind, TokenType::Eof], "{}", text);
        assert_eq!(out.tokens[0].lexeme, text);
        assert_eq!(out.tokens[0].literal, None);
        assert_eq!(out.tokens[0].line, 1);
        assert_eq!(out.tokens[1].line, 1);
        assert!(out.errors.is_empty());
    }
}

#[test]
fn two_character_operators_combine() {
    let out = scan("!= == <= >= ! = < >");
    assert_eq!(
        kinds(&out.tokens),
        vec![
            TokenType::BangEqual,
            TokenType::EqualEqual,
            TokenType::LessEqual,
            TokenType::GreaterEqual,
            TokenType::Bang,
            TokenType::Equal,
            TokenType::Less,
            TokenType::Greater,
            TokenType::Eof,
        ]
    );
    assert_eq!(lexemes(&out.tokens), vec!["!=", "==", "<=", ">=", "!", "=", "<", ">", ""]);
    assert!(out.errors.is_empty());
}

#[test]
fn three_equals_are_a_pair_and_one() {
    let out = scan("===");
    assert_eq!(kinds(&out.tokens), vec![TokenType::EqualEqual, TokenType::Equal, TokenType::Eof]);
}

#[test]
fn comment_is_never_tokenized() {
    let out = scan("// comment\n1");
    assert_eq!(kinds(&out.tokens), vec![TokenType::Number, TokenType::Eof]);
    assert_eq!(out.tokens[0].lexeme, "1");
    assert_eq!(out.tokens[0].literal, Some(Literal::Number("1".to_string())));
    let value: f64 = out.tokens[0].lexeme.parse().unwrap();
    assert_eq!(value, 1.0);
    assert_eq!(out.tokens[0].line, 2);
    assert_eq!(out.tokens[1].line, 2);
    assert!(out.errors.is_empty());
}

#[test]
fn comment_at_end_of_input() {
    let out = scan("1 // trailing ( ) \" @");
    assert_eq!(kinds(&out.tokens), vec![TokenType::Number, TokenType::Eof]);
    assert!(out.errors.is_empty());
}

#[test]
fn lone_slash_is_division() {
    let out = scan("8 / 2");
    assert_eq!(
        kinds(&out.tokens),
        vec![TokenType::Number, TokenType::Slash, TokenType::Number, TokenType::Eof]
    );
}

#[test]
fn unterminated_string_is_one_error() {
    let out = scan("\"abc");
    assert_eq!(kinds(&out.tokens), vec![TokenType::Eof]);
    assert_eq!(
        out.errors,
        vec![LexicalError { kind: LexicalErrorKind::UnterminatedString, line: 1 }]
    );
}

#[test]
fn unterminated_string_is_reported_at_its_first_line() {
    let out = scan("1\n\"abc\ndef\n");
    assert_eq!(kinds(&out.tokens), vec![TokenType::Number, TokenType::Eof]);
    assert_eq!(
        out.errors,
        vec![LexicalError { kind: LexicalErrorKind::UnterminatedString, line: 2 }]
    );
    assert_eq!(out.tokens[1].line, 4);
}

#[test]
fn string_literal_excludes_the_quotes() {
    let out = scan("\"hello world\"");
    assert_eq!(kinds(&out.tokens), vec![TokenType::String, TokenType::Eof]);
    assert_eq!(out.tokens[0].lexeme, "\"hello world\"");
    assert_eq!(out.tokens[0].literal, Some(Literal::Str("hello world".to_string())));
    assert!(out.errors.is_empty());
}

#[test]
fn empty_string_literal() {
    let out = scan("\"\"");
    assert_eq!(kinds(&out.tokens), vec![TokenType::String, TokenType::Eof]);
    assert_eq!(out.tokens[0].literal, Some(Literal::Str(String::new())));
}

#[test]
fn escaped_quote_does_not_close_a_string() {
    let out = scan("\"a\\\"b\" x");
    assert_eq!(kinds(&out.tokens), vec![TokenType::String, TokenType::Identifier, TokenType::Eof]);
    assert_eq!(out.tokens[0].literal, Some(Literal::Str("a\\\"b".to_string())));
    assert!(out.errors.is_empty());
}

#[test]
fn escaped_backslash_before_the_closing_quote() {
    let out = scan("\"a\\\\\" x");
    assert_eq!(kinds(&out.tokens), vec![TokenType::String, TokenType::Identifier, TokenType::Eof]);
    assert_eq!(out.tokens[0].literal, Some(Literal::Str("a\\\\".to_string())));
}

#[test]
fn string_over_several_lines_starts_on_its_first_line() {
    let out = scan("\"a\nb\" c");
    assert_eq!(kinds(&out.tokens), vec![TokenType::String, TokenType::Identifier, TokenType::Eof]);
    assert_eq!(out.tokens[0].line, 1);
    assert_eq!(out.tokens[1].line, 2);
    assert_eq!(out.tokens[0].literal, Some(Literal::Str("a\nb".to_string())));
}

#[test]
fn numbers_with_and_without_fraction() {
    let out = scan("12 3.25 7.");
    assert_eq!(
        kinds(&out.tokens),
        vec![
            TokenType::Number,
            TokenType::Number,
            TokenType::Number,
            TokenType::Dot,
            TokenType::Eof
        ]
    );
    assert_eq!(lexemes(&out.tokens), vec!["12", "3.25", "7", ".", ""]);
    assert_eq!(out.tokens[1].literal, Some(Literal::Number("3.25".to_string())));
    let value: f64 = out.tokens[1].lexeme.parse().unwrap();
    assert_eq!(value, 3.25);
}

#[test]
fn leading_dot_is_not_part_of_a_number() {
    let out = scan(".5");
    assert_eq!(kinds(&out.tokens), vec![TokenType::Dot, TokenType::Number, TokenType::Eof]);
}

#[test]
fn second_dot_ends_a_number() {
    let out = scan("1.2.3");
    assert_eq!(
        kinds(&out.tokens),
        vec![TokenType::Number, TokenType::Dot, TokenType::Number, TokenType::Eof]
    );
    assert_eq!(lexemes(&out.tokens), vec!["1.2", ".", "3", ""]);
}

#[test]
fn keywords_are_matched_exactly() {
    let words = [
        ("and", TokenType::And),
        ("class", TokenType::Class),
        ("else", TokenType::Else),
        ("false", TokenType::False),
        ("fun", TokenType::Fun),
        ("for", TokenType::For),
        ("if", TokenType::If),
        ("nil", TokenType::Nil),
        ("or", TokenType::Or),
        ("print", TokenType::Print),
        ("return", TokenType::Return),
        ("super", TokenType::Super),
        ("this", TokenType::This),
        ("true", TokenType::True),
        ("var", TokenType::Var),
        ("while", TokenType::While),
        ("lambda", TokenType::Lambda),
    ];
    for (word, kind) in words {
        let out = scan(word);
        assert_eq!(kinds(&out.tokens), vec![kind, TokenType::Eof], "{}", word);
        assert_eq!(out.tokens[0].lexeme, word);
        assert_eq!(out.tokens[0].literal, None);
    }
}

#[test]
fn near_keywords_are_identifiers() {
    for word in ["And", "classes", "fo", "_if", "nil0", "orchid", "va", "whilee", "x", "_"] {
        let out = scan(word);
        assert_eq!(kinds(&out.tokens), vec![TokenType::Identifier, TokenType::Eof], "{}", word);
        assert_eq!(out.tokens[0].literal, Some(Literal::Identifier(word.to_string())));
    }
}

#[test]
fn identifier_may_hold_digits_and_underscores() {
    let out = scan("a_1b2 9z");
    assert_eq!(
        kinds(&out.tokens),
        vec![TokenType::Identifier, TokenType::Number, TokenType::Identifier, TokenType::Eof]
    );
    assert_eq!(lexemes(&out.tokens), vec!["a_1b2", "9", "z", ""]);
}

#[test]
fn unexpected_character_is_recorded_and_skipped() {
    let out = scan("1 @ 2 #\n$");
    assert_eq!(kinds(&out.tokens), vec![TokenType::Number, TokenType::Number, TokenType::Eof]);
    assert_eq!(
        out.errors,
        vec![
            LexicalError { kind: LexicalErrorKind::UnexpectedCharacter('@'), line: 1 },
            LexicalError { kind: LexicalErrorKind::UnexpectedCharacter('#'), line: 1 },
            LexicalError { kind: LexicalErrorKind::UnexpectedCharacter('$'), line: 2 },
        ]
    );
}

#[test]
fn non_ascii_character_is_unexpected() {
    let out = scan("é+");
    assert_eq!(kinds(&out.tokens), vec![TokenType::Plus, TokenType::Eof]);
    assert_eq!(
        out.errors,
        vec![LexicalError { kind: LexicalErrorKind::UnexpectedCharacter('é'), line: 1 }]
    );
}

#[test]
fn non_ascii_text_inside_a_string_is_kept() {
    let out = scan("\"héllo\" x");
    assert_eq!(kinds(&out.tokens), vec![TokenType::String, TokenType::Identifier, TokenType::Eof]);
    assert_eq!(out.tokens[0].literal, Some(Literal::Str("héllo".to_string())));
}

#[test]
fn whitespace_is_skipped_and_lines_are_counted() {
    let out = scan(" \t\r\n\n  x\n");
    assert_eq!(kinds(&out.tokens), vec![TokenType::Identifier, TokenType::Eof]);
    assert_eq!(out.tokens[0].line, 3);
    assert_eq!(out.tokens[1].line, 4);
}

#[test]
fn a_small_program() {
    let out = scan("var x = (1 + 2) * 3;\nprint x >= 9;");
    assert_eq!(
        kinds(&out.tokens),
        vec![
            TokenType::Var,
            TokenType::Identifier,
            TokenType::Equal,
            TokenType::LeftParen,
            TokenType::Number,
            TokenType::Plus,
            TokenType::Number,
            TokenType::RightParen,
            TokenType::Star,
            TokenType::Number,
            TokenType::Semicolon,
            TokenType::Print,
            TokenType::Identifier,
            TokenType::GreaterEqual,
            TokenType::Number,
            TokenType::Semicolon,
            TokenType::Eof,
        ]
    );
    assert_eq!(out.tokens[11].line, 2);
    assert!(out.errors.is_empty());
}

#[test]
fn scanner_keeps_what_it_found() {
    let mut scanner = Scanner::new("a b".to_string());
    assert!(!scanner.is_at_end());
    let found = scanner.scan_tokens();
    assert_eq!(found.len(), 3);
    assert!(scanner.is_at_end());
    assert_eq!(kinds(&scanner.tokens), vec![
        TokenType::Identifier,
        TokenType::Identifier,
        TokenType::Eof
    ]);
    assert_eq!(scanner.line, 1);
}

#[test]
fn scanner_reads_one_item_at_a_time() {
    let mut scanner = Scanner::new("<= x".to_string());
    scanner.scan_token();
    assert_eq!(scanner.current, 2);
    assert_eq!(kinds(&scanner.tokens), vec![TokenType::LessEqual]);
    scanner.start = scanner.current;
    scanner.scan_token();
    assert_eq!(scanner.current, 3);
    assert_eq!(scanner.tokens.len(), 1);
}

#[test]
fn token_new_keeps_its_fields() {
    let t = Token::new(
        TokenType::Identifier,
        "abc".to_string(),
        Some(Literal::Identifier("abc".to_string())),
        7,
    );
    assert_eq!(t.token_type, TokenType::Identifier);
    assert_eq!(t.lexeme, "abc");
    assert_eq!(t.literal, Some(Literal::Identifier("abc".to_string())));
    assert_eq!(t.line, 7);
}
