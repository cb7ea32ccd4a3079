//! Lexical categories and the token record.

use vstd::prelude::*;
use vstd::string::*;

verus! {

/// The closed set of lexical categories.
#[derive(Eq, PartialEq, Debug, Copy, Clone, Structural)]
pub enum TokenType {
    // Single-character tokens.
    LeftParen,
    RightParen,
    LeftBrace,
    RightBrace,
    LeftBracket,
    RightBracket,
    Comma,
    Dot,
    Minus,
    Plus,
    Semicolon,
    Slash,
    Star,
    // One or two character tokens.
    Bang,
    BangEqual,
    Equal,
    EqualEqual,
    Greater,
    GreaterEqual,
    Less,
    LessEqual,
    // Literals.
    Identifier,
    String,
    Number,
    // Keywords.
    And,
    Class,
    Else,
    False,
    Fun,
    For,
    If,
    Nil,
    Or,
    Print,
    Return,
    Super,
    This,
    True,
    Var,
    While,
    Lambda,
    Eof,
}

/// The parsed payload that some tokens carry.
///
/// A number keeps its decimal text, digit for digit: the text is what
/// determines the numeric value, and no rounding happens before the value is
/// needed.
#[derive(Debug, Clone, PartialEq, Eq)]
pub enum Literal {
    Identifier(String),
    Str(String),
    Number(String),
}

/// The mathematical value of a [`Literal`].
pub enum LiteralView {
    Identifier(Seq<char>),
    Str(Seq<char>),
    Number(Seq<char>),
}

impl View for Literal {
    type V = LiteralView;

    open spec fn view(&self) -> LiteralView {
        match self {
            Literal::Identifier(s) => LiteralView::Identifier(s@),
            Literal::Str(s) => LiteralView::Str(s@),
            Literal::Number(s) => LiteralView::Number(s@),
        }
    }
}

/// A classified lexical unit: its kind, the raw text it was read from, the
/// parsed payload if it has one, and the line it starts on.
pub struct Token {
    pub token_type: TokenType,
    pub lexeme: String,
    pub literal: Option<Literal>,
    pub line: usize,
}

/// The mathematical value of a [`Token`].
pub struct TokenView {
    pub token_type: TokenType,
    pub lexeme: Seq<char>,
    pub literal: Option<LiteralView>,
    pub line: usize,
}

/// The view of an optional literal.
pub open spec fn literal_view(literal: Option<Literal>) -> Option<LiteralView> {
    match literal {
        Some(l) => Some(l@),
        None => None,
    }
}

impl View for Token {
    type V = TokenView;

    open spec fn view(&self) -> TokenView {
        TokenView {
            token_type: self.token_type,
            lexeme: self.lexeme@,
            literal: literal_view(self.literal),
            line: self.line,
        }
    }
}

impl Token {
    /// A token of these four parts.
    pub fn new(token_type: TokenType, lexeme: String, literal: Option<Literal>, line: usize) -> (t:
        Self)
        ensures
            t.token_type == token_type,
            t.lexeme == lexeme,
            t.literal == literal,
            t.line == line,
    {
        Token { token_type, lexeme, literal, line }
    }
}

/// The name of a lexical category, as it is written in this library.
pub open spec fn kind_name(kind: TokenType) -> Seq<char> {
    match kind {
        TokenType::LeftParen => "LeftParen"@,
        TokenType::RightParen => "RightParen"@,
        TokenType::LeftBrace => "LeftBrace"@,
        TokenType::RightBrace => "RightBrace"@,
        TokenType::LeftBracket => "LeftBracket"@,
        TokenType::RightBracket => "RightBracket"@,
        TokenType::Comma => "Comma"@,
        TokenType::Dot => "Dot"@,
        TokenType::Minus => "Minus"@,
        TokenType::Plus => "Plus"@,
        TokenType::Semicolon => "Semicolon"@,
        TokenType::Slash => "Slash"@,
        TokenType::Star => "Star"@,
        TokenType::Bang => "Bang"@,
        TokenType::BangEqual => "BangEqual"@,
        TokenType::Equal => "Equal"@,
        TokenType::EqualEqual => "EqualEqual"@,
        TokenType::Greater => "Greater"@,
        TokenType::GreaterEqual => "GreaterEqual"@,
        TokenType::Less => "Less"@,
        TokenType::LessEqual => "LessEqual"@,
        TokenType::Identifier => "Identifier"@,
        TokenType::String => "String"@,
        TokenType::Number => "Number"@,
        TokenType::And => "And"@,
        TokenType::Class => "Class"@,
        TokenType::Else => "Else"@,
        TokenType::False => "False"@,
        TokenType::Fun => "Fun"@,
        TokenType::For => "For"@,
        TokenType::If => "If"@,
        TokenType::Nil => "Nil"@,
        TokenType::Or => "Or"@,
        TokenType::Print => "Print"@,
        TokenType::Return => "Return"@,
        TokenType::Super => "Super"@,
        TokenType::This => "This"@,
        TokenType::True => "True"@,
        TokenType::Var => "Var"@,
        TokenType::While => "While"@,
        TokenType::Lambda => "Lambda"@,
        TokenType::Eof => "Eof"@,
    }
}

impl TokenType {
    /// The name of this lexical category.
    pub fn name(&self) -> (text: &'static str)
        ensures
            text@ == kind_name(*self),
    {
        match self {
            TokenType::LeftParen => "LeftParen",
            TokenType::RightParen => "RightParen",
            TokenType::LeftBrace => "LeftBrace",
            TokenType::RightBrace => "RightBrace",
            TokenType::LeftBracket => "LeftBracket",
            TokenType::RightBracket => "RightBracket",
            TokenType::Comma => "Comma",
            TokenType::Dot => "Dot",
            TokenType::Minus => "Minus",
            TokenType::Plus => "Plus",
            TokenType::Semicolon => "Semicolon",
            TokenType::Slash => "Slash",
            TokenType::Star => "Star",
            TokenType::Bang => "Bang",
            TokenType::BangEqual => "BangEqual",
            TokenType::Equal => "Equal",
            TokenType::EqualEqual => "EqualEqual",
            TokenType::Greater => "Greater",
            TokenType::GreaterEqual => "GreaterEqual",
            TokenType::Less => "Less",
            TokenType::LessEqual => "LessEqual",
            TokenType::Identifier => "Identifier",
            TokenType::String => "String",
            TokenType::Number => "Number",
            TokenType::And => "And",
            TokenType::Class => "Class",
            TokenType::Else => "Else",
            TokenType::False => "False",
            TokenType::Fun => "Fun",
            TokenType::For => "For",
            TokenType::If => "If",
            TokenType::Nil => "Nil",
            TokenType::Or => "Or",
            TokenType::Print => "Print",
            TokenType::Return => "Return",
            TokenType::Super => "Super",
            TokenType::This => "This",
            TokenType::True => "True",
            TokenType::Var => "Var",
            TokenType::While => "While",
            TokenType::Lambda => "Lambda",
            TokenType::Eof => "Eof",
        }
    }
}

/// The debug form of a text: the text in double quotes, with the characters
/// that std's `Debug` for `str` escapes written as their escapes.
pub uninterp spec fn debug_form(text: Seq<char>) -> Seq<char>;

/// Formats `text` with `{:?}`. `Debug` for `str` depends on the characters
/// of the text alone, so the result is the debug form of the text.
#[verifier::external_body]
fn debug_string(text: &str) -> (quoted: String)
    ensures
        quoted@ == debug_form(text@),
{
    format!("{:?}", text)
}

/// The fields of a rendered token, joined by single spaces.
pub open spec fn joined(kind: Seq<char>, lexeme: Seq<char>, literal: Option<Seq<char>>) -> Seq<
    char,
> {
    match literal {
        Some(l) => kind + seq![' '] + lexeme + seq![' '] + l,
        None => kind + seq![' '] + lexeme,
    }
}

/// The text that stands for a literal in a rendered token: the debug form
/// of a name or of a string's content, the digits of a number as they are.
pub open spec fn literal_text(literal: LiteralView) -> Seq<char> {
    match literal {
        LiteralView::Identifier(s) => debug_form(s),
        LiteralView::Str(s) => debug_form(s),
        LiteralView::Number(s) => s,
    }
}

/// The rendering of a token: its kind's name, the debug form of its lexeme
/// and, where it has a literal, the text that stands for it.
pub open spec fn rendering(token: TokenView) -> Seq<char> {
    joined(
        kind_name(token.token_type),
        debug_form(token.lexeme),
        match token.literal {
            Some(l) => Some(literal_text(l)),
            None => None,
        },
    )
}

/// Joins the fields of a rendered token by single spaces.
pub fn join_fields(kind: &str, lexeme: &str, literal: Option<String>) -> (text: String)
    ensures
        text@ == joined(
            kind@,
            lexeme@,
            match literal {
                Some(l) => Some(l@),
                None => None,
            },
        ),
{
    let mut text = String::from_str(kind);
    text.push(' ');
    text.append(lexeme);
    if let Some(l) = literal {
        text.push(' ');
        text.append(l.as_str());
    }
    text
}

impl Literal {
    /// The text that stands for this literal in a rendered token.
    pub fn to_string(&self) -> (text: String)
        ensures
            text@ == literal_text(self@),
    {
        match self {
            Literal::Identifier(s) => debug_string(s.as_str()),
            Literal::Str(s) => debug_string(s.as_str()),
            Literal::Number(s) => s.clone(),
        }
    }
}

impl Token {
    /// Renders the token for display.
    pub fn to_string(&self) -> (text: String)
        ensures
            text@ == rendering(self@),
    {
        let lexeme = debug_string(self.lexeme.as_str());
        let literal = match &self.literal {
            Some(l) => Some(l.to_string()),
            None => None,
        };
        join_fields(self.token_type.name(), lexeme.as_str(), literal)
    }
}

} // verus!
