//! Faults found while reading source text.

use vstd::prelude::*;
use vstd::string::*;
use crate::text::{decimal, push_decimal};
use crate::token::TokenType;

verus! {

/// What went wrong at one place in the source.
#[derive(Eq, PartialEq, Debug, Copy, Clone, Structural)]
pub enum LexicalErrorKind {
    /// A character that starts no token.
    UnexpectedCharacter(char),
    /// A string literal whose closing quote is missing.
    UnterminatedString,
}

/// A lexical fault and the line it is reported at.
#[derive(Eq, PartialEq, Debug, Copy, Clone, Structural)]
pub struct LexicalError {
    pub kind: LexicalErrorKind,
    pub line: usize,
}

/// What a fault of kind `kind` is called in a diagnostic.
pub open spec fn message_of(kind: LexicalErrorKind) -> Seq<char> {
    match kind {
        LexicalErrorKind::UnexpectedCharacter(_) => "Unexpected character."@,
        LexicalErrorKind::UnterminatedString => "Unterminated string."@,
    }
}

/// The diagnostic line for `message` at `line`: `[line <n>] Error: <message>`.
pub open spec fn diagnostic(line: usize, message: Seq<char>) -> Seq<char> {
    "[line "@ + decimal(line as nat) + "] Error: "@ + message
}

/// Writes the diagnostic line for `message` at `line`.
pub fn report(line: usize, message: &str) -> (text: String)
    ensures
        text@ == diagnostic(line, message@),
{
    let mut text = String::from_str("[line ");
    push_decimal(&mut text, line);
    text.append("] Error: ");
    text.append(message);
    text
}

impl LexicalError {
    /// What the fault is called in a diagnostic.
    pub fn message(&self) -> (text: &'static str)
        ensures
            text@ == message_of(self.kind),
    {
        match self.kind {
            LexicalErrorKind::UnexpectedCharacter(_) => "Unexpected character.",
            LexicalErrorKind::UnterminatedString => "Unterminated string.",
        }
    }

    /// The diagnostic line for this fault.
    pub fn to_string(&self) -> (text: String)
        ensures
            text@ == diagnostic(self.line, message_of(self.kind)),
    {
        report(self.line, self.message())
    }
}

/// What the parser found wrong.
#[derive(Eq, PartialEq, Debug, Copy, Clone, Structural)]
pub enum SyntaxErrorKind {
    /// An expression had to start here and did not.
    ExpectedExpression,
    /// A token of this kind had to stand here and did not.
    Expected(TokenType),
    /// The left side of `=` is neither a variable nor a property.
    InvalidAssignmentTarget,
}

/// A violation of the grammar and the line it is reported at.
#[derive(Eq, PartialEq, Debug, Copy, Clone, Structural)]
pub struct SyntaxError {
    pub kind: SyntaxErrorKind,
    pub line: usize,
}

/// What went wrong while a program ran.
#[derive(Eq, PartialEq, Debug, Copy, Clone, Structural)]
pub enum RuntimeErrorKind {
    /// No variable of this name is visible.
    UndefinedVariable(usize),
    /// The instance has no field, and its class no method, of this name.
    UndefinedProperty(usize),
    /// The operand of `-` is not a number.
    OperandMustBeNumber,
    /// The operands are not both numbers.
    OperandsMustBeNumbers,
    /// The operands of `+` are neither two numbers nor two strings.
    OperandsMustBeNumbersOrStrings,
    /// What is called is neither a function nor a class.
    NotCallable,
    /// A call with the wrong number of arguments.
    WrongArity { expected: usize, actual: usize },
    /// A property of something that is not an instance.
    NotAnInstance,
    /// The superclass named by a class is not a class.
    SuperclassNotAClass,
    /// A `return` outside every function.
    ReturnOutsideFunction,
    /// The tables do not hold a program that the parser made.
    Malformed,
}

/// A fault at run time and the line it came from.
#[derive(Eq, PartialEq, Debug, Copy, Clone, Structural)]
pub struct RuntimeError {
    pub kind: RuntimeErrorKind,
    pub line: usize,
}

/// How a token of kind `kind` is called in a diagnostic.
pub open spec fn symbol(kind: TokenType) -> Seq<char> {
    match kind {
        TokenType::LeftParen => "'('"@,
        TokenType::RightParen => "')'"@,
        TokenType::LeftBrace => "'{'"@,
        TokenType::RightBrace => "'}'"@,
        TokenType::LeftBracket => "'['"@,
        TokenType::RightBracket => "']'"@,
        TokenType::Comma => "','"@,
        TokenType::Dot => "'.'"@,
        TokenType::Minus => "'-'"@,
        TokenType::Plus => "'+'"@,
        TokenType::Semicolon => "';'"@,
        TokenType::Slash => "'/'"@,
        TokenType::Star => "'*'"@,
        TokenType::Bang => "'!'"@,
        TokenType::BangEqual => "'!='"@,
        TokenType::Equal => "'='"@,
        TokenType::EqualEqual => "'=='"@,
        TokenType::Greater => "'>'"@,
        TokenType::GreaterEqual => "'>='"@,
        TokenType::Less => "'<'"@,
        TokenType::LessEqual => "'<='"@,
        TokenType::Identifier => "a name"@,
        TokenType::String => "a string"@,
        TokenType::Number => "a number"@,
        TokenType::And => "'and'"@,
        TokenType::Class => "'class'"@,
        TokenType::Else => "'else'"@,
        TokenType::False => "'false'"@,
        TokenType::Fun => "'fun'"@,
        TokenType::For => "'for'"@,
        TokenType::If => "'if'"@,
        TokenType::Nil => "'nil'"@,
        TokenType::Or => "'or'"@,
        TokenType::Print => "'print'"@,
        TokenType::Return => "'return'"@,
        TokenType::Super => "'super'"@,
        TokenType::This => "'this'"@,
        TokenType::True => "'true'"@,
        TokenType::Var => "'var'"@,
        TokenType::While => "'while'"@,
        TokenType::Lambda => "'lambda'"@,
        TokenType::Eof => "end of file"@,
    }
}

/// How a token of kind `kind` is called in a diagnostic.
pub fn symbol_of(kind: TokenType) -> (text: &'static str)
    ensures
        text@ == symbol(kind),
{
    match kind {
        TokenType::LeftParen => "'('",
        TokenType::RightParen => "')'",
        TokenType::LeftBrace => "'{'",
        TokenType::RightBrace => "'}'",
        TokenType::LeftBracket => "'['",
        TokenType::RightBracket => "']'",
        TokenType::Comma => "','",
        TokenType::Dot => "'.'",
        TokenType::Minus => "'-'",
        TokenType::Plus => "'+'",
        TokenType::Semicolon => "';'",
        TokenType::Slash => "'/'",
        TokenType::Star => "'*'",
        TokenType::Bang => "'!'",
        TokenType::BangEqual => "'!='",
        TokenType::Equal => "'='",
        TokenType::EqualEqual => "'=='",
        TokenType::Greater => "'>'",
        TokenType::GreaterEqual => "'>='",
        TokenType::Less => "'<'",
        TokenType::LessEqual => "'<='",
        TokenType::Identifier => "a name",
        TokenType::String => "a string",
        TokenType::Number => "a number",
        TokenType::And => "'and'",
        TokenType::Class => "'class'",
        TokenType::Else => "'else'",
        TokenType::False => "'false'",
        TokenType::Fun => "'fun'",
        TokenType::For => "'for'",
        TokenType::If => "'if'",
        TokenType::Nil => "'nil'",
        TokenType::Or => "'or'",
        TokenType::Print => "'print'",
        TokenType::Return => "'return'",
        TokenType::Super => "'super'",
        TokenType::This => "'this'",
        TokenType::True => "'true'",
        TokenType::Var => "'var'",
        TokenType::While => "'while'",
        TokenType::Lambda => "'lambda'",
        TokenType::Eof => "end of file",
    }
}

/// What a violation of kind `kind` is called in a diagnostic.
pub open spec fn syntax_message(kind: SyntaxErrorKind) -> Seq<char> {
    match kind {
        SyntaxErrorKind::ExpectedExpression => "Expect expression."@,
        SyntaxErrorKind::Expected(token) => "Expect "@ + symbol(token) + "."@,
        SyntaxErrorKind::InvalidAssignmentTarget => "Invalid assignment target."@,
    }
}

impl SyntaxError {
    /// What the violation is called in a diagnostic.
    pub fn message(&self) -> (text: String)
        ensures
            text@ == syntax_message(self.kind),
    {
        match self.kind {
            SyntaxErrorKind::ExpectedExpression => String::from_str("Expect expression."),
            SyntaxErrorKind::Expected(token) => {
                let mut text = String::from_str("Expect ");
                text.append(symbol_of(token));
                text.append(".");
                text
            },
            SyntaxErrorKind::InvalidAssignmentTarget => String::from_str(
                "Invalid assignment target.",
            ),
        }
    }

    /// The diagnostic line for this violation.
    pub fn to_string(&self) -> (text: String)
        ensures
            text@ == diagnostic(self.line, syntax_message(self.kind)),
    {
        let message = self.message();
        report(self.line, message.as_str())
    }
}

} // verus!
