//! The lexical structure of source text, stated over sequences of characters.
//!
//! Everything here is mathematics: it says which tokens and which faults a
//! text holds, independently of how a scanner walks over it.

use vstd::prelude::*;
use crate::error::{LexicalError, LexicalErrorKind};
use crate::token::{LiteralView, TokenType, TokenView};

verus! {

/// `0` to `9`.
pub open spec fn is_digit(c: char) -> bool {
    '0' <= c && c <= '9'
}

/// A letter of the basic alphabet, or the underscore.
pub open spec fn is_alpha(c: char) -> bool {
    ('a' <= c && c <= 'z') || ('A' <= c && c <= 'Z') || c == '_'
}

/// Blank space: space, carriage return, tab and line feed.
pub open spec fn is_space(c: char) -> bool {
    c == ' ' || c == '\r' || c == '\t' || c == '\n'
}

/// A set of characters that a maximal run is made of.
#[derive(Eq, PartialEq, Debug, Copy, Clone, Structural)]
pub enum CharClass {
    /// `0` to `9`.
    Digit,
    /// Letters, digits and the underscore.
    Word,
    /// Everything but the line feed.
    SameLine,
}

/// Whether `c` belongs to `class`.
pub open spec fn in_class(class: CharClass, c: char) -> bool {
    match class {
        CharClass::Digit => is_digit(c),
        CharClass::Word => is_alpha(c) || is_digit(c),
        CharClass::SameLine => c != '\n',
    }
}

/// The first position at or after `pos` whose character is not in `class`,
/// or the length of `src` if there is none.
pub open spec fn run_end(src: Seq<char>, pos: int, class: CharClass) -> int
    decreases src.len() - pos,
{
    if 0 <= pos < src.len() && in_class(class, src[pos]) {
        run_end(src, pos + 1, class)
    } else {
        pos
    }
}

/// The position of the quote that closes a string whose content starts at
/// `pos`, or the length of `src` if the string is never closed. A backslash
/// takes the character after it along, so an escaped quote does not close.
pub open spec fn closing_quote(src: Seq<char>, pos: int) -> int
    decreases src.len() - pos,
{
    if pos < 0 || pos >= src.len() {
        src.len() as int
    } else if src[pos] == '"' {
        pos
    } else if src[pos] == '\\' && pos + 1 < src.len() {
        closing_quote(src, pos + 2)
    } else {
        closing_quote(src, pos + 1)
    }
}

/// Whether the character at `pos` exists and is `c`.
pub open spec fn has_char(src: Seq<char>, pos: int, c: char) -> bool {
    0 <= pos < src.len() && src[pos] == c
}

/// Where the number that starts at `pos` ends: after its digits, and after a
/// fraction if a dot with at least one digit behind it follows.
pub open spec fn number_end(src: Seq<char>, pos: int) -> int {
    let whole = run_end(src, pos, CharClass::Digit);
    if has_char(src, whole, '.') && whole + 1 < src.len() && is_digit(src[whole + 1]) {
        run_end(src, whole + 1, CharClass::Digit)
    } else {
        whole
    }
}

/// The kind of a token that is always one character long.
pub open spec fn punctuation(c: char) -> Option<TokenType> {
    if c == '(' {
        Some(TokenType::LeftParen)
    } else if c == ')' {
        Some(TokenType::RightParen)
    } else if c == '{' {
        Some(TokenType::LeftBrace)
    } else if c == '}' {
        Some(TokenType::RightBrace)
    } else if c == '[' {
        Some(TokenType::LeftBracket)
    } else if c == ']' {
        Some(TokenType::RightBracket)
    } else if c == ',' {
        Some(TokenType::Comma)
    } else if c == '.' {
        Some(TokenType::Dot)
    } else if c == '-' {
        Some(TokenType::Minus)
    } else if c == '+' {
        Some(TokenType::Plus)
    } else if c == ';' {
        Some(TokenType::Semicolon)
    } else if c == '*' {
        Some(TokenType::Star)
    } else {
        None
    }
}

/// The kind of an operator that may take a `=` behind it: `c` alone, or `c`
/// with the `=` where `with_equal` holds.
pub open spec fn comparison(c: char, with_equal: bool) -> Option<TokenType> {
    if c == '!' {
        Some(if with_equal { TokenType::BangEqual } else { TokenType::Bang })
    } else if c == '=' {
        Some(if with_equal { TokenType::EqualEqual } else { TokenType::Equal })
    } else if c == '<' {
        Some(if with_equal { TokenType::LessEqual } else { TokenType::Less })
    } else if c == '>' {
        Some(if with_equal { TokenType::GreaterEqual } else { TokenType::Greater })
    } else {
        None
    }
}

/// The keyword that `word` spells, if it spells one.
pub open spec fn keyword(word: Seq<char>) -> Option<TokenType> {
    if word == "and"@ {
        Some(TokenType::And)
    } else if word == "class"@ {
        Some(TokenType::Class)
    } else if word == "else"@ {
        Some(TokenType::Else)
    } else if word == "false"@ {
        Some(TokenType::False)
    } else if word == "fun"@ {
        Some(TokenType::Fun)
    } else if word == "for"@ {
        Some(TokenType::For)
    } else if word == "if"@ {
        Some(TokenType::If)
    } else if word == "nil"@ {
        Some(TokenType::Nil)
    } else if word == "or"@ {
        Some(TokenType::Or)
    } else if word == "print"@ {
        Some(TokenType::Print)
    } else if word == "return"@ {
        Some(TokenType::Return)
    } else if word == "super"@ {
        Some(TokenType::Super)
    } else if word == "this"@ {
        Some(TokenType::This)
    } else if word == "true"@ {
        Some(TokenType::True)
    } else if word == "var"@ {
        Some(TokenType::Var)
    } else if word == "while"@ {
        Some(TokenType::While)
    } else if word == "lambda"@ {
        Some(TokenType::Lambda)
    } else {
        None
    }
}

/// What one lexical item is: a token of some kind, text that yields nothing
/// (blank space, a comment), or a fault.
pub enum Lexed {
    Token(TokenType),
    Blank,
    Fault(LexicalErrorKind),
}

/// Where the lexical item that starts at `pos` ends.
pub open spec fn item_end(src: Seq<char>, pos: int) -> int
    recommends
        0 <= pos < src.len(),
{
    let c = src[pos];
    if comparison(c, false) is Some {
        if has_char(src, pos + 1, '=') {
            pos + 2
        } else {
            pos + 1
        }
    } else if c == '/' && has_char(src, pos + 1, '/') {
        run_end(src, pos + 2, CharClass::SameLine)
    } else if c == '"' {
        let close = closing_quote(src, pos + 1);
        if close < src.len() {
            close + 1
        } else {
            src.len() as int
        }
    } else if is_digit(c) {
        number_end(src, pos)
    } else if is_alpha(c) {
        run_end(src, pos, CharClass::Word)
    } else {
        pos + 1
    }
}

/// What the lexical item that starts at `pos` is.
pub open spec fn item_at(src: Seq<char>, pos: int) -> Lexed
    recommends
        0 <= pos < src.len(),
{
    let c = src[pos];
    if punctuation(c) is Some {
        Lexed::Token(punctuation(c)->0)
    } else if comparison(c, false) is Some {
        Lexed::Token(comparison(c, has_char(src, pos + 1, '='))->0)
    } else if c == '/' {
        if has_char(src, pos + 1, '/') {
            Lexed::Blank
        } else {
            Lexed::Token(TokenType::Slash)
        }
    } else if is_space(c) {
        Lexed::Blank
    } else if c == '"' {
        if closing_quote(src, pos + 1) < src.len() {
            Lexed::Token(TokenType::String)
        } else {
            Lexed::Fault(LexicalErrorKind::UnterminatedString)
        }
    } else if is_digit(c) {
        Lexed::Token(TokenType::Number)
    } else if is_alpha(c) {
        match keyword(src.subrange(pos, item_end(src, pos))) {
            Some(k) => Lexed::Token(k),
            None => Lexed::Token(TokenType::Identifier),
        }
    } else {
        Lexed::Fault(LexicalErrorKind::UnexpectedCharacter(c))
    }
}

/// The payload of a token of kind `kind` whose text is `lexeme`.
pub open spec fn literal_of(kind: TokenType, lexeme: Seq<char>) -> Option<LiteralView> {
    match kind {
        TokenType::Identifier => Some(LiteralView::Identifier(lexeme)),
        TokenType::String => Some(LiteralView::Str(lexeme.subrange(1, lexeme.len() - 1))),
        TokenType::Number => Some(LiteralView::Number(lexeme)),
        _ => None,
    }
}

/// The token of kind `kind` that spans `src[pos..end]` and starts on `line`.
pub open spec fn token_at(src: Seq<char>, pos: int, end: int, kind: TokenType, line: usize)
    -> TokenView {
    let lexeme = src.subrange(pos, end);
    TokenView { token_type: kind, lexeme, literal: literal_of(kind, lexeme), line }
}

/// The token that closes every token sequence.
pub open spec fn eof_token(line: usize) -> TokenView {
    TokenView { token_type: TokenType::Eof, lexeme: Seq::empty(), literal: None, line }
}

/// The line after `line`. The counter stops at the largest number the
/// machine can hold.
pub open spec fn next_line(line: usize) -> usize {
    if line < usize::MAX {
        (line + 1) as usize
    } else {
        line
    }
}

/// The line reached from `line` after reading `src[from..to]`: one further
/// for each line feed read.
pub open spec fn line_after(src: Seq<char>, from: int, to: int, line: usize) -> usize
    decreases to - from,
{
    if from >= to {
        line
    } else {
        let before = line_after(src, from, to - 1, line);
        if src[to - 1] == '\n' {
            next_line(before)
        } else {
            before
        }
    }
}

/// The tokens of `src[pos..]`, read from line `line` on, closed by the
/// end-of-file token.
pub open spec fn tokens_from(src: Seq<char>, pos: int, line: usize) -> Seq<TokenView>
    decreases src.len() - pos,
{
    if pos < 0 || pos >= src.len() {
        seq![eof_token(line)]
    } else {
        let end = item_end(src, pos);
        if end <= pos || end > src.len() {
            seq![eof_token(line)]
        } else {
            let rest = tokens_from(src, end, line_after(src, pos, end, line));
            match item_at(src, pos) {
                Lexed::Token(kind) => seq![token_at(src, pos, end, kind, line)] + rest,
                _ => rest,
            }
        }
    }
}

/// The faults of `src[pos..]`, read from line `line` on, each at the line
/// its item starts on.
pub open spec fn errors_from(src: Seq<char>, pos: int, line: usize) -> Seq<LexicalError>
    decreases src.len() - pos,
{
    if pos < 0 || pos >= src.len() {
        Seq::empty()
    } else {
        let end = item_end(src, pos);
        if end <= pos || end > src.len() {
            Seq::empty()
        } else {
            let rest = errors_from(src, end, line_after(src, pos, end, line));
            match item_at(src, pos) {
                Lexed::Fault(kind) => seq![LexicalError { kind, line }] + rest,
                _ => rest,
            }
        }
    }
}

/// The tokens of a whole source text.
pub open spec fn tokens_of(src: Seq<char>) -> Seq<TokenView> {
    tokens_from(src, 0, 1)
}

/// The faults of a whole source text.
pub open spec fn errors_of(src: Seq<char>) -> Seq<LexicalError> {
    errors_from(src, 0, 1)
}

/// A run ends at or after its start and within the text, and everything in
/// between belongs to the class.
pub proof fn lemma_run_end(src: Seq<char>, pos: int, class: CharClass)
    requires
        0 <= pos <= src.len(),
    ensures
        pos <= run_end(src, pos, class) <= src.len(),
        forall|i: int| pos <= i < run_end(src, pos, class) ==> in_class(class, #[trigger] src[i]),
        run_end(src, pos, class) < src.len() ==> !in_class(
            class,
            src[run_end(src, pos, class)],
        ),
    decreases src.len() - pos,
{
    if pos < src.len() && in_class(class, src[pos]) {
        lemma_run_end(src, pos + 1, class);
    }
}

/// The closing quote of a string lies at or after the start of its content
/// and within the text, or is missing.
pub proof fn lemma_closing_quote(src: Seq<char>, pos: int)
    requires
        0 <= pos <= src.len(),
    ensures
        pos <= closing_quote(src, pos) <= src.len(),
        closing_quote(src, pos) < src.len() ==> src[closing_quote(src, pos)] == '"',
    decreases src.len() - pos,
{
    if pos < src.len() && src[pos] != '"' {
        if src[pos] == '\\' && pos + 1 < src.len() {
            lemma_closing_quote(src, pos + 2);
        } else {
            lemma_closing_quote(src, pos + 1);
        }
    }
}

/// Every lexical item is at least one character long and ends within the
/// text.
pub proof fn lemma_item_end(src: Seq<char>, pos: int)
    requires
        0 <= pos < src.len(),
    ensures
        pos < item_end(src, pos) <= src.len(),
{
    let c = src[pos];
    if pos + 2 <= src.len() {
        lemma_run_end(src, pos + 2, CharClass::SameLine);
    }
    lemma_closing_quote(src, pos + 1);
    lemma_run_end(src, pos, CharClass::Digit);
    lemma_run_end(src, pos, CharClass::Word);
    let whole = run_end(src, pos, CharClass::Digit);
    if is_digit(c) && whole + 1 <= src.len() {
        lemma_run_end(src, whole + 1, CharClass::Digit);
    }
}

/// Reading text that holds no line feed leaves the line as it is.
pub proof fn lemma_same_line(src: Seq<char>, from: int, to: int, line: usize)
    requires
        0 <= from <= to <= src.len(),
        forall|i: int| from <= i < to ==> #[trigger] src[i] != '\n',
    ensures
        line_after(src, from, to, line) == line,
    decreases to - from,
{
    if from < to {
        lemma_same_line(src, from, to - 1, line);
    }
}

} // verus!
