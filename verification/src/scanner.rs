//! The scanner: one pass over the source, left to right, with one character
//! of lookahead.

use vstd::prelude::*;
use crate::error::{LexicalError, LexicalErrorKind};
use crate::lexical::{
    closing_quote, comparison, errors_from, errors_of, has_char, in_class, is_alpha, is_digit,
    item_at, item_end, keyword, lemma_closing_quote, lemma_item_end, lemma_run_end,
    lemma_same_line, line_after, next_line, number_end, punctuation, run_end, token_at,
    tokens_from, tokens_of, CharClass, Lexed,
};
use crate::text::{chars_of, spells, text_of};
use crate::token::{Literal, Token, TokenType, TokenView};

verus! {

/// The views of a sequence of tokens.
pub open spec fn views(tokens: Seq<Token>) -> Seq<TokenView> {
    tokens.map_values(|t: Token| t@)
}

/// The tokens that the item at `pos` adds: one, or none.
pub open spec fn item_tokens(src: Seq<char>, pos: int, line: usize) -> Seq<TokenView> {
    match item_at(src, pos) {
        Lexed::Token(kind) => seq![token_at(src, pos, item_end(src, pos), kind, line)],
        _ => Seq::empty(),
    }
}

/// The faults that the item at `pos` adds: one, or none.
pub open spec fn item_errors(src: Seq<char>, pos: int, line: usize) -> Seq<LexicalError> {
    match item_at(src, pos) {
        Lexed::Fault(kind) => seq![LexicalError { kind, line }],
        _ => Seq::empty(),
    }
}

/// Whether `c` is a digit.
pub fn is_digit_char(c: char) -> (b: bool)
    ensures
        b == is_digit(c),
{
    '0' <= c && c <= '9'
}

/// Whether `c` may start a name.
pub fn is_alpha_char(c: char) -> (b: bool)
    ensures
        b == is_alpha(c),
{
    ('a' <= c && c <= 'z') || ('A' <= c && c <= 'Z') || c == '_'
}

/// Whether `c` belongs to `class`.
pub fn is_in_class(class: CharClass, c: char) -> (b: bool)
    ensures
        b == in_class(class, c),
{
    match class {
        CharClass::Digit => is_digit_char(c),
        CharClass::Word => is_alpha_char(c) || is_digit_char(c),
        CharClass::SameLine => c != '\n',
    }
}

/// The line after `line`, stopping at the largest number the machine holds.
pub fn line_below(line: usize) -> (next: usize)
    ensures
        next == next_line(line),
{
    if line < usize::MAX {
        line + 1
    } else {
        line
    }
}

/// A scanner over one source text.
///
/// `source[start..current]` is the item being read; `line` is the line of
/// `current`. Tokens and faults found so far are kept in the order found.
pub struct Scanner {
    pub source: Vec<char>,
    pub tokens: Vec<Token>,
    pub errors: Vec<LexicalError>,
    pub start: usize,
    pub current: usize,
    pub line: usize,
}

impl Scanner {
    /// The positions are in order and within the source.
    pub open spec fn wf(&self) -> bool {
        self.start <= self.current <= self.source@.len()
    }

    /// A scanner at the start of `source`, on line 1, with nothing found yet.
    pub fn new(source: String) -> (s: Scanner)
        ensures
            s.wf(),
            s.source@ == source@,
            s.tokens@.len() == 0,
            s.errors@.len() == 0,
            s.start == 0,
            s.current == 0,
            s.line == 1,
    {
        Scanner {
            source: chars_of(source.as_str()),
            tokens: Vec::new(),
            errors: Vec::new(),
            start: 0,
            current: 0,
            line: 1,
        }
    }

    /// Whether every character has been read.
    pub fn is_at_end(&self) -> (b: bool)
        ensures
            b == (self.current >= self.source@.len()),
    {
        self.current >= self.source.len()
    }

    /// Takes the next character.
    pub fn advance(&mut self) -> (c: char)
        requires
            old(self).wf(),
            old(self).current < old(self).source@.len(),
        ensures
            final(self).wf(),
            c == old(self).source@[old(self).current as int],
            final(self).current == old(self).current + 1,
            final(self).source == old(self).source,
            final(self).tokens == old(self).tokens,
            final(self).errors == old(self).errors,
            final(self).start == old(self).start,
            final(self).line == old(self).line,
    {
        let c = self.source[self.current];
        assert(self.source@.len() == self.source.len());
        self.current += 1;
        c
    }

    /// Takes the next character if it is `expected`.
    pub fn advance_if(&mut self, expected: char) -> (taken: bool)
        requires
            old(self).wf(),
        ensures
            final(self).wf(),
            taken == has_char(old(self).source@, old(self).current as int, expected),
            final(self).current == if taken {
                old(self).current + 1
            } else {
                old(self).current as int
            },
            final(self).source == old(self).source,
            final(self).tokens == old(self).tokens,
            final(self).errors == old(self).errors,
            final(self).start == old(self).start,
            final(self).line == old(self).line,
    {
        if self.current < self.source.len() && self.source[self.current] == expected {
            self.current += 1;
            true
        } else {
            false
        }
    }

    /// Takes characters for as long as they belong to `class`.
    pub fn advance_while(&mut self, class: CharClass)
        requires
            old(self).wf(),
        ensures
            final(self).wf(),
            final(self).current == run_end(old(self).source@, old(self).current as int, class),
            final(self).source == old(self).source,
            final(self).tokens == old(self).tokens,
            final(self).errors == old(self).errors,
            final(self).start == old(self).start,
            final(self).line == old(self).line,
    {
        while self.current < self.source.len() && is_in_class(class, self.source[self.current])
            invariant
                self.wf(),
                run_end(self.source@, self.current as int, class) == run_end(
                    old(self).source@,
                    old(self).current as int,
                    class,
                ),
                self.source == old(self).source,
                self.tokens == old(self).tokens,
                self.errors == old(self).errors,
                self.start == old(self).start,
                self.line == old(self).line,
            decreases self.source@.len() - self.current,
        {
            self.current += 1;
        }
    }

    /// Records the token of kind `token_type` that spans
    /// `source[start..current]` and starts on `line`.
    pub fn add_token(&mut self, token_type: TokenType, line: usize)
        requires
            old(self).wf(),
            token_type == TokenType::String ==> old(self).current - old(self).start >= 2,
        ensures
            final(self).wf(),
            views(final(self).tokens@) == views(old(self).tokens@).push(
                token_at(
                    old(self).source@,
                    old(self).start as int,
                    old(self).current as int,
                    token_type,
                    line,
                ),
            ),
            final(self).source == old(self).source,
            final(self).errors == old(self).errors,
            final(self).start == old(self).start,
            final(self).current == old(self).current,
            final(self).line == old(self).line,
    {
        let lexeme = text_of(&self.source, self.start, self.current);
        let literal = match token_type {
            TokenType::Identifier => Some(
                Literal::Identifier(text_of(&self.source, self.start, self.current)),
            ),
            TokenType::String => Some(
                Literal::Str(text_of(&self.source, self.start + 1, self.current - 1)),
            ),
            TokenType::Number => Some(
                Literal::Number(text_of(&self.source, self.start, self.current)),
            ),
            _ => None,
        };
        proof {
            let whole = self.source@.subrange(self.start as int, self.current as int);
            if token_type == TokenType::String {
                assert(whole.subrange(1, whole.len() - 1) =~= self.source@.subrange(
                    self.start + 1,
                    self.current - 1,
                ));
            }
        }
        let token = Token::new(token_type, lexeme, literal, line);
        self.tokens.push(token);
        assert(views(self.tokens@) =~= views(old(self).tokens@).push(token@));
    }

    /// Records a fault at `line`.
    pub fn add_error(&mut self, kind: LexicalErrorKind, line: usize)
        ensures
            final(self).errors@ == old(self).errors@.push(LexicalError { kind, line }),
            final(self).source == old(self).source,
            final(self).tokens == old(self).tokens,
            final(self).start == old(self).start,
            final(self).current == old(self).current,
            final(self).line == old(self).line,
    {
        self.errors.push(LexicalError { kind, line });
    }
}

/// The keyword that `v[from..to]` spells, if it spells one.
pub fn keyword_kind(v: &Vec<char>, from: usize, to: usize) -> (kind: Option<TokenType>)
    requires
        from <= to <= v@.len(),
    ensures
        kind == keyword(v@.subrange(from as int, to as int)),
{
    if spells(v, from, to, "and") {
        Some(TokenType::And)
    } else if spells(v, from, to, "class") {
        Some(TokenType::Class)
    } else if spells(v, from, to, "else") {
        Some(TokenType::Else)
    } else if spells(v, from, to, "false") {
        Some(TokenType::False)
    } else if spells(v, from, to, "fun") {
        Some(TokenType::Fun)
    } else if spells(v, from, to, "for") {
        Some(TokenType::For)
    } else if spells(v, from, to, "if") {
        Some(TokenType::If)
    } else if spells(v, from, to, "nil") {
        Some(TokenType::Nil)
    } else if spells(v, from, to, "or") {
        Some(TokenType::Or)
    } else if spells(v, from, to, "print") {
        Some(TokenType::Print)
    } else if spells(v, from, to, "return") {
        Some(TokenType::Return)
    } else if spells(v, from, to, "super") {
        Some(TokenType::Super)
    } else if spells(v, from, to, "this") {
        Some(TokenType::This)
    } else if spells(v, from, to, "true") {
        Some(TokenType::True)
    } else if spells(v, from, to, "var") {
        Some(TokenType::Var)
    } else if spells(v, from, to, "while") {
        Some(TokenType::While)
    } else if spells(v, from, to, "lambda") {
        Some(TokenType::Lambda)
    } else {
        None
    }
}

/// The kind of the one-character token `c`, if it is one.
pub fn punctuation_kind(c: char) -> (kind: Option<TokenType>)
    ensures
        kind == punctuation(c),
{
    match c {
        '(' => Some(TokenType::LeftParen),
        ')' => Some(TokenType::RightParen),
        '{' => Some(TokenType::LeftBrace),
        '}' => Some(TokenType::RightBrace),
        '[' => Some(TokenType::LeftBracket),
        ']' => Some(TokenType::RightBracket),
        ',' => Some(TokenType::Comma),
        '.' => Some(TokenType::Dot),
        '-' => Some(TokenType::Minus),
        '+' => Some(TokenType::Plus),
        ';' => Some(TokenType::Semicolon),
        '*' => Some(TokenType::Star),
        _ => None,
    }
}

/// The kind of the operator `c`, alone or with a `=` behind it, if `c` is
/// an operator that may take one.
pub fn comparison_kind(c: char, with_equal: bool) -> (kind: Option<TokenType>)
    ensures
        kind == comparison(c, with_equal),
{
    match c {
        '!' => Some(if with_equal { TokenType::BangEqual } else { TokenType::Bang }),
        '=' => Some(if with_equal { TokenType::EqualEqual } else { TokenType::Equal }),
        '<' => Some(if with_equal { TokenType::LessEqual } else { TokenType::Less }),
        '>' => Some(if with_equal { TokenType::GreaterEqual } else { TokenType::Greater }),
        _ => None,
    }
}

impl Scanner {
    /// Reads the rest of a string whose opening quote was just taken.
    pub fn string(&mut self)
        requires
            old(self).wf(),
            old(self).current == old(self).start + 1,
            old(self).source@[old(self).start as int] == '"',
        ensures
            final(self).wf(),
            final(self).source == old(self).source,
            final(self).start == old(self).start,
            final(self).current == item_end(old(self).source@, old(self).start as int),
            final(self).line == line_after(
                old(self).source@,
                old(self).start as int,
                final(self).current as int,
                old(self).line,
            ),
            views(final(self).tokens@) == views(old(self).tokens@) + item_tokens(
                old(self).source@,
                old(self).start as int,
                old(self).line,
            ),
            final(self).errors@ == old(self).errors@ + item_errors(
                old(self).source@,
                old(self).start as int,
                old(self).line,
            ),
    {
        let first_line = self.line;
        let n = self.source.len();
        proof {
            lemma_same_line(self.source@, self.start as int, self.current as int, first_line);
        }
        while self.current < n && self.source[self.current] != '"'
            invariant
                self.wf(),
                n == self.source@.len(),
                self.start < self.current,
                self.source == old(self).source,
                self.tokens == old(self).tokens,
                self.errors == old(self).errors,
                self.start == old(self).start,
                closing_quote(self.source@, self.current as int) == closing_quote(
                    self.source@,
                    self.start + 1,
                ),
                self.line == line_after(
                    self.source@,
                    self.start as int,
                    self.current as int,
                    first_line,
                ),
            decreases n - self.current,
        {
            if self.source[self.current] == '\\' && self.current + 1 < n {
                self.current += 1;
                assert(self.line == line_after(
                    self.source@,
                    self.start as int,
                    self.current as int,
                    first_line,
                ));
            }
            if self.source[self.current] == '\n' {
                self.line = line_below(self.line);
            }
            self.current += 1;
        }
        proof {
            lemma_closing_quote(self.source@, self.current as int);
        }
        if self.current >= n {
            self.add_error(LexicalErrorKind::UnterminatedString, first_line);
            assert(views(self.tokens@) =~= views(old(self).tokens@) + Seq::empty());
        } else {
            self.current += 1;
            self.add_token(TokenType::String, first_line);
            assert(self.errors@ =~= old(self).errors@ + Seq::empty());
            assert(views(self.tokens@) =~= views(old(self).tokens@) + item_tokens(
                old(self).source@,
                old(self).start as int,
                old(self).line,
            ));
        }
    }

    /// Reads the rest of a number whose first digit was just taken.
    pub fn number(&mut self)
        requires
            old(self).wf(),
            old(self).current == old(self).start + 1,
            is_digit(old(self).source@[old(self).start as int]),
        ensures
            final(self).wf(),
            final(self).source == old(self).source,
            final(self).start == old(self).start,
            final(self).current == number_end(old(self).source@, old(self).start as int),
            final(self).line == old(self).line,
            final(self).errors == old(self).errors,
            views(final(self).tokens@) == views(old(self).tokens@).push(
                token_at(
                    old(self).source@,
                    old(self).start as int,
                    final(self).current as int,
                    TokenType::Number,
                    old(self).line,
                ),
            ),
    {
        self.advance_while(CharClass::Digit);
        proof {
            lemma_run_end(self.source@, self.start + 1, CharClass::Digit);
        }
        let n = self.source.len();
        if self.current < n && self.source[self.current] == '.' && self.current + 1 < n
            && is_digit_char(self.source[self.current + 1]) {
            self.current += 1;
            self.advance_while(CharClass::Digit);
            proof {
                lemma_run_end(self.source@, self.current as int, CharClass::Digit);
                let whole = run_end(self.source@, self.start as int, CharClass::Digit);
                lemma_run_end(self.source@, whole + 1, CharClass::Digit);
            }
        }
        let line = self.line;
        self.add_token(TokenType::Number, line);
    }

    /// Reads the rest of a word whose first character was just taken, and
    /// records it as a keyword or an identifier.
    pub fn identifier(&mut self)
        requires
            old(self).wf(),
            old(self).current == old(self).start + 1,
            is_alpha(old(self).source@[old(self).start as int]),
        ensures
            final(self).wf(),
            final(self).source == old(self).source,
            final(self).start == old(self).start,
            final(self).current == run_end(
                old(self).source@,
                old(self).start as int,
                CharClass::Word,
            ),
            final(self).line == old(self).line,
            final(self).errors == old(self).errors,
            views(final(self).tokens@) == views(old(self).tokens@).push(
                token_at(
                    old(self).source@,
                    old(self).start as int,
                    final(self).current as int,
                    match keyword(
                        old(self).source@.subrange(
                            old(self).start as int,
                            final(self).current as int,
                        ),
                    ) {
                        Some(k) => k,
                        None => TokenType::Identifier,
                    },
                    old(self).line,
                ),
            ),
    {
        self.advance_while(CharClass::Word);
        proof {
            lemma_run_end(self.source@, self.start + 1, CharClass::Word);
        }
        let kind = match keyword_kind(&self.source, self.start, self.current) {
            Some(k) => k,
            None => TokenType::Identifier,
        };
        proof {
            lemma_keyword_is_not_a_string(
                self.source@.subrange(self.start as int, self.current as int),
            );
        }
        let line = self.line;
        self.add_token(kind, line);
    }
}

/// No keyword is of the kind of a string literal.
pub proof fn lemma_keyword_is_not_a_string(word: Seq<char>)
    ensures
        keyword(word) != Some(TokenType::String),
{
}

impl Scanner {
    /// Reads one lexical item, starting at `current`: records the token or
    /// the fault it gives, if any, and moves past it.
    pub fn scan_token(&mut self)
        requires
            old(self).wf(),
            old(self).start == old(self).current,
            old(self).current < old(self).source@.len(),
        ensures
            final(self).wf(),
            final(self).source == old(self).source,
            final(self).start == old(self).start,
            final(self).current == item_end(old(self).source@, old(self).current as int),
            final(self).line == line_after(
                old(self).source@,
                old(self).current as int,
                final(self).current as int,
                old(self).line,
            ),
            views(final(self).tokens@) == views(old(self).tokens@) + item_tokens(
                old(self).source@,
                old(self).current as int,
                old(self).line,
            ),
            final(self).errors@ == old(self).errors@ + item_errors(
                old(self).source@,
                old(self).current as int,
                old(self).line,
            ),
    {
        let ghost src = self.source@;
        let ghost pos = self.current as int;
        let line = self.line;
        let c = self.advance();
        if let Some(kind) = punctuation_kind(c) {
            self.add_token(kind, line);
            proof {
                lemma_same_line(src, pos, pos + 1, line);
            }
            assert(self.errors@ =~= old(self).errors@ + Seq::empty());
        } else if comparison_kind(c, false).is_some() {
            let with_equal = self.advance_if('=');
            let kind = comparison_kind(c, with_equal).unwrap();
            self.add_token(kind, line);
            proof {
                lemma_same_line(src, pos, self.current as int, line);
            }
            assert(self.errors@ =~= old(self).errors@ + Seq::empty());
        } else if c == '/' {
            if self.advance_if('/') {
                self.advance_while(CharClass::SameLine);
                proof {
                    lemma_run_end(src, pos + 2, CharClass::SameLine);
                    lemma_same_line(src, pos, self.current as int, line);
                }
                assert(views(self.tokens@) =~= views(old(self).tokens@) + Seq::empty());
            } else {
                self.add_token(TokenType::Slash, line);
                proof {
                    lemma_same_line(src, pos, pos + 1, line);
                }
            }
            assert(self.errors@ =~= old(self).errors@ + Seq::empty());
        } else if c == ' ' || c == '\r' || c == '\t' {
            proof {
                lemma_same_line(src, pos, pos + 1, line);
            }
            assert(views(self.tokens@) =~= views(old(self).tokens@) + Seq::empty());
            assert(self.errors@ =~= old(self).errors@ + Seq::empty());
        } else if c == '\n' {
            self.line = line_below(line);
            assert(line_after(src, pos, pos, line) == line);
            assert(views(self.tokens@) =~= views(old(self).tokens@) + Seq::empty());
            assert(self.errors@ =~= old(self).errors@ + Seq::empty());
        } else if c == '"' {
            self.string();
        } else if is_digit_char(c) {
            self.number();
            proof {
                lemma_item_end(src, pos);
                lemma_number_on_one_line(src, pos);
                lemma_same_line(src, pos, self.current as int, line);
            }
            assert(self.errors@ =~= old(self).errors@ + Seq::empty());
        } else if is_alpha_char(c) {
            self.identifier();
            proof {
                lemma_run_end(src, pos, CharClass::Word);
                lemma_same_line(src, pos, self.current as int, line);
            }
            assert(self.errors@ =~= old(self).errors@ + Seq::empty());
        } else {
            self.add_error(LexicalErrorKind::UnexpectedCharacter(c), line);
            proof {
                lemma_same_line(src, pos, pos + 1, line);
            }
            assert(views(self.tokens@) =~= views(old(self).tokens@) + Seq::empty());
        }
    }

    /// Reads the source from `current` to its end and closes the token
    /// sequence with the end-of-file token. Never fails: a fault is recorded
    /// and reading goes on behind it.
    pub fn scan_tokens(&mut self) -> (found: &Vec<Token>)
        requires
            old(self).wf(),
        ensures
            final(self).wf(),
            final(self).source == old(self).source,
            final(self).current == final(self).source@.len(),
            views(final(self).tokens@) == views(old(self).tokens@) + tokens_from(
                old(self).source@,
                old(self).current as int,
                old(self).line,
            ),
            final(self).errors@ == old(self).errors@ + errors_from(
                old(self).source@,
                old(self).current as int,
                old(self).line,
            ),
            found == final(self).tokens,
    {
        let ghost src = self.source@;
        while !self.is_at_end()
            invariant
                self.wf(),
                self.source == old(self).source,
                src == self.source@,
                views(self.tokens@) + tokens_from(src, self.current as int, self.line) == views(
                    old(self).tokens@,
                ) + tokens_from(src, old(self).current as int, old(self).line),
                self.errors@ + errors_from(src, self.current as int, self.line) == old(
                    self,
                ).errors@ + errors_from(src, old(self).current as int, old(self).line),
            decreases self.source@.len() - self.current,
        {
            self.start = self.current;
            let ghost before = *self;
            proof {
                lemma_item_end(src, self.current as int);
            }
            self.scan_token();
            proof {
                let pos = before.current as int;
                let rest = tokens_from(src, self.current as int, self.line);
                assert(tokens_from(src, pos, before.line) =~= item_tokens(src, pos, before.line)
                    + rest);
                assert(views(self.tokens@) + rest =~= views(before.tokens@) + tokens_from(
                    src,
                    pos,
                    before.line,
                ));
                let more = errors_from(src, self.current as int, self.line);
                assert(errors_from(src, pos, before.line) =~= item_errors(src, pos, before.line)
                    + more);
                assert(self.errors@ + more =~= before.errors@ + errors_from(
                    src,
                    pos,
                    before.line,
                ));
            }
        }
        let line = self.line;
        let eof = Token::new(TokenType::Eof, String::new(), None, line);
        self.tokens.push(eof);
        proof {
            assert(views(self.tokens@) =~= views(old(self).tokens@) + tokens_from(
                src,
                old(self).current as int,
                old(self).line,
            ));
            assert(self.errors@ =~= old(self).errors@ + errors_from(
                src,
                old(self).current as int,
                old(self).line,
            ));
        }
        &self.tokens
    }
}

/// A number holds no line feed.
pub proof fn lemma_number_on_one_line(src: Seq<char>, pos: int)
    requires
        0 <= pos < src.len(),
        is_digit(src[pos]),
    ensures
        forall|i: int| pos <= i < number_end(src, pos) ==> #[trigger] src[i] != '\n',
{
    lemma_run_end(src, pos, CharClass::Digit);
    let whole = run_end(src, pos, CharClass::Digit);
    if whole + 1 <= src.len() {
        lemma_run_end(src, whole + 1, CharClass::Digit);
    }
}

/// What scanning a text gives: its tokens, closed by the end-of-file token,
/// and its lexical faults, each in source order.
pub struct Scanned {
    pub tokens: Vec<Token>,
    pub errors: Vec<LexicalError>,
}

/// Scans `source` from its first character to its last.
pub fn scan(source: &str) -> (out: Scanned)
    ensures
        views(out.tokens@) == tokens_of(source@),
        out.errors@ == errors_of(source@),
{
    let mut scanner = Scanner::new(source.to_owned());
    let _ = scanner.scan_tokens();
    assert(views(scanner.tokens@) =~= tokens_of(source@));
    assert(scanner.errors@ =~= errors_of(source@));
    Scanned { tokens: scanner.tokens, errors: scanner.errors }
}

} // verus!
