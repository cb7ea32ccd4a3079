//! The grammar, stated as a function from tokens to a syntax tree.
//!
//! Everything here is mathematics. A parse is described by the state it
//! starts in, the state it ends in and what it gives: the place of the node
//! it made, or the violation it met.
//!
//! From lowest to highest precedence: assignment (right-associative), `or`,
//! `and`, equality, comparison, addition, multiplication (all
//! left-associative), the unary operators, calls and property access, and
//! the primary expressions.

use vstd::prelude::*;
use crate::ast::{place_of, with_text, BinaryOp, Node, UnaryOp};
use crate::error::{SyntaxError, SyntaxErrorKind};
use crate::token::{LiteralView, TokenType, TokenView};

verus! {

/// The state of a parse: the place of the next token, the two tables of the
/// syntax tree, and the violations met so far.
pub struct ParserView {
    pub pos: int,
    pub nodes: Seq<Node>,
    pub texts: Seq<Seq<char>>,
    pub errors: Seq<SyntaxError>,
}

/// The kind of the token at `pos`; behind the last token, end of file.
pub open spec fn kind_at(tokens: Seq<TokenView>, pos: int) -> TokenType {
    if 0 <= pos < tokens.len() {
        tokens[pos].token_type
    } else {
        TokenType::Eof
    }
}

/// The line of the token at `pos`; behind the last token, the line of the
/// last token, or 1 where there is none.
pub open spec fn line_at(tokens: Seq<TokenView>, pos: int) -> usize {
    if 0 <= pos < tokens.len() {
        tokens[pos].line
    } else if tokens.len() > 0 {
        tokens.last().line
    } else {
        1
    }
}

/// The text that the token at `pos` stands for: the content of a string,
/// the lexeme of anything else.
pub open spec fn text_at(tokens: Seq<TokenView>, pos: int) -> Seq<char> {
    if 0 <= pos < tokens.len() {
        match tokens[pos].literal {
            Some(LiteralView::Str(content)) => content,
            _ => tokens[pos].lexeme,
        }
    } else {
        Seq::empty()
    }
}

/// How many places lie between `pos` and the end of the tokens.
pub open spec fn remaining(tokens: Seq<TokenView>, pos: int) -> nat {
    if pos < tokens.len() {
        (tokens.len() - pos) as nat
    } else {
        0
    }
}

/// The violation of kind `kind` at the token at `pos`.
pub open spec fn violation(tokens: Seq<TokenView>, pos: int, kind: SyntaxErrorKind)
    -> SyntaxError {
    SyntaxError { kind, line: line_at(tokens, pos) }
}

impl ParserView {
    /// The state one token further.
    pub open spec fn advanced(self) -> ParserView {
        ParserView { pos: self.pos + 1, ..self }
    }

    /// The state that follows `self` after a part was parsed up to `next`:
    /// `next` itself where it stands at or behind `self`. The other case is
    /// there to make the number of remaining tokens a measure for the
    /// grammar's recursion; it never arises, since no rule moves backwards,
    /// as the contract of each function of the parser shows.
    pub open spec fn onward(self, next: ParserView) -> ParserView {
        if next.pos >= self.pos {
            next
        } else {
            ParserView { pos: self.pos, ..next }
        }
    }

    /// The state with `node` at the end of the table of nodes, and the place
    /// of `node`.
    pub open spec fn put(self, node: Node) -> (ParserView, usize) {
        (ParserView { nodes: self.nodes.push(node), ..self }, self.nodes.len() as usize)
    }

    /// The state with `text` in the table of texts, and the place of `text`.
    pub open spec fn intern(self, text: Seq<char>) -> (ParserView, usize) {
        (
            ParserView { texts: with_text(self.texts, text), ..self },
            place_of(self.texts, text) as usize,
        )
    }

    /// The state with the list of `items` in the table of nodes, and the
    /// place of its first cell.
    pub open spec fn put_list(self, items: Seq<usize>) -> (ParserView, usize) {
        let nodes = with_list(self.nodes, items);
        (ParserView { nodes, ..self }, (nodes.len() - 1) as usize)
    }
}

/// `nodes` with the cells of the list of `items` at its end: the empty list
/// first, the first cell of the whole list last.
pub open spec fn with_list(nodes: Seq<Node>, items: Seq<usize>) -> Seq<Node>
    decreases items.len(),
{
    if items.len() == 0 {
        nodes.push(Node::Empty)
    } else {
        let shorter = with_list(nodes, items.drop_first());
        shorter.push(Node::Cons { head: items.first(), tail: (shorter.len() - 1) as usize })
    }
}

/// Takes the token at the state's place if it is of kind `kind`, and gives
/// its place; otherwise gives the violation that `kind` was expected.
pub open spec fn expect(tokens: Seq<TokenView>, s: ParserView, kind: TokenType) -> (
    ParserView,
    Result<usize, SyntaxError>,
) {
    if kind != TokenType::Eof && kind_at(tokens, s.pos) == kind {
        (s.advanced(), Ok(s.pos as usize))
    } else {
        (s, Err(violation(tokens, s.pos, SyntaxErrorKind::Expected(kind))))
    }
}

/// The binary operator that a token of kind `kind` is, if it is one.
pub open spec fn binary_op(kind: TokenType) -> Option<BinaryOp> {
    match kind {
        TokenType::Or => Some(BinaryOp::Or),
        TokenType::And => Some(BinaryOp::And),
        TokenType::EqualEqual => Some(BinaryOp::Equal),
        TokenType::BangEqual => Some(BinaryOp::NotEqual),
        TokenType::Less => Some(BinaryOp::Less),
        TokenType::LessEqual => Some(BinaryOp::LessEqual),
        TokenType::Greater => Some(BinaryOp::Greater),
        TokenType::GreaterEqual => Some(BinaryOp::GreaterEqual),
        TokenType::Plus => Some(BinaryOp::Add),
        TokenType::Minus => Some(BinaryOp::Subtract),
        TokenType::Star => Some(BinaryOp::Multiply),
        TokenType::Slash => Some(BinaryOp::Divide),
        _ => None,
    }
}

/// How tightly a binary operator binds: the higher, the tighter.
pub open spec fn level(op: BinaryOp) -> nat {
    match op {
        BinaryOp::Or => 1,
        BinaryOp::And => 2,
        BinaryOp::Equal | BinaryOp::NotEqual => 3,
        BinaryOp::Less | BinaryOp::LessEqual | BinaryOp::Greater | BinaryOp::GreaterEqual => 4,
        BinaryOp::Add | BinaryOp::Subtract => 5,
        BinaryOp::Multiply | BinaryOp::Divide => 6,
    }
}

/// The unary operator that a token of kind `kind` is, if it is one.
pub open spec fn unary_op(kind: TokenType) -> Option<UnaryOp> {
    match kind {
        TokenType::Bang => Some(UnaryOp::Not),
        TokenType::Minus => Some(UnaryOp::Negate),
        _ => None,
    }
}

/// Whether a declaration or statement starts with a token of kind `kind`
/// in every case.
pub open spec fn starts_statement(kind: TokenType) -> bool {
    match kind {
        TokenType::Class
        | TokenType::Fun
        | TokenType::Var
        | TokenType::For
        | TokenType::If
        | TokenType::While
        | TokenType::Print
        | TokenType::Return => true,
        _ => false,
    }
}

/// Where parsing goes on after tokens were discarded from `pos` on: at the
/// end of file, behind a semicolon, or before a token that starts a
/// statement, whichever comes first.
pub open spec fn boundary(tokens: Seq<TokenView>, pos: int) -> int
    decreases remaining(tokens, pos),
{
    if kind_at(tokens, pos) == TokenType::Eof {
        pos
    } else if kind_at(tokens, pos - 1) == TokenType::Semicolon {
        pos
    } else if starts_statement(kind_at(tokens, pos)) {
        pos
    } else {
        boundary(tokens, pos + 1)
    }
}

/// Where parsing goes on after a violation at `pos`: the token at `pos` is
/// discarded, and those behind it up to the next statement boundary.
pub open spec fn synchronize(tokens: Seq<TokenView>, pos: int) -> int {
    if kind_at(tokens, pos) == TokenType::Eof {
        pos
    } else {
        boundary(tokens, pos + 1)
    }
}

/// A parse that ends in state `s` and gives the node at `place`.
pub open spec fn done(made: (ParserView, usize)) -> (ParserView, Result<usize, SyntaxError>) {
    let (s, place) = made;
    (s, Ok(place))
}

/// primary → `true` | `false` | `nil` | `this` | number | string | name
///         | `(` expression `)` | `super` `.` name | `lambda` function
pub open spec fn primary(tokens: Seq<TokenView>, s: ParserView) -> (
    ParserView,
    Result<usize, SyntaxError>,
)
    decreases remaining(tokens, s.pos), 9nat,
{
    let line = line_at(tokens, s.pos);
    match kind_at(tokens, s.pos) {
        TokenType::False => done(s.advanced().put(Node::Bool { value: false })),
        TokenType::True => done(s.advanced().put(Node::Bool { value: true })),
        TokenType::Nil => done(s.advanced().put(Node::Nil)),
        TokenType::This => done(s.advanced().put(Node::This { line })),
        TokenType::Number => {
            let (s1, text) = s.advanced().intern(text_at(tokens, s.pos));
            done(s1.put(Node::Number { text }))
        },
        TokenType::String => {
            let (s1, text) = s.advanced().intern(text_at(tokens, s.pos));
            done(s1.put(Node::Str { text }))
        },
        TokenType::Identifier => {
            let (s1, name) = s.advanced().intern(text_at(tokens, s.pos));
            done(s1.put(Node::Variable { name, line }))
        },
        TokenType::Super => {
            let (s1, dot) = expect(tokens, s.advanced(), TokenType::Dot);
            match dot {
                Err(e) => (s1, Err(e)),
                Ok(_) => {
                    let (s2, name) = expect(tokens, s1, TokenType::Identifier);
                    match name {
                        Err(e) => (s2, Err(e)),
                        Ok(at) => {
                            let (s3, method) = s2.intern(text_at(tokens, at as int));
                            done(s3.put(Node::Super { method, line }))
                        },
                    }
                },
            }
        },
        TokenType::LeftParen => {
            let (next, inner) = expression(tokens, s.advanced());
            let s1 = s.advanced().onward(next);
            match inner {
                Err(e) => (s1, Err(e)),
                Ok(inner) => {
                    let (s2, close) = expect(tokens, s1, TokenType::RightParen);
                    match close {
                        Err(e) => (s2, Err(e)),
                        Ok(_) => done(s2.put(Node::Grouping { inner })),
                    }
                },
            }
        },
        TokenType::Lambda => function_rest(tokens, s.advanced(), None),
        _ => (s, Err(violation(tokens, s.pos, SyntaxErrorKind::ExpectedExpression))),
    }
}

/// arguments → ( expression ( `,` expression )* )?
///
/// Parses the arguments behind those at `found`, up to but not including
/// the closing parenthesis, and gives the places of all of them.
pub open spec fn arguments(tokens: Seq<TokenView>, s: ParserView, found: Seq<usize>) -> (
    ParserView,
    Result<Seq<usize>, SyntaxError>,
)
    decreases remaining(tokens, s.pos), 17nat,
{
    if found.len() == 0 && kind_at(tokens, s.pos) == TokenType::RightParen {
        (s, Ok(found))
    } else {
        let (next, argument) = expression(tokens, s);
        let s1 = s.onward(next);
        match argument {
            Err(e) => (s1, Err(e)),
            Ok(argument) => {
                if kind_at(tokens, s1.pos) == TokenType::Comma {
                    arguments(tokens, s1.advanced(), found.push(argument))
                } else {
                    (s1, Ok(found.push(argument)))
                }
            },
        }
    }
}

/// The calls and property accesses that follow the expression at `callee`.
pub open spec fn call_rest(tokens: Seq<TokenView>, s: ParserView, callee: usize) -> (
    ParserView,
    Result<usize, SyntaxError>,
)
    decreases remaining(tokens, s.pos), 10nat,
{
    let line = line_at(tokens, s.pos);
    match kind_at(tokens, s.pos) {
        TokenType::LeftParen => {
            let (next, found) = arguments(tokens, s.advanced(), Seq::empty());
            let s1 = s.advanced().onward(next);
            match found {
                Err(e) => (s1, Err(e)),
                Ok(found) => {
                    let (s2, close) = expect(tokens, s1, TokenType::RightParen);
                    match close {
                        Err(e) => (s2, Err(e)),
                        Ok(_) => {
                            let (s3, arguments) = s2.put_list(found);
                            let (s4, call) = s3.put(Node::Call { callee, arguments, line });
                            call_rest(tokens, s4, call)
                        },
                    }
                },
            }
        },
        TokenType::Dot => {
            let (s1, name) = expect(tokens, s.advanced(), TokenType::Identifier);
            match name {
                Err(e) => (s1, Err(e)),
                Ok(at) => {
                    let (s2, name) = s1.intern(text_at(tokens, at as int));
                    let (s3, get) = s2.put(Node::GetProperty { object: callee, name, line });
                    call_rest(tokens, s3, get)
                },
            }
        },
        _ => (s, Ok(callee)),
    }
}

/// call → primary ( `(` arguments `)` | `.` name )*
pub open spec fn call(tokens: Seq<TokenView>, s: ParserView) -> (
    ParserView,
    Result<usize, SyntaxError>,
)
    decreases remaining(tokens, s.pos), 11nat,
{
    let (next, callee) = primary(tokens, s);
    let s1 = s.onward(next);
    match callee {
        Err(e) => (s1, Err(e)),
        Ok(callee) => call_rest(tokens, s1, callee),
    }
}

/// unary → ( `!` | `-` ) unary | call
pub open spec fn unary(tokens: Seq<TokenView>, s: ParserView) -> (
    ParserView,
    Result<usize, SyntaxError>,
)
    decreases remaining(tokens, s.pos), 12nat,
{
    match unary_op(kind_at(tokens, s.pos)) {
        Some(op) => {
            let line = line_at(tokens, s.pos);
            let (s1, operand) = unary(tokens, s.advanced());
            match operand {
                Err(e) => (s1, Err(e)),
                Ok(operand) => done(s1.put(Node::Unary { op, operand, line })),
            }
        },
        None => call(tokens, s),
    }
}

/// The binary operators of level `min` or higher, with their right
/// operands, that follow the expression at `left`. An operator takes as its
/// right operand everything that binds tighter than itself, and so groups
/// to the left with an operator of its own level.
pub open spec fn binary_rest(tokens: Seq<TokenView>, s: ParserView, min: nat, left: usize) -> (
    ParserView,
    Result<usize, SyntaxError>,
)
    decreases remaining(tokens, s.pos), 13nat,
{
    match binary_op(kind_at(tokens, s.pos)) {
        Some(op) => {
            if level(op) >= min {
                let line = line_at(tokens, s.pos);
                let (next, right) = binary(tokens, s.advanced(), level(op) + 1);
                let s1 = s.advanced().onward(next);
                match right {
                    Err(e) => (s1, Err(e)),
                    Ok(right) => {
                        let (s2, whole) = s1.put(Node::Binary { op, left, right, line });
                        binary_rest(tokens, s2, min, whole)
                    },
                }
            } else {
                (s, Ok(left))
            }
        },
        None => (s, Ok(left)),
    }
}

/// An expression made of unary expressions and binary operators of level
/// `min` or higher.
pub open spec fn binary(tokens: Seq<TokenView>, s: ParserView, min: nat) -> (
    ParserView,
    Result<usize, SyntaxError>,
)
    decreases remaining(tokens, s.pos), 14nat,
{
    let (next, left) = unary(tokens, s);
    let s1 = s.onward(next);
    match left {
        Err(e) => (s1, Err(e)),
        Ok(left) => binary_rest(tokens, s1, min, left),
    }
}

/// The node that assigns the value at `value` to what the node `target`
/// names, if `target` is a variable or a property.
pub open spec fn assignment_to(target: Node, value: usize, line: usize) -> Option<Node> {
    match target {
        Node::Variable { name, line: _ } => Some(Node::Assign { name, value, line }),
        Node::GetProperty { object, name, line: _ } => Some(
            Node::SetProperty { object, name, value, line },
        ),
        _ => None,
    }
}

/// assignment → ( call `.` )? name `=` assignment | binary
pub open spec fn assignment(tokens: Seq<TokenView>, s: ParserView) -> (
    ParserView,
    Result<usize, SyntaxError>,
)
    decreases remaining(tokens, s.pos), 15nat,
{
    let (next, left) = binary(tokens, s, 1);
    let s1 = s.onward(next);
    match left {
        Err(e) => (s1, Err(e)),
        Ok(left) => {
            if kind_at(tokens, s1.pos) == TokenType::Equal {
                let line = line_at(tokens, s1.pos);
                let (after, value) = assignment(tokens, s1.advanced());
                let s2 = s1.advanced().onward(after);
                match value {
                    Err(e) => (s2, Err(e)),
                    Ok(value) => {
                        if (left as int) < s2.nodes.len() {
                            match assignment_to(s2.nodes[left as int], value, line) {
                                Some(node) => done(s2.put(node)),
                                None => (
                                    s2,
                                    Err(
                                        SyntaxError {
                                            kind: SyntaxErrorKind::InvalidAssignmentTarget,
                                            line,
                                        },
                                    ),
                                ),
                            }
                        } else {
                            (
                                s2,
                                Err(
                                    SyntaxError {
                                        kind: SyntaxErrorKind::InvalidAssignmentTarget,
                                        line,
                                    },
                                ),
                            )
                        }
                    },
                }
            } else {
                (s1, Ok(left))
            }
        },
    }
}

/// expression → assignment
pub open spec fn expression(tokens: Seq<TokenView>, s: ParserView) -> (
    ParserView,
    Result<usize, SyntaxError>,
)
    decreases remaining(tokens, s.pos), 16nat,
{
    assignment(tokens, s)
}

/// parameters → ( name ( `,` name )* )?
///
/// Parses the parameters behind those at `found`, up to but not including
/// the closing parenthesis, and gives the texts of all of them.
pub open spec fn parameters(tokens: Seq<TokenView>, s: ParserView, found: Seq<usize>) -> (
    ParserView,
    Result<Seq<usize>, SyntaxError>,
)
    decreases remaining(tokens, s.pos), 5nat,
{
    if found.len() == 0 && kind_at(tokens, s.pos) == TokenType::RightParen {
        (s, Ok(found))
    } else {
        let (s1, name) = expect(tokens, s, TokenType::Identifier);
        match name {
            Err(e) => (s1, Err(e)),
            Ok(at) => {
                let (s2, name) = s1.intern(text_at(tokens, at as int));
                if kind_at(tokens, s2.pos) == TokenType::Comma {
                    parameters(tokens, s2.advanced(), found.push(name))
                } else {
                    (s2, Ok(found.push(name)))
                }
            },
        }
    }
}

/// The parameters and the body of a function: `(` parameters `)` block.
/// With a name the node is a function declaration, without one a lambda.
pub open spec fn function_rest(tokens: Seq<TokenView>, s: ParserView, name: Option<usize>) -> (
    ParserView,
    Result<usize, SyntaxError>,
)
    decreases remaining(tokens, s.pos), 6nat,
{
    let (s1, open) = expect(tokens, s, TokenType::LeftParen);
    match open {
        Err(e) => (s1, Err(e)),
        Ok(_) => {
            let (next, found) = parameters(tokens, s1, Seq::empty());
            let s2 = s1.onward(next);
            match found {
                Err(e) => (s2, Err(e)),
                Ok(found) => {
                    let (s3, close) = expect(tokens, s2, TokenType::RightParen);
                    match close {
                        Err(e) => (s3, Err(e)),
                        Ok(_) => {
                            let (s4, brace) = expect(tokens, s3, TokenType::LeftBrace);
                            match brace {
                                Err(e) => (s4, Err(e)),
                                Ok(_) => {
                                    let (s5, parameters) = s4.put_list(found);
                                    let (after, body) = block(tokens, s5);
                                    let s6 = s5.onward(after);
                                    match body {
                                        Err(e) => (s6, Err(e)),
                                        Ok(body) => match name {
                                            Some(name) => done(
                                                s6.put(Node::Function { name, parameters, body }),
                                            ),
                                            None => done(
                                                s6.put(Node::Lambda { parameters, body }),
                                            ),
                                        },
                                    }
                                },
                            }
                        },
                    }
                },
            }
        },
    }
}

/// function → name `(` parameters `)` block
pub open spec fn function(tokens: Seq<TokenView>, s: ParserView) -> (
    ParserView,
    Result<usize, SyntaxError>,
)
    decreases remaining(tokens, s.pos), 7nat,
{
    let (s1, name) = expect(tokens, s, TokenType::Identifier);
    match name {
        Err(e) => (s1, Err(e)),
        Ok(at) => {
            let (s2, name) = s1.intern(text_at(tokens, at as int));
            function_rest(tokens, s2, Some(name))
        },
    }
}

/// The methods of a class behind those at `found`, up to but not including
/// the closing brace.
pub open spec fn methods(tokens: Seq<TokenView>, s: ParserView, found: Seq<usize>) -> (
    ParserView,
    Result<Seq<usize>, SyntaxError>,
)
    decreases remaining(tokens, s.pos), 8nat,
{
    if kind_at(tokens, s.pos) == TokenType::RightBrace || kind_at(tokens, s.pos)
        == TokenType::Eof {
        (s, Ok(found))
    } else {
        let (next, method) = function(tokens, s);
        match method {
            Err(e) => (s.onward(next), Err(e)),
            Ok(method) => methods(tokens, s.advanced().onward(next), found.push(method)),
        }
    }
}

/// The rest of a class declaration behind `class`:
/// name ( `<` name )? `{` function* `}`
pub open spec fn class_declaration(tokens: Seq<TokenView>, s: ParserView) -> (
    ParserView,
    Result<usize, SyntaxError>,
)
    decreases remaining(tokens, s.pos), 17nat,
{
    let line = line_at(tokens, s.pos);
    let (s1, name) = expect(tokens, s, TokenType::Identifier);
    match name {
        Err(e) => (s1, Err(e)),
        Ok(at) => {
            let (s2, name) = s1.intern(text_at(tokens, at as int));
            let (s3, superclass) = superclass(tokens, s2);
            match superclass {
                Err(e) => (s3, Err(e)),
                Ok(superclass) => {
                    let (s4, brace) = expect(tokens, s3, TokenType::LeftBrace);
                    match brace {
                        Err(e) => (s4, Err(e)),
                        Ok(_) => {
                            let (next, found) = methods(tokens, s4, Seq::empty());
                            let s5 = s4.onward(next);
                            match found {
                                Err(e) => (s5, Err(e)),
                                Ok(found) => {
                                    let (s6, close) = expect(tokens, s5, TokenType::RightBrace);
                                    match close {
                                        Err(e) => (s6, Err(e)),
                                        Ok(_) => {
                                            let (s7, methods) = s6.put_list(found);
                                            done(
                                                s7.put(
                                                    Node::Class { name, superclass, methods, line },
                                                ),
                                            )
                                        },
                                    }
                                },
                            }
                        },
                    }
                },
            }
        },
    }
}

/// The superclass of a class, if it names one: ( `<` name )?
pub open spec fn superclass(tokens: Seq<TokenView>, s: ParserView) -> (
    ParserView,
    Result<Option<usize>, SyntaxError>,
) {
    if kind_at(tokens, s.pos) == TokenType::Less {
        let (s1, name) = expect(tokens, s.advanced(), TokenType::Identifier);
        match name {
            Err(e) => (s1, Err(e)),
            Ok(at) => {
                let (s2, name) = s1.intern(text_at(tokens, at as int));
                let (s3, variable) = s2.put(
                    Node::Variable { name, line: line_at(tokens, at as int) },
                );
                (s3, Ok(Some(variable)))
            },
        }
    } else {
        (s, Ok(None))
    }
}

/// The rest of a variable declaration behind `var`:
/// name ( `=` expression )? `;`
pub open spec fn var_declaration(tokens: Seq<TokenView>, s: ParserView) -> (
    ParserView,
    Result<usize, SyntaxError>,
)
    decreases remaining(tokens, s.pos), 17nat,
{
    let (s1, name) = expect(tokens, s, TokenType::Identifier);
    match name {
        Err(e) => (s1, Err(e)),
        Ok(at) => {
            let (s2, name) = s1.intern(text_at(tokens, at as int));
            if kind_at(tokens, s2.pos) == TokenType::Equal {
                let (next, value) = expression(tokens, s2.advanced());
                let s3 = s2.advanced().onward(next);
                match value {
                    Err(e) => (s3, Err(e)),
                    Ok(value) => {
                        let (s4, end) = expect(tokens, s3, TokenType::Semicolon);
                        match end {
                            Err(e) => (s4, Err(e)),
                            Ok(_) => done(s4.put(Node::Var { name, initializer: Some(value) })),
                        }
                    },
                }
            } else {
                let (s3, end) = expect(tokens, s2, TokenType::Semicolon);
                match end {
                    Err(e) => (s3, Err(e)),
                    Ok(_) => done(s3.put(Node::Var { name, initializer: None })),
                }
            }
        },
    }
}

/// An expression and the semicolon behind it.
pub open spec fn terminated(tokens: Seq<TokenView>, s: ParserView) -> (
    ParserView,
    Result<usize, SyntaxError>,
)
    decreases remaining(tokens, s.pos), 17nat,
{
    let (next, value) = expression(tokens, s);
    let s1 = s.onward(next);
    match value {
        Err(e) => (s1, Err(e)),
        Ok(value) => {
            let (s2, end) = expect(tokens, s1, TokenType::Semicolon);
            match end {
                Err(e) => (s2, Err(e)),
                Ok(_) => (s2, Ok(value)),
            }
        },
    }
}

/// An expression, unless the next token is of kind `until`.
pub open spec fn optional_expression(tokens: Seq<TokenView>, s: ParserView, until: TokenType) -> (
    ParserView,
    Result<Option<usize>, SyntaxError>,
)
    decreases remaining(tokens, s.pos), 17nat,
{
    if kind_at(tokens, s.pos) == until {
        (s, Ok(None))
    } else {
        let (next, value) = expression(tokens, s);
        let s1 = s.onward(next);
        match value {
            Err(e) => (s1, Err(e)),
            Ok(value) => (s1, Ok(Some(value))),
        }
    }
}

/// The rest of an `if` statement behind `if`:
/// `(` expression `)` statement ( `else` statement )?
///
/// An `else` belongs to the nearest `if` before it that has none yet.
pub open spec fn if_statement(tokens: Seq<TokenView>, s: ParserView) -> (
    ParserView,
    Result<usize, SyntaxError>,
)
    decreases remaining(tokens, s.pos), 17nat,
{
    let (s1, open) = expect(tokens, s, TokenType::LeftParen);
    match open {
        Err(e) => (s1, Err(e)),
        Ok(_) => {
            let (next, test) = expression(tokens, s1);
            let s2 = s1.onward(next);
            match test {
                Err(e) => (s2, Err(e)),
                Ok(test) => {
                    let (s3, close) = expect(tokens, s2, TokenType::RightParen);
                    match close {
                        Err(e) => (s3, Err(e)),
                        Ok(_) => {
                            let (next, then_branch) = statement(tokens, s3);
                            let s4 = s3.onward(next);
                            match then_branch {
                                Err(e) => (s4, Err(e)),
                                Ok(then_branch) => {
                                    if kind_at(tokens, s4.pos) == TokenType::Else {
                                        let (s5, else_branch) = statement(tokens, s4.advanced());
                                        match else_branch {
                                            Err(e) => (s5, Err(e)),
                                            Ok(else_branch) => done(
                                                s5.put(
                                                    Node::If {
                                                        condition: test,
                                                        then_branch,
                                                        else_branch: Some(else_branch),
                                                    },
                                                ),
                                            ),
                                        }
                                    } else {
                                        done(
                                            s4.put(
                                                Node::If {
                                                    condition: test,
                                                    then_branch,
                                                    else_branch: None,
                                                },
                                            ),
                                        )
                                    }
                                },
                            }
                        },
                    }
                },
            }
        },
    }
}

/// The rest of a `while` statement behind `while`:
/// `(` expression `)` statement
pub open spec fn while_statement(tokens: Seq<TokenView>, s: ParserView) -> (
    ParserView,
    Result<usize, SyntaxError>,
)
    decreases remaining(tokens, s.pos), 17nat,
{
    let (s1, open) = expect(tokens, s, TokenType::LeftParen);
    match open {
        Err(e) => (s1, Err(e)),
        Ok(_) => {
            let (next, test) = expression(tokens, s1);
            let s2 = s1.onward(next);
            match test {
                Err(e) => (s2, Err(e)),
                Ok(test) => {
                    let (s3, close) = expect(tokens, s2, TokenType::RightParen);
                    match close {
                        Err(e) => (s3, Err(e)),
                        Ok(_) => {
                            let (s4, body) = statement(tokens, s3);
                            match body {
                                Err(e) => (s4, Err(e)),
                                Ok(body) => done(s4.put(Node::While { condition: test, body })),
                            }
                        },
                    }
                },
            }
        },
    }
}

/// The first clause of a `for` statement: `;` | `var` declaration |
/// expression `;`
pub open spec fn for_initializer(tokens: Seq<TokenView>, s: ParserView) -> (
    ParserView,
    Result<Option<usize>, SyntaxError>,
)
    decreases remaining(tokens, s.pos), 18nat,
{
    match kind_at(tokens, s.pos) {
        TokenType::Semicolon => (s.advanced(), Ok(None)),
        TokenType::Var => {
            let (s1, made) = var_declaration(tokens, s.advanced());
            match made {
                Err(e) => (s1, Err(e)),
                Ok(made) => (s1, Ok(Some(made))),
            }
        },
        _ => {
            let (s1, value) = terminated(tokens, s);
            match value {
                Err(e) => (s1, Err(e)),
                Ok(value) => {
                    let (s2, made) = s1.put(Node::Expression { expression: value });
                    (s2, Ok(Some(made)))
                },
            }
        },
    }
}

/// The statement that a `for` statement stands for: a block of the
/// initializer and a `while` statement whose body is the body of the `for`
/// followed by the increment. Without a condition the loop is endless.
#[verifier::opaque]
pub open spec fn for_loop(
    s: ParserView,
    initializer: Option<usize>,
    test: Option<usize>,
    increment: Option<usize>,
    body: usize,
) -> (ParserView, usize) {
    let (s1, body) = match increment {
        Some(increment) => {
            let (a, step) = s.put(Node::Expression { expression: increment });
            let (b, both) = a.put_list(seq![body, step]);
            b.put(Node::Block { body: both })
        },
        None => (s, body),
    };
    let (s2, test) = match test {
        Some(test) => (s1, test),
        None => s1.put(Node::Bool { value: true }),
    };
    let (s3, repeat) = s2.put(Node::While { condition: test, body });
    let (s4, all) = s3.put_list(
        match initializer {
            Some(initializer) => seq![initializer, repeat],
            None => seq![repeat],
        },
    );
    s4.put(Node::Block { body: all })
}

/// The end of a `for` statement behind its second semicolon:
/// expression? `)` statement
pub open spec fn for_end(
    tokens: Seq<TokenView>,
    s: ParserView,
    initializer: Option<usize>,
    test: Option<usize>,
) -> (ParserView, Result<usize, SyntaxError>)
    decreases remaining(tokens, s.pos), 18nat,
{
    let (next, increment) = optional_expression(tokens, s, TokenType::RightParen);
    let s1 = s.onward(next);
    match increment {
        Err(e) => (s1, Err(e)),
        Ok(increment) => {
            let (s2, close) = expect(tokens, s1, TokenType::RightParen);
            match close {
                Err(e) => (s2, Err(e)),
                Ok(_) => {
                    let (s3, body) = statement(tokens, s2);
                    match body {
                        Err(e) => (s3, Err(e)),
                        Ok(body) => done(for_loop(s3, initializer, test, increment, body)),
                    }
                },
            }
        },
    }
}

/// The middle of a `for` statement behind its initializer:
/// expression? `;` expression? `)` statement
pub open spec fn for_test(tokens: Seq<TokenView>, s: ParserView, initializer: Option<usize>) -> (
    ParserView,
    Result<usize, SyntaxError>,
)
    decreases remaining(tokens, s.pos), 19nat,
{
    let (next, test) = optional_expression(tokens, s, TokenType::Semicolon);
    let s1 = s.onward(next);
    match test {
        Err(e) => (s1, Err(e)),
        Ok(test) => {
            let (s2, end) = expect(tokens, s1, TokenType::Semicolon);
            match end {
                Err(e) => (s2, Err(e)),
                Ok(_) => for_end(tokens, s2, initializer, test),
            }
        },
    }
}

/// The rest of a `for` statement behind `for`:
/// `(` initializer expression? `;` expression? `)` statement
pub open spec fn for_statement(tokens: Seq<TokenView>, s: ParserView) -> (
    ParserView,
    Result<usize, SyntaxError>,
)
    decreases remaining(tokens, s.pos), 17nat,
{
    let (s1, open) = expect(tokens, s, TokenType::LeftParen);
    match open {
        Err(e) => (s1, Err(e)),
        Ok(_) => {
            let (next, initializer) = for_initializer(tokens, s1);
            let s2 = s1.onward(next);
            match initializer {
                Err(e) => (s2, Err(e)),
                Ok(initializer) => for_test(tokens, s2, initializer),
            }
        },
    }
}

/// The rest of a `return` statement behind `return`, which stands on
/// `line`: expression? `;`
pub open spec fn return_statement(tokens: Seq<TokenView>, s: ParserView, line: usize) -> (
    ParserView,
    Result<usize, SyntaxError>,
)
    decreases remaining(tokens, s.pos), 18nat,
{
    let (s1, value) = optional_expression(tokens, s, TokenType::Semicolon);
    match value {
        Err(e) => (s1, Err(e)),
        Ok(value) => {
            let (s2, end) = expect(tokens, s1, TokenType::Semicolon);
            match end {
                Err(e) => (s2, Err(e)),
                Ok(_) => done(s2.put(Node::Return { value, line })),
            }
        },
    }
}

/// statement → `print` expression `;` | `return` expression? `;`
///           | `if` … | `while` … | `for` … | `{` declaration* `}`
///           | expression `;`
pub open spec fn statement(tokens: Seq<TokenView>, s: ParserView) -> (
    ParserView,
    Result<usize, SyntaxError>,
)
    decreases remaining(tokens, s.pos), 19nat,
{
    match kind_at(tokens, s.pos) {
        TokenType::Print => {
            let (s1, value) = terminated(tokens, s.advanced());
            match value {
                Err(e) => (s1, Err(e)),
                Ok(value) => done(s1.put(Node::Print { expression: value })),
            }
        },
        TokenType::Return => return_statement(tokens, s.advanced(), line_at(tokens, s.pos)),
        TokenType::If => if_statement(tokens, s.advanced()),
        TokenType::While => while_statement(tokens, s.advanced()),
        TokenType::For => for_statement(tokens, s.advanced()),
        TokenType::LeftBrace => {
            let (s1, body) = block(tokens, s.advanced());
            match body {
                Err(e) => (s1, Err(e)),
                Ok(body) => done(s1.put(Node::Block { body })),
            }
        },
        _ => {
            let (s1, value) = terminated(tokens, s);
            match value {
                Err(e) => (s1, Err(e)),
                Ok(value) => done(s1.put(Node::Expression { expression: value })),
            }
        },
    }
}

/// The rest of a block behind `{`: declaration* `}`. Gives the list of the
/// block's statements.
pub open spec fn block(tokens: Seq<TokenView>, s: ParserView) -> (
    ParserView,
    Result<usize, SyntaxError>,
)
    decreases remaining(tokens, s.pos), 22nat,
{
    let (s1, found) = declarations(tokens, s, Seq::empty(), true);
    let (s2, close) = expect(tokens, s1, TokenType::RightBrace);
    match close {
        Err(e) => (s2, Err(e)),
        Ok(_) => done(s2.put_list(found)),
    }
}

/// The declarations behind those at `found`, up to the end of file or,
/// inside a block, up to but not including the closing brace. A
/// declaration that violates the grammar gives no statement.
pub open spec fn declarations(
    tokens: Seq<TokenView>,
    s: ParserView,
    found: Seq<usize>,
    nested: bool,
) -> (ParserView, Seq<usize>)
    decreases remaining(tokens, s.pos), 21nat,
{
    if kind_at(tokens, s.pos) == TokenType::Eof || (nested && kind_at(tokens, s.pos)
        == TokenType::RightBrace) {
        (s, found)
    } else {
        let (next, made) = declaration(tokens, s);
        let s1 = s.advanced().onward(next);
        match made {
            Some(made) => declarations(tokens, s1, found.push(made), nested),
            None => declarations(tokens, s1, found, nested),
        }
    }
}

/// declaration → `class` … | `fun` function | `var` … | statement
///
/// A violation is recorded, and the tokens up to the next statement
/// boundary are discarded.
pub open spec fn declaration(tokens: Seq<TokenView>, s: ParserView) -> (ParserView, Option<usize>)
    decreases remaining(tokens, s.pos), 20nat,
{
    let (next, made) = match kind_at(tokens, s.pos) {
        TokenType::Class => class_declaration(tokens, s.advanced()),
        TokenType::Fun => function(tokens, s.advanced()),
        TokenType::Var => var_declaration(tokens, s.advanced()),
        _ => statement(tokens, s),
    };
    let s1 = s.onward(next);
    match made {
        Ok(made) => (s1, Some(made)),
        Err(e) => (
            ParserView { pos: synchronize(tokens, s1.pos), errors: s1.errors.push(e), ..s1 },
            None,
        ),
    }
}

/// program → declaration* end of file. Gives the list of the program's
/// statements.
pub open spec fn program(tokens: Seq<TokenView>, s: ParserView) -> (ParserView, usize) {
    let (s1, found) = declarations(tokens, s, Seq::empty(), false);
    s1.put_list(found)
}

} // verus!
