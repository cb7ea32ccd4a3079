//! The parser: recursive descent over a sequence of tokens, one function
//! for each rule of the grammar.

use vstd::prelude::*;
use crate::ast::{text_views, BinaryOp, Code, Node, UnaryOp};
use crate::error::{SyntaxError, SyntaxErrorKind};
use crate::scanner::views;
use crate::syntax;
use crate::syntax::{
    binary_op, kind_at, level, line_at, remaining, starts_statement, text_at, unary_op,
    violation, with_list, ParserView,
};
use crate::token::{Literal, Token, TokenType, TokenView};

verus! {

/// A parser over one sequence of tokens.
///
/// `current` is the place of the next token. The syntax tree grows in
/// `code`; violations of the grammar are kept in `errors` in the order met.
pub struct Parser {
    pub tokens: Vec<Token>,
    pub current: usize,
    pub code: Code,
    pub errors: Vec<SyntaxError>,
}

impl View for Parser {
    type V = ParserView;

    open spec fn view(&self) -> ParserView {
        ParserView {
            pos: self.current as int,
            nodes: self.code.nodes@,
            texts: text_views(self.code.texts@),
            errors: self.errors@,
        }
    }
}

/// Whether what a parse of a list gave is what the grammar gives.
pub open spec fn same_items(
    given: Result<Vec<usize>, SyntaxError>,
    due: Result<Seq<usize>, SyntaxError>,
) -> bool {
    match due {
        Ok(items) => given is Ok && given->Ok_0@ == items,
        Err(e) => given == Err::<Vec<usize>, SyntaxError>(e),
    }
}

/// The binary operator that a token of kind `kind` is, if it is one.
pub fn binary_op_of(kind: TokenType) -> (op: Option<BinaryOp>)
    ensures
        op == binary_op(kind),
{
    match kind {
        TokenType::Or => Some(BinaryOp::Or),
        TokenType::And => Some(BinaryOp::And),
        TokenType::EqualEqual => Some(BinaryOp::Equal),
        TokenType::BangEqual => Some(BinaryOp::NotEqual),
        TokenType::Less => Some(BinaryOp::Less),
        TokenType::LessEqual => Some(BinaryOp::LessEqual),
        TokenType::Greater => Some(BinaryOp::Greater),
        TokenType::GreaterEqual => Some(BinaryOp::GreaterEqual),
        TokenType::Plus => Some(BinaryOp::Add),
        TokenType::Minus => Some(BinaryOp::Subtract),
        TokenType::Star => Some(BinaryOp::Multiply),
        TokenType::Slash => Some(BinaryOp::Divide),
        _ => None,
    }
}

/// How tightly a binary operator binds.
pub fn level_of(op: BinaryOp) -> (l: u8)
    ensures
        l == level(op),
        1 <= l <= 6,
{
    match op {
        BinaryOp::Or => 1,
        BinaryOp::And => 2,
        BinaryOp::Equal | BinaryOp::NotEqual => 3,
        BinaryOp::Less | BinaryOp::LessEqual | BinaryOp::Greater | BinaryOp::GreaterEqual => 4,
        BinaryOp::Add | BinaryOp::Subtract => 5,
        BinaryOp::Multiply | BinaryOp::Divide => 6,
    }
}

/// The unary operator that a token of kind `kind` is, if it is one.
pub fn unary_op_of(kind: TokenType) -> (op: Option<UnaryOp>)
    ensures
        op == unary_op(kind),
{
    match kind {
        TokenType::Bang => Some(UnaryOp::Not),
        TokenType::Minus => Some(UnaryOp::Negate),
        _ => None,
    }
}

/// Whether a token of kind `kind` always starts a declaration or statement.
pub fn is_statement_start(kind: TokenType) -> (b: bool)
    ensures
        b == starts_statement(kind),
{
    match kind {
        TokenType::Class
        | TokenType::Fun
        | TokenType::Var
        | TokenType::For
        | TokenType::If
        | TokenType::While
        | TokenType::Print
        | TokenType::Return => true,
        _ => false,
    }
}

impl Parser {
    /// The tokens, as the grammar sees them.
    pub open spec fn source(&self) -> Seq<TokenView> {
        views(self.tokens@)
    }

    /// The next token's place is within the tokens or just behind them.
    pub open spec fn wf(&self) -> bool {
        self.current <= self.tokens@.len()
    }

    /// `self` is a state of the same parse as `before`, at or behind it.
    pub open spec fn follows(&self, before: &Parser) -> bool {
        &&& self.wf()
        &&& self.tokens == before.tokens
        &&& self.current >= before.current
    }

    /// A parser at the first of `tokens` that adds to the tables of `code`.
    pub fn new(tokens: Vec<Token>, code: Code) -> (p: Parser)
        ensures
            p.wf(),
            p.tokens == tokens,
            p.code == code,
            p.current == 0,
            p.errors@ == Seq::<SyntaxError>::empty(),
    {
        Parser { tokens, current: 0, code, errors: Vec::new() }
    }

    /// The kind of the next token.
    pub fn peek(&self) -> (kind: TokenType)
        requires
            self.wf(),
        ensures
            kind == kind_at(self.source(), self.current as int),
            kind != TokenType::Eof ==> self.current < self.tokens@.len(),
    {
        if self.current < self.tokens.len() {
            self.tokens[self.current].token_type
        } else {
            TokenType::Eof
        }
    }

    /// The kind of the token at `at`.
    pub fn kind_of(&self, at: usize) -> (kind: TokenType)
        ensures
            kind == kind_at(self.source(), at as int),
    {
        if at < self.tokens.len() {
            self.tokens[at].token_type
        } else {
            TokenType::Eof
        }
    }

    /// The line of the token at `at`.
    pub fn line_of(&self, at: usize) -> (line: usize)
        ensures
            line == line_at(self.source(), at as int),
    {
        let n = self.tokens.len();
        if at < n {
            self.tokens[at].line
        } else if n > 0 {
            assert(self.source().last() == self.tokens@[n - 1]@);
            self.tokens[n - 1].line
        } else {
            1
        }
    }

    /// The violation of kind `kind` at the next token.
    pub fn fault(&self, kind: SyntaxErrorKind) -> (e: SyntaxError)
        ensures
            e == violation(self.source(), self.current as int, kind),
    {
        SyntaxError { kind, line: self.line_of(self.current) }
    }

    /// Moves past the next token.
    pub fn advance(&mut self)
        requires
            old(self).wf(),
            kind_at(old(self).source(), old(self).current as int) != TokenType::Eof,
        ensures
            final(self).follows(old(self)),
            final(self)@ == old(self)@.advanced(),
            final(self).current == old(self).current + 1,
    {
        assert(self.tokens@.len() == self.tokens.len());
        self.current += 1;
    }

    /// Moves past the next token if it is of kind `kind`, and fails if it
    /// is not.
    pub fn expect(&mut self, kind: TokenType) -> (r: Result<usize, SyntaxError>)
        requires
            old(self).wf(),
        ensures
            final(self).follows(old(self)),
            (final(self)@, r) == syntax::expect(old(self).source(), old(self)@, kind),
            r is Ok ==> final(self).current == old(self).current + 1 && r->Ok_0
                == old(self).current,
            r is Err ==> final(self).current == old(self).current,
    {
        let found = self.peek();
        if kind != TokenType::Eof && found == kind {
            let at = self.current;
            assert(self.tokens@.len() == self.tokens.len());
            self.current += 1;
            Ok(at)
        } else {
            Err(self.fault(SyntaxErrorKind::Expected(kind)))
        }
    }

    /// Adds `node` to the table of nodes.
    pub fn put(&mut self, node: Node) -> (place: usize)
        ensures
            final(self).tokens == old(self).tokens,
            final(self).current == old(self).current,
            (final(self)@, place) == old(self)@.put(node),
    {
        self.code.add(node)
    }

    /// Makes sure the text of the token at `at` is in the table of texts.
    pub fn intern_at(&mut self, at: usize) -> (place: usize)
        requires
            at < old(self).tokens@.len(),
        ensures
            final(self).tokens == old(self).tokens,
            final(self).current == old(self).current,
            (final(self)@, place) == old(self)@.intern(text_at(old(self).source(), at as int)),
    {
        let token = &self.tokens[at];
        match &token.literal {
            Some(Literal::Str(content)) => self.code.intern(content.as_str()),
            _ => self.code.intern(token.lexeme.as_str()),
        }
    }

    /// Adds the list of `items` to the table of nodes.
    pub fn put_list(&mut self, items: &Vec<usize>) -> (place: usize)
        ensures
            final(self).tokens == old(self).tokens,
            final(self).current == old(self).current,
            (final(self)@, place) == old(self)@.put_list(items@),
    {
        let mut place = self.code.add(Node::Empty);
        let n = items.len();
        let mut i: usize = n;
        assert(items@.subrange(n as int, n as int) =~= Seq::<usize>::empty());
        while i > 0
            invariant
                0 <= i <= n,
                n == items@.len(),
                self.tokens == old(self).tokens,
                self.current == old(self).current,
                self.errors == old(self).errors,
                self.code.texts == old(self).code.texts,
                self.code.nodes@ == with_list(
                    old(self).code.nodes@,
                    items@.subrange(i as int, n as int),
                ),
                place == self.code.nodes@.len() - 1,
            decreases i,
        {
            i -= 1;
            proof {
                let longer = items@.subrange(i as int, n as int);
                assert(longer.drop_first() =~= items@.subrange(i + 1, n as int));
                assert(longer.first() == items@[i as int]);
            }
            place = self.code.add(Node::Cons { head: items[i], tail: place });
        }
        assert(items@.subrange(0, n as int) =~= items@);
        place
    }
}

impl Parser {
    /// primary → `true` | `false` | `nil` | `this` | number | string | name
    ///         | `(` expression `)` | `super` `.` name | `lambda` function
    pub fn primary(&mut self) -> (r: Result<usize, SyntaxError>)
        requires
            old(self).wf(),
        ensures
            final(self).follows(old(self)),
            (final(self)@, r) == syntax::primary(old(self).source(), old(self)@),
            r is Ok ==> final(self).current > old(self).current,
        decreases remaining(old(self).source(), old(self).current as int), 9nat,
    {
        let at = self.current;
        let line = self.line_of(at);
        match self.peek() {
            TokenType::False => {
                self.advance();
                Ok(self.put(Node::Bool { value: false }))
            },
            TokenType::True => {
                self.advance();
                Ok(self.put(Node::Bool { value: true }))
            },
            TokenType::Nil => {
                self.advance();
                Ok(self.put(Node::Nil))
            },
            TokenType::This => {
                self.advance();
                Ok(self.put(Node::This { line }))
            },
            TokenType::Number => {
                self.advance();
                let text = self.intern_at(at);
                Ok(self.put(Node::Number { text }))
            },
            TokenType::String => {
                self.advance();
                let text = self.intern_at(at);
                Ok(self.put(Node::Str { text }))
            },
            TokenType::Identifier => {
                self.advance();
                let name = self.intern_at(at);
                Ok(self.put(Node::Variable { name, line }))
            },
            TokenType::Super => {
                self.advance();
                match self.expect(TokenType::Dot) {
                    Err(e) => Err(e),
                    Ok(_) => match self.expect(TokenType::Identifier) {
                        Err(e) => Err(e),
                        Ok(name_at) => {
                            let method = self.intern_at(name_at);
                            Ok(self.put(Node::Super { method, line }))
                        },
                    },
                }
            },
            TokenType::LeftParen => {
                self.advance();
                match self.expression() {
                    Err(e) => Err(e),
                    Ok(inner) => match self.expect(TokenType::RightParen) {
                        Err(e) => Err(e),
                        Ok(_) => Ok(self.put(Node::Grouping { inner })),
                    },
                }
            },
            TokenType::Lambda => {
                self.advance();
                self.function_rest(None)
            },
            _ => Err(self.fault(SyntaxErrorKind::ExpectedExpression)),
        }
    }

    /// arguments → ( expression ( `,` expression )* )?
    pub fn arguments(&mut self) -> (r: Result<Vec<usize>, SyntaxError>)
        requires
            old(self).wf(),
        ensures
            final(self).follows(old(self)),
            final(self)@ == syntax::arguments(
                old(self).source(),
                old(self)@,
                Seq::empty(),
            ).0,
            same_items(r, syntax::arguments(old(self).source(), old(self)@, Seq::empty()).1),
        decreases remaining(old(self).source(), old(self).current as int), 17nat,
    {
        let mut found: Vec<usize> = Vec::new();
        if self.peek() == TokenType::RightParen {
            return Ok(found);
        }
        loop
            invariant
                self.follows(old(self)),
                found@.len() > 0 || self.current == old(self).current,
                found@.len() > 0 || kind_at(self.source(), self.current as int)
                    != TokenType::RightParen,
                syntax::arguments(self.source(), self@, found@) == syntax::arguments(
                    old(self).source(),
                    old(self)@,
                    Seq::empty(),
                ),
            decreases remaining(self.source(), self.current as int),
        {
            match self.expression() {
                Err(e) => {
                    return Err(e);
                },
                Ok(argument) => {
                    found.push(argument);
                    if self.peek() == TokenType::Comma {
                        self.advance();
                    } else {
                        return Ok(found);
                    }
                },
            }
        }
    }

    /// call → primary ( `(` arguments `)` | `.` name )*
    pub fn call(&mut self) -> (r: Result<usize, SyntaxError>)
        requires
            old(self).wf(),
        ensures
            final(self).follows(old(self)),
            (final(self)@, r) == syntax::call(old(self).source(), old(self)@),
            r is Ok ==> final(self).current > old(self).current,
        decreases remaining(old(self).source(), old(self).current as int), 11nat,
    {
        let mut callee = match self.primary() {
            Err(e) => {
                return Err(e);
            },
            Ok(callee) => callee,
        };
        loop
            invariant
                self.follows(old(self)),
                self.current > old(self).current,
                syntax::call_rest(self.source(), self@, callee) == syntax::call(
                    old(self).source(),
                    old(self)@,
                ),
            decreases remaining(self.source(), self.current as int),
        {
            let line = self.line_of(self.current);
            match self.peek() {
                TokenType::LeftParen => {
                    self.advance();
                    let found = match self.arguments() {
                        Err(e) => {
                            return Err(e);
                        },
                        Ok(found) => found,
                    };
                    match self.expect(TokenType::RightParen) {
                        Err(e) => {
                            return Err(e);
                        },
                        Ok(_) => {},
                    }
                    let arguments = self.put_list(&found);
                    callee = self.put(Node::Call { callee, arguments, line });
                },
                TokenType::Dot => {
                    self.advance();
                    match self.expect(TokenType::Identifier) {
                        Err(e) => {
                            return Err(e);
                        },
                        Ok(name_at) => {
                            let name = self.intern_at(name_at);
                            callee = self.put(Node::GetProperty { object: callee, name, line });
                        },
                    }
                },
                _ => {
                    return Ok(callee);
                },
            }
        }
    }

    /// unary → ( `!` | `-` ) unary | call
    pub fn unary(&mut self) -> (r: Result<usize, SyntaxError>)
        requires
            old(self).wf(),
        ensures
            final(self).follows(old(self)),
            (final(self)@, r) == syntax::unary(old(self).source(), old(self)@),
            r is Ok ==> final(self).current > old(self).current,
        decreases remaining(old(self).source(), old(self).current as int), 12nat,
    {
        match unary_op_of(self.peek()) {
            Some(op) => {
                let line = self.line_of(self.current);
                self.advance();
                match self.unary() {
                    Err(e) => Err(e),
                    Ok(operand) => Ok(self.put(Node::Unary { op, operand, line })),
                }
            },
            None => self.call(),
        }
    }

    /// An expression made of unary expressions and binary operators that
    /// bind at least as tightly as level `min`.
    pub fn binary(&mut self, min: u8) -> (r: Result<usize, SyntaxError>)
        requires
            old(self).wf(),
        ensures
            final(self).follows(old(self)),
            (final(self)@, r) == syntax::binary(old(self).source(), old(self)@, min as nat),
            r is Ok ==> final(self).current > old(self).current,
        decreases remaining(old(self).source(), old(self).current as int), 14nat,
    {
        let mut left = match self.unary() {
            Err(e) => {
                return Err(e);
            },
            Ok(left) => left,
        };
        loop
            invariant
                self.follows(old(self)),
                self.current > old(self).current,
                syntax::binary_rest(self.source(), self@, min as nat, left) == syntax::binary(
                    old(self).source(),
                    old(self)@,
                    min as nat,
                ),
            decreases remaining(self.source(), self.current as int),
        {
            let op = match binary_op_of(self.peek()) {
                None => {
                    return Ok(left);
                },
                Some(op) => op,
            };
            let tightness = level_of(op);
            if tightness < min {
                return Ok(left);
            }
            let line = self.line_of(self.current);
            self.advance();
            match self.binary(tightness + 1) {
                Err(e) => {
                    return Err(e);
                },
                Ok(right) => {
                    left = self.put(Node::Binary { op, left, right, line });
                },
            }
        }
    }

    /// assignment → ( call `.` )? name `=` assignment | binary
    pub fn assignment(&mut self) -> (r: Result<usize, SyntaxError>)
        requires
            old(self).wf(),
        ensures
            final(self).follows(old(self)),
            (final(self)@, r) == syntax::assignment(old(self).source(), old(self)@),
            r is Ok ==> final(self).current > old(self).current,
        decreases remaining(old(self).source(), old(self).current as int), 15nat,
    {
        let left = match self.binary(1) {
            Err(e) => {
                return Err(e);
            },
            Ok(left) => left,
        };
        if self.peek() != TokenType::Equal {
            return Ok(left);
        }
        let line = self.line_of(self.current);
        self.advance();
        let value = match self.assignment() {
            Err(e) => {
                return Err(e);
            },
            Ok(value) => value,
        };
        let invalid = SyntaxError { kind: SyntaxErrorKind::InvalidAssignmentTarget, line };
        if left >= self.code.nodes.len() {
            return Err(invalid);
        }
        match self.code.nodes[left] {
            Node::Variable { name, line: _ } => Ok(self.put(Node::Assign { name, value, line })),
            Node::GetProperty { object, name, line: _ } => Ok(
                self.put(Node::SetProperty { object, name, value, line }),
            ),
            _ => Err(invalid),
        }
    }

    /// expression → assignment
    pub fn expression(&mut self) -> (r: Result<usize, SyntaxError>)
        requires
            old(self).wf(),
        ensures
            final(self).follows(old(self)),
            (final(self)@, r) == syntax::expression(old(self).source(), old(self)@),
            r is Ok ==> final(self).current > old(self).current,
        decreases remaining(old(self).source(), old(self).current as int), 16nat,
    {
        self.assignment()
    }

    /// parameters → ( name ( `,` name )* )?
    pub fn parameters(&mut self) -> (r: Result<Vec<usize>, SyntaxError>)
        requires
            old(self).wf(),
        ensures
            final(self).follows(old(self)),
            final(self)@ == syntax::parameters(
                old(self).source(),
                old(self)@,
                Seq::empty(),
            ).0,
            same_items(r, syntax::parameters(old(self).source(), old(self)@, Seq::empty()).1),
    {
        let mut found: Vec<usize> = Vec::new();
        if self.peek() == TokenType::RightParen {
            return Ok(found);
        }
        loop
            invariant
                self.follows(old(self)),
                found@.len() > 0 || kind_at(self.source(), self.current as int)
                    != TokenType::RightParen,
                syntax::parameters(self.source(), self@, found@) == syntax::parameters(
                    old(self).source(),
                    old(self)@,
                    Seq::empty(),
                ),
            decreases remaining(self.source(), self.current as int),
        {
            match self.expect(TokenType::Identifier) {
                Err(e) => {
                    return Err(e);
                },
                Ok(name_at) => {
                    let name = self.intern_at(name_at);
                    found.push(name);
                    if self.peek() == TokenType::Comma {
                        self.advance();
                    } else {
                        return Ok(found);
                    }
                },
            }
        }
    }

    /// The parameters and the body of a function: `(` parameters `)` block.
    /// With a name the node is a function declaration, without one a
    /// lambda.
    pub fn function_rest(&mut self, name: Option<usize>) -> (r: Result<usize, SyntaxError>)
        requires
            old(self).wf(),
        ensures
            final(self).follows(old(self)),
            (final(self)@, r) == syntax::function_rest(old(self).source(), old(self)@, name),
            r is Ok ==> final(self).current > old(self).current,
        decreases remaining(old(self).source(), old(self).current as int), 6nat,
    {
        match self.expect(TokenType::LeftParen) {
            Err(e) => {
                return Err(e);
            },
            Ok(_) => {},
        }
        let found = match self.parameters() {
            Err(e) => {
                return Err(e);
            },
            Ok(found) => found,
        };
        match self.expect(TokenType::RightParen) {
            Err(e) => {
                return Err(e);
            },
            Ok(_) => {},
        }
        match self.expect(TokenType::LeftBrace) {
            Err(e) => {
                return Err(e);
            },
            Ok(_) => {},
        }
        let parameters = self.put_list(&found);
        let body = match self.block() {
            Err(e) => {
                return Err(e);
            },
            Ok(body) => body,
        };
        match name {
            Some(name) => Ok(self.put(Node::Function { name, parameters, body })),
            None => Ok(self.put(Node::Lambda { parameters, body })),
        }
    }

    /// function → name `(` parameters `)` block
    pub fn function(&mut self) -> (r: Result<usize, SyntaxError>)
        requires
            old(self).wf(),
        ensures
            final(self).follows(old(self)),
            (final(self)@, r) == syntax::function(old(self).source(), old(self)@),
            r is Ok ==> final(self).current > old(self).current,
        decreases remaining(old(self).source(), old(self).current as int), 7nat,
    {
        match self.expect(TokenType::Identifier) {
            Err(e) => Err(e),
            Ok(name_at) => {
                let name = self.intern_at(name_at);
                self.function_rest(Some(name))
            },
        }
    }

    /// The methods of a class, up to but not including the closing brace.
    pub fn methods(&mut self) -> (r: Result<Vec<usize>, SyntaxError>)
        requires
            old(self).wf(),
        ensures
            final(self).follows(old(self)),
            final(self)@ == syntax::methods(old(self).source(), old(self)@, Seq::empty()).0,
            same_items(r, syntax::methods(old(self).source(), old(self)@, Seq::empty()).1),
        decreases remaining(old(self).source(), old(self).current as int), 8nat,
    {
        let mut found: Vec<usize> = Vec::new();
        loop
            invariant
                self.follows(old(self)),
                found@.len() > 0 || self.current == old(self).current,
                syntax::methods(self.source(), self@, found@) == syntax::methods(
                    old(self).source(),
                    old(self)@,
                    Seq::empty(),
                ),
            decreases remaining(self.source(), self.current as int),
        {
            let kind = self.peek();
            if kind == TokenType::RightBrace || kind == TokenType::Eof {
                return Ok(found);
            }
            match self.function() {
                Err(e) => {
                    return Err(e);
                },
                Ok(method) => {
                    found.push(method);
                },
            }
        }
    }

    /// The superclass of a class, if it names one: ( `<` name )?
    pub fn superclass(&mut self) -> (r: Result<Option<usize>, SyntaxError>)
        requires
            old(self).wf(),
        ensures
            final(self).follows(old(self)),
            (final(self)@, r) == syntax::superclass(old(self).source(), old(self)@),
    {
        if self.peek() != TokenType::Less {
            return Ok(None);
        }
        self.advance();
        match self.expect(TokenType::Identifier) {
            Err(e) => Err(e),
            Ok(name_at) => {
                let name = self.intern_at(name_at);
                let line = self.line_of(name_at);
                Ok(Some(self.put(Node::Variable { name, line })))
            },
        }
    }

    /// The rest of a class declaration behind `class`:
    /// name ( `<` name )? `{` function* `}`
    pub fn class_declaration(&mut self) -> (r: Result<usize, SyntaxError>)
        requires
            old(self).wf(),
        ensures
            final(self).follows(old(self)),
            (final(self)@, r) == syntax::class_declaration(old(self).source(), old(self)@),
        decreases remaining(old(self).source(), old(self).current as int), 17nat,
    {
        let line = self.line_of(self.current);
        let name = match self.expect(TokenType::Identifier) {
            Err(e) => {
                return Err(e);
            },
            Ok(name_at) => self.intern_at(name_at),
        };
        let superclass = match self.superclass() {
            Err(e) => {
                return Err(e);
            },
            Ok(superclass) => superclass,
        };
        match self.expect(TokenType::LeftBrace) {
            Err(e) => {
                return Err(e);
            },
            Ok(_) => {},
        }
        let found = match self.methods() {
            Err(e) => {
                return Err(e);
            },
            Ok(found) => found,
        };
        match self.expect(TokenType::RightBrace) {
            Err(e) => {
                return Err(e);
            },
            Ok(_) => {},
        }
        let methods = self.put_list(&found);
        Ok(self.put(Node::Class { name, superclass, methods, line }))
    }

    /// The rest of a variable declaration behind `var`:
    /// name ( `=` expression )? `;`
    pub fn var_declaration(&mut self) -> (r: Result<usize, SyntaxError>)
        requires
            old(self).wf(),
        ensures
            final(self).follows(old(self)),
            (final(self)@, r) == syntax::var_declaration(old(self).source(), old(self)@),
        decreases remaining(old(self).source(), old(self).current as int), 17nat,
    {
        let name = match self.expect(TokenType::Identifier) {
            Err(e) => {
                return Err(e);
            },
            Ok(name_at) => self.intern_at(name_at),
        };
        let initializer = if self.peek() == TokenType::Equal {
            self.advance();
            match self.expression() {
                Err(e) => {
                    return Err(e);
                },
                Ok(value) => Some(value),
            }
        } else {
            None
        };
        match self.expect(TokenType::Semicolon) {
            Err(e) => Err(e),
            Ok(_) => Ok(self.put(Node::Var { name, initializer })),
        }
    }

    /// An expression and the semicolon behind it.
    pub fn terminated(&mut self) -> (r: Result<usize, SyntaxError>)
        requires
            old(self).wf(),
        ensures
            final(self).follows(old(self)),
            (final(self)@, r) == syntax::terminated(old(self).source(), old(self)@),
            r is Ok ==> final(self).current > old(self).current,
        decreases remaining(old(self).source(), old(self).current as int), 17nat,
    {
        match self.expression() {
            Err(e) => Err(e),
            Ok(value) => match self.expect(TokenType::Semicolon) {
                Err(e) => Err(e),
                Ok(_) => Ok(value),
            },
        }
    }

    /// An expression, unless the next token is of kind `until`.
    pub fn optional_expression(&mut self, until: TokenType) -> (r: Result<
        Option<usize>,
        SyntaxError,
    >)
        requires
            old(self).wf(),
        ensures
            final(self).follows(old(self)),
            (final(self)@, r) == syntax::optional_expression(
                old(self).source(),
                old(self)@,
                until,
            ),
        decreases remaining(old(self).source(), old(self).current as int), 17nat,
    {
        if self.peek() == until {
            Ok(None)
        } else {
            match self.expression() {
                Err(e) => Err(e),
                Ok(value) => Ok(Some(value)),
            }
        }
    }
}

impl Parser {
    /// The rest of an `if` statement behind `if`:
    /// `(` expression `)` statement ( `else` statement )?
    pub fn if_statement(&mut self) -> (r: Result<usize, SyntaxError>)
        requires
            old(self).wf(),
        ensures
            final(self).follows(old(self)),
            (final(self)@, r) == syntax::if_statement(old(self).source(), old(self)@),
        decreases remaining(old(self).source(), old(self).current as int), 17nat,
    {
        match self.expect(TokenType::LeftParen) {
            Err(e) => {
                return Err(e);
            },
            Ok(_) => {},
        }
        let condition = match self.expression() {
            Err(e) => {
                return Err(e);
            },
            Ok(condition) => condition,
        };
        match self.expect(TokenType::RightParen) {
            Err(e) => {
                return Err(e);
            },
            Ok(_) => {},
        }
        let then_branch = match self.statement() {
            Err(e) => {
                return Err(e);
            },
            Ok(then_branch) => then_branch,
        };
        let else_branch = if self.peek() == TokenType::Else {
            self.advance();
            match self.statement() {
                Err(e) => {
                    return Err(e);
                },
                Ok(else_branch) => Some(else_branch),
            }
        } else {
            None
        };
        Ok(self.put(Node::If { condition, then_branch, else_branch }))
    }

    /// The rest of a `while` statement behind `while`:
    /// `(` expression `)` statement
    pub fn while_statement(&mut self) -> (r: Result<usize, SyntaxError>)
        requires
            old(self).wf(),
        ensures
            final(self).follows(old(self)),
            (final(self)@, r) == syntax::while_statement(old(self).source(), old(self)@),
        decreases remaining(old(self).source(), old(self).current as int), 17nat,
    {
        match self.expect(TokenType::LeftParen) {
            Err(e) => {
                return Err(e);
            },
            Ok(_) => {},
        }
        let condition = match self.expression() {
            Err(e) => {
                return Err(e);
            },
            Ok(condition) => condition,
        };
        match self.expect(TokenType::RightParen) {
            Err(e) => {
                return Err(e);
            },
            Ok(_) => {},
        }
        match self.statement() {
            Err(e) => Err(e),
            Ok(body) => Ok(self.put(Node::While { condition, body })),
        }
    }

    /// The first clause of a `for` statement: `;` | `var` declaration |
    /// expression `;`
    pub fn for_initializer(&mut self) -> (r: Result<Option<usize>, SyntaxError>)
        requires
            old(self).wf(),
        ensures
            final(self).follows(old(self)),
            (final(self)@, r) == syntax::for_initializer(old(self).source(), old(self)@),
        decreases remaining(old(self).source(), old(self).current as int), 18nat,
    {
        match self.peek() {
            TokenType::Semicolon => {
                self.advance();
                Ok(None)
            },
            TokenType::Var => {
                self.advance();
                match self.var_declaration() {
                    Err(e) => Err(e),
                    Ok(made) => Ok(Some(made)),
                }
            },
            _ => match self.terminated() {
                Err(e) => Err(e),
                Ok(value) => Ok(Some(self.put(Node::Expression { expression: value }))),
            },
        }
    }

    /// Adds the statement that a `for` statement stands for.
    pub fn for_loop(
        &mut self,
        initializer: Option<usize>,
        test: Option<usize>,
        increment: Option<usize>,
        body: usize,
    ) -> (place: usize)
        ensures
            final(self).tokens == old(self).tokens,
            final(self).current == old(self).current,
            (final(self)@, place) == syntax::for_loop(
                old(self)@,
                initializer,
                test,
                increment,
                body,
            ),
    {
        reveal(syntax::for_loop);
        let body = match increment {
            Some(increment) => {
                let step = self.put(Node::Expression { expression: increment });
                let mut both: Vec<usize> = Vec::new();
                both.push(body);
                both.push(step);
                assert(both@ =~= seq![body, step]);
                let both = self.put_list(&both);
                self.put(Node::Block { body: both })
            },
            None => body,
        };
        let test = match test {
            Some(test) => test,
            None => self.put(Node::Bool { value: true }),
        };
        let repeat = self.put(Node::While { condition: test, body });
        let mut all: Vec<usize> = Vec::new();
        match initializer {
            Some(initializer) => {
                all.push(initializer);
                all.push(repeat);
                assert(all@ =~= seq![initializer, repeat]);
            },
            None => {
                all.push(repeat);
                assert(all@ =~= seq![repeat]);
            },
        }
        let all = self.put_list(&all);
        self.put(Node::Block { body: all })
    }

    /// The end of a `for` statement behind its second semicolon:
    /// expression? `)` statement
    pub fn for_end(&mut self, initializer: Option<usize>, test: Option<usize>) -> (r: Result<
        usize,
        SyntaxError,
    >)
        requires
            old(self).wf(),
        ensures
            final(self).follows(old(self)),
            (final(self)@, r) == syntax::for_end(
                old(self).source(),
                old(self)@,
                initializer,
                test,
            ),
        decreases remaining(old(self).source(), old(self).current as int), 18nat,
    {
        let increment = match self.optional_expression(TokenType::RightParen) {
            Err(e) => {
                return Err(e);
            },
            Ok(increment) => increment,
        };
        match self.expect(TokenType::RightParen) {
            Err(e) => {
                return Err(e);
            },
            Ok(_) => {},
        }
        match self.statement() {
            Err(e) => Err(e),
            Ok(body) => Ok(self.for_loop(initializer, test, increment, body)),
        }
    }

    /// The middle of a `for` statement behind its initializer:
    /// expression? `;` expression? `)` statement
    pub fn for_test(&mut self, initializer: Option<usize>) -> (r: Result<usize, SyntaxError>)
        requires
            old(self).wf(),
        ensures
            final(self).follows(old(self)),
            (final(self)@, r) == syntax::for_test(old(self).source(), old(self)@, initializer),
        decreases remaining(old(self).source(), old(self).current as int), 19nat,
    {
        let test = match self.optional_expression(TokenType::Semicolon) {
            Err(e) => {
                return Err(e);
            },
            Ok(test) => test,
        };
        match self.expect(TokenType::Semicolon) {
            Err(e) => Err(e),
            Ok(_) => self.for_end(initializer, test),
        }
    }

    /// The rest of a `for` statement behind `for`:
    /// `(` initializer expression? `;` expression? `)` statement
    pub fn for_statement(&mut self) -> (r: Result<usize, SyntaxError>)
        requires
            old(self).wf(),
        ensures
            final(self).follows(old(self)),
            (final(self)@, r) == syntax::for_statement(old(self).source(), old(self)@),
        decreases remaining(old(self).source(), old(self).current as int), 17nat,
    {
        match self.expect(TokenType::LeftParen) {
            Err(e) => {
                return Err(e);
            },
            Ok(_) => {},
        }
        match self.for_initializer() {
            Err(e) => Err(e),
            Ok(initializer) => self.for_test(initializer),
        }
    }

    /// The rest of a `return` statement behind `return`, which stands on
    /// `line`: expression? `;`
    pub fn return_statement(&mut self, line: usize) -> (r: Result<usize, SyntaxError>)
        requires
            old(self).wf(),
        ensures
            final(self).follows(old(self)),
            (final(self)@, r) == syntax::return_statement(old(self).source(), old(self)@, line),
        decreases remaining(old(self).source(), old(self).current as int), 18nat,
    {
        match self.optional_expression(TokenType::Semicolon) {
            Err(e) => Err(e),
            Ok(value) => match self.expect(TokenType::Semicolon) {
                Err(e) => Err(e),
                Ok(_) => Ok(self.put(Node::Return { value, line })),
            },
        }
    }

    /// statement → `print` expression `;` | `return` expression? `;`
    ///           | `if` … | `while` … | `for` … | `{` declaration* `}`
    ///           | expression `;`
    pub fn statement(&mut self) -> (r: Result<usize, SyntaxError>)
        requires
            old(self).wf(),
        ensures
            final(self).follows(old(self)),
            (final(self)@, r) == syntax::statement(old(self).source(), old(self)@),
            r is Ok ==> final(self).current > old(self).current,
        decreases remaining(old(self).source(), old(self).current as int), 19nat,
    {
        match self.peek() {
            TokenType::Print => {
                self.advance();
                match self.terminated() {
                    Err(e) => Err(e),
                    Ok(value) => Ok(self.put(Node::Print { expression: value })),
                }
            },
            TokenType::Return => {
                let line = self.line_of(self.current);
                self.advance();
                self.return_statement(line)
            },
            TokenType::If => {
                self.advance();
                self.if_statement()
            },
            TokenType::While => {
                self.advance();
                self.while_statement()
            },
            TokenType::For => {
                self.advance();
                self.for_statement()
            },
            TokenType::LeftBrace => {
                self.advance();
                match self.block() {
                    Err(e) => Err(e),
                    Ok(body) => Ok(self.put(Node::Block { body })),
                }
            },
            _ => match self.terminated() {
                Err(e) => Err(e),
                Ok(value) => Ok(self.put(Node::Expression { expression: value })),
            },
        }
    }

    /// The rest of a block behind `{`: declaration* `}`. Gives the list of
    /// the block's statements.
    pub fn block(&mut self) -> (r: Result<usize, SyntaxError>)
        requires
            old(self).wf(),
        ensures
            final(self).follows(old(self)),
            (final(self)@, r) == syntax::block(old(self).source(), old(self)@),
            r is Ok ==> final(self).current > old(self).current,
        decreases remaining(old(self).source(), old(self).current as int), 22nat,
    {
        let found = self.declarations(true);
        match self.expect(TokenType::RightBrace) {
            Err(e) => Err(e),
            Ok(_) => Ok(self.put_list(&found)),
        }
    }

    /// The declarations up to the end of file or, inside a block, up to
    /// but not including the closing brace.
    pub fn declarations(&mut self, nested: bool) -> (found: Vec<usize>)
        requires
            old(self).wf(),
        ensures
            final(self).follows(old(self)),
            (final(self)@, found@) == syntax::declarations(
                old(self).source(),
                old(self)@,
                Seq::empty(),
                nested,
            ),
        decreases remaining(old(self).source(), old(self).current as int), 21nat,
    {
        let mut found: Vec<usize> = Vec::new();
        loop
            invariant
                self.follows(old(self)),
                syntax::declarations(self.source(), self@, found@, nested) == syntax::declarations(
                    old(self).source(),
                    old(self)@,
                    Seq::empty(),
                    nested,
                ),
            decreases remaining(self.source(), self.current as int),
        {
            let kind = self.peek();
            if kind == TokenType::Eof || (nested && kind == TokenType::RightBrace) {
                return found;
            }
            match self.declaration() {
                Some(made) => {
                    found.push(made);
                },
                None => {},
            }
        }
    }

    /// Discards the next token and those behind it up to the next
    /// statement boundary.
    pub fn synchronize(&mut self)
        requires
            old(self).wf(),
        ensures
            final(self).follows(old(self)),
            final(self)@ == (ParserView {
                pos: syntax::synchronize(old(self).source(), old(self).current as int),
                ..old(self)@
            }),
            kind_at(old(self).source(), old(self).current as int) != TokenType::Eof
                ==> final(self).current > old(self).current,
    {
        if self.peek() == TokenType::Eof {
            return ;
        }
        self.advance();
        loop
            invariant
                self.follows(old(self)),
                self.current > old(self).current,
                self@ == (ParserView { pos: self.current as int, ..old(self)@ }),
                syntax::boundary(self.source(), self.current as int) == syntax::synchronize(
                    old(self).source(),
                    old(self).current as int,
                ),
            decreases remaining(self.source(), self.current as int),
        {
            let kind = self.peek();
            if kind == TokenType::Eof {
                return ;
            }
            if self.kind_of(self.current - 1) == TokenType::Semicolon {
                return ;
            }
            if is_statement_start(kind) {
                return ;
            }
            self.advance();
        }
    }

    /// declaration → `class` … | `fun` function | `var` … | statement
    ///
    /// A violation is recorded, and the tokens up to the next statement
    /// boundary are discarded.
    pub fn declaration(&mut self) -> (made: Option<usize>)
        requires
            old(self).wf(),
        ensures
            final(self).follows(old(self)),
            (final(self)@, made) == syntax::declaration(old(self).source(), old(self)@),
            kind_at(old(self).source(), old(self).current as int) != TokenType::Eof
                ==> final(self).current > old(self).current,
        decreases remaining(old(self).source(), old(self).current as int), 20nat,
    {
        let made = match self.peek() {
            TokenType::Class => {
                self.advance();
                self.class_declaration()
            },
            TokenType::Fun => {
                self.advance();
                self.function()
            },
            TokenType::Var => {
                self.advance();
                self.var_declaration()
            },
            _ => self.statement(),
        };
        match made {
            Ok(made) => Some(made),
            Err(e) => {
                self.errors.push(e);
                self.synchronize();
                None
            },
        }
    }

    /// program → declaration* end of file. Gives the list of the program's
    /// statements.
    pub fn parse(&mut self) -> (program: usize)
        requires
            old(self).wf(),
        ensures
            final(self).follows(old(self)),
            (final(self)@, program) == syntax::program(old(self).source(), old(self)@),
    {
        let found = self.declarations(false);
        self.put_list(&found)
    }
}

/// What parsing a sequence of tokens gives: the tables with the syntax
/// tree in them, the list of the program's statements, and the violations
/// of the grammar in the order met.
pub struct Parsed {
    pub code: Code,
    pub program: usize,
    pub errors: Vec<SyntaxError>,
}

/// Parses `tokens` from the first to the end of file, adding to the tables
/// of `code`. Never fails: a declaration that violates the grammar is
/// recorded and left out, and parsing goes on at the next statement
/// boundary.
pub fn parse(tokens: Vec<Token>, code: Code) -> (out: Parsed)
    ensures
        ({
            let (end, program) = syntax::program(views(tokens@), start_of(code));
            &&& out.code.nodes@ == end.nodes
            &&& text_views(out.code.texts@) == end.texts
            &&& out.errors@ == end.errors
            &&& out.program == program
        }),
{
    let mut parser = Parser::new(tokens, code);
    let program = parser.parse();
    Parsed { code: parser.code, program, errors: parser.errors }
}

/// The state of a parse that starts at the first token with the tables of
/// `code`.
pub open spec fn start_of(code: Code) -> ParserView {
    ParserView {
        pos: 0,
        nodes: code.nodes@,
        texts: text_views(code.texts@),
        errors: Seq::empty(),
    }
}

} // verus!
