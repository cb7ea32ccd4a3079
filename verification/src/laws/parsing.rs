//! Facts that hold of every parse.

use vstd::prelude::*;
use crate::ast::{BinaryOp, Node};
use crate::error::SyntaxError;
use crate::semantics::{length, uncons};
use crate::syntax::{
    arguments, assignment, binary, binary_op, binary_rest, block, boundary, call, call_rest,
    class_declaration, declaration, declarations, expect, expression, for_end, for_initializer,
    for_loop, for_statement, for_test, function, function_rest, if_statement, kind_at, level, line_at,
    methods, optional_expression, parameters, primary, remaining, return_statement,
    starts_statement, statement, superclass, terminated, text_at, unary, unary_op,
    var_declaration, while_statement, with_list, ParserView,
};
use crate::token::{TokenType, TokenView};

verus! {

/// The items of the list at `list`, in order.
pub open spec fn items_of(nodes: Seq<Node>, list: usize) -> Seq<usize>
    decreases list,
{
    match uncons(nodes, list) {
        Some((head, tail)) => seq![head] + items_of(nodes, tail),
        None => Seq::empty(),
    }
}

/// Adding nodes at the end changes no list that was there before.
pub proof fn lemma_list_survives(nodes: Seq<Node>, more: Seq<Node>, list: usize)
    requires
        list < nodes.len(),
    ensures
        items_of(nodes + more, list) == items_of(nodes, list),
    decreases list,
{
    assert((nodes + more)[list as int] == nodes[list as int]);
    match uncons(nodes, list) {
        Some((_, tail)) => {
            lemma_list_survives(nodes, more, tail);
        },
        None => {},
    }
}

/// The cells of a list are added at the end of the table, and what was in
/// the table stays.
pub proof fn lemma_with_list_adds(nodes: Seq<Node>, items: Seq<usize>)
    ensures
        with_list(nodes, items).len() == nodes.len() + items.len() + 1,
        with_list(nodes, items).subrange(0, nodes.len() as int) == nodes,
    decreases items.len(),
{
    if items.len() == 0 {
        assert(nodes.push(Node::Empty).subrange(0, nodes.len() as int) =~= nodes);
    } else {
        let shorter = with_list(nodes, items.drop_first());
        lemma_with_list_adds(nodes, items.drop_first());
        assert(with_list(nodes, items).subrange(0, nodes.len() as int) =~= shorter.subrange(
            0,
            nodes.len() as int,
        ));
    }
}

/// The parser and the machine agree on lists: the list that the parser
/// writes for `items` is read back by the machine as exactly `items`, and
/// has as many items.
pub proof fn lemma_list_holds_its_items(nodes: Seq<Node>, items: Seq<usize>)
    requires
        nodes.len() + items.len() + 1 <= usize::MAX,
    ensures
        items_of(with_list(nodes, items), (with_list(nodes, items).len() - 1) as usize) == items,
        length(with_list(nodes, items), (with_list(nodes, items).len() - 1) as usize)
            == items.len(),
    decreases items.len(),
{
    let written = with_list(nodes, items);
    lemma_with_list_adds(nodes, items);
    let list = (written.len() - 1) as usize;
    if items.len() == 0 {
        assert(items_of(written, list) =~= items);
    } else {
        let rest = items.drop_first();
        let shorter = with_list(nodes, rest);
        lemma_with_list_adds(nodes, rest);
        lemma_list_holds_its_items(nodes, rest);
        let tail = (shorter.len() - 1) as usize;
        let cell = Node::Cons { head: items.first(), tail };
        assert(written == shorter.push(cell));
        assert(written =~= shorter + seq![cell]);
        lemma_list_survives(shorter, seq![cell], tail);
        lemma_length_survives(shorter, seq![cell], tail);
        assert(uncons(written, list) == Some((items.first(), tail)));
        assert(items_of(written, list) =~= seq![items.first()] + rest);
        assert(seq![items.first()] + rest =~= items);
    }
}

/// Adding nodes at the end changes the length of no list that was there
/// before.
pub proof fn lemma_length_survives(nodes: Seq<Node>, more: Seq<Node>, list: usize)
    requires
        list < nodes.len(),
    ensures
        length(nodes + more, list) == length(nodes, list),
    decreases list,
{
    assert((nodes + more)[list as int] == nodes[list as int]);
    match uncons(nodes, list) {
        Some((_, tail)) => {
            lemma_length_survives(nodes, more, tail);
        },
        None => {},
    }
}

/// The operand of an operator ends before an operator that binds no
/// tighter: behind an expression, an operator of a level under `min` is
/// left for whoever asked for the expression. So `a * b + c` is the sum of
/// a product and `c`, and `a - b - c` takes `c` from `a - b`.
pub proof fn lemma_operand_ends_at_looser_operator(
    tokens: Seq<TokenView>,
    s: ParserView,
    min: nat,
    left: usize,
)
    requires
        binary_op(kind_at(tokens, s.pos)) is Some ==> level(binary_op(kind_at(tokens, s.pos))->0)
            < min,
    ensures
        binary_rest(tokens, s, min, left) == (s, Ok::<usize, SyntaxError>(left)),
{
}

/// An operator of level `min` or higher takes as its right operand an
/// expression of operators that all bind tighter than itself, and the
/// node of the operator becomes the left operand of what follows.
pub proof fn lemma_operator_takes_tighter_operand(
    tokens: Seq<TokenView>,
    s: ParserView,
    min: nat,
    left: usize,
    op: BinaryOp,
)
    requires
        binary_op(kind_at(tokens, s.pos)) == Some(op),
        level(op) >= min,
    ensures
        ({
            let (next, right) = binary(tokens, s.advanced(), level(op) + 1);
            let s1 = s.advanced().onward(next);
            binary_rest(tokens, s, min, left) == match right {
                Err(e) => (s1, Err::<usize, SyntaxError>(e)),
                Ok(right) => {
                    let (s2, whole) = s1.put(
                        Node::Binary { op, left, right, line: line_at(tokens, s.pos) },
                    );
                    binary_rest(tokens, s2, min, whole)
                },
            }
        }),
{
}

/// Whether a parse that started in `s` and gave `given` ended at or
/// behind `s`, and behind it where it gave a node.
pub open spec fn moved_on(s: ParserView, ended: (ParserView, Result<usize, SyntaxError>)) -> bool {
    let (end, given) = ended;
    &&& end.pos >= s.pos
    &&& given is Ok ==> end.pos > s.pos
}

/// Discarding tokens never moves backwards.
pub proof fn lemma_boundary_moves_on(tokens: Seq<TokenView>, pos: int)
    ensures
        boundary(tokens, pos) >= pos,
    decreases remaining(tokens, pos),
{
    if kind_at(tokens, pos) != TokenType::Eof && kind_at(tokens, pos - 1) != TokenType::Semicolon
        && !starts_statement(kind_at(tokens, pos)) {
        lemma_boundary_moves_on(tokens, pos + 1);
    }
}

/// No primary expression moves backwards.
pub proof fn lemma_primary_moves_on(tokens: Seq<TokenView>, s: ParserView)
    ensures
        moved_on(s, primary(tokens, s)),
    decreases remaining(tokens, s.pos), 9nat,
{
    match kind_at(tokens, s.pos) {
        TokenType::LeftParen => {
            lemma_expression_moves_on(tokens, s.advanced());
        },
        TokenType::Lambda => {
            lemma_function_rest_moves_on(tokens, s.advanced(), None);
        },
        _ => {},
    }
}

/// No list of arguments moves backwards.
pub proof fn lemma_arguments_move_on(tokens: Seq<TokenView>, s: ParserView, found: Seq<usize>)
    ensures
        arguments(tokens, s, found).0.pos >= s.pos,
    decreases remaining(tokens, s.pos), 17nat,
{
    if !(found.len() == 0 && kind_at(tokens, s.pos) == TokenType::RightParen) {
        lemma_expression_moves_on(tokens, s);
        let (next, argument) = expression(tokens, s);
        let s1 = s.onward(next);
        match argument {
            Err(_) => {},
            Ok(argument) => {
                if kind_at(tokens, s1.pos) == TokenType::Comma {
                    lemma_arguments_move_on(tokens, s1.advanced(), found.push(argument));
                }
            },
        }
    }
}

/// No chain of calls and property accesses moves backwards.
pub proof fn lemma_call_rest_moves_on(tokens: Seq<TokenView>, s: ParserView, callee: usize)
    ensures
        call_rest(tokens, s, callee).0.pos >= s.pos,
    decreases remaining(tokens, s.pos), 10nat,
{
    let line = line_at(tokens, s.pos);
    match kind_at(tokens, s.pos) {
        TokenType::LeftParen => {
            lemma_arguments_move_on(tokens, s.advanced(), Seq::empty());
            let (next, found) = arguments(tokens, s.advanced(), Seq::empty());
            let s1 = s.advanced().onward(next);
            match found {
                Err(_) => {},
                Ok(found) => {
                    let (s2, close) = expect(tokens, s1, TokenType::RightParen);
                    match close {
                        Err(_) => {},
                        Ok(_) => {
                            let (s3, arguments) = s2.put_list(found);
                            let (s4, call) = s3.put(Node::Call { callee, arguments, line });
                            lemma_call_rest_moves_on(tokens, s4, call);
                        },
                    }
                },
            }
        },
        TokenType::Dot => {
            let (s1, name) = expect(tokens, s.advanced(), TokenType::Identifier);
            match name {
                Err(_) => {},
                Ok(at) => {
                    let (s2, name) = s1.intern(text_at(tokens, at as int));
                    let (s3, get) = s2.put(Node::GetProperty { object: callee, name, line });
                    lemma_call_rest_moves_on(tokens, s3, get);
                },
            }
        },
        _ => {},
    }
}

/// No call expression moves backwards.
pub proof fn lemma_call_moves_on(tokens: Seq<TokenView>, s: ParserView)
    ensures
        moved_on(s, call(tokens, s)),
    decreases remaining(tokens, s.pos), 11nat,
{
    lemma_primary_moves_on(tokens, s);
    let (next, callee) = primary(tokens, s);
    match callee {
        Err(_) => {},
        Ok(callee) => {
            lemma_call_rest_moves_on(tokens, s.onward(next), callee);
        },
    }
}

/// No unary expression moves backwards.
pub proof fn lemma_unary_moves_on(tokens: Seq<TokenView>, s: ParserView)
    ensures
        moved_on(s, unary(tokens, s)),
    decreases remaining(tokens, s.pos), 12nat,
{
    match unary_op(kind_at(tokens, s.pos)) {
        Some(_) => {
            lemma_unary_moves_on(tokens, s.advanced());
        },
        None => {
            lemma_call_moves_on(tokens, s);
        },
    }
}

/// No chain of binary operators moves backwards.
pub proof fn lemma_binary_rest_moves_on(
    tokens: Seq<TokenView>,
    s: ParserView,
    min: nat,
    left: usize,
)
    ensures
        binary_rest(tokens, s, min, left).0.pos >= s.pos,
    decreases remaining(tokens, s.pos), 13nat,
{
    match binary_op(kind_at(tokens, s.pos)) {
        Some(op) => {
            if level(op) >= min {
                let line = line_at(tokens, s.pos);
                lemma_binary_moves_on(tokens, s.advanced(), level(op) + 1);
                let (next, right) = binary(tokens, s.advanced(), level(op) + 1);
                let s1 = s.advanced().onward(next);
                match right {
                    Err(_) => {},
                    Ok(right) => {
                        let (s2, whole) = s1.put(Node::Binary { op, left, right, line });
                        lemma_binary_rest_moves_on(tokens, s2, min, whole);
                    },
                }
            }
        },
        None => {},
    }
}

/// No binary expression moves backwards.
pub proof fn lemma_binary_moves_on(tokens: Seq<TokenView>, s: ParserView, min: nat)
    ensures
        moved_on(s, binary(tokens, s, min)),
    decreases remaining(tokens, s.pos), 14nat,
{
    lemma_unary_moves_on(tokens, s);
    let (next, left) = unary(tokens, s);
    match left {
        Err(_) => {},
        Ok(left) => {
            lemma_binary_rest_moves_on(tokens, s.onward(next), min, left);
        },
    }
}

/// No assignment moves backwards.
pub proof fn lemma_assignment_moves_on(tokens: Seq<TokenView>, s: ParserView)
    ensures
        moved_on(s, assignment(tokens, s)),
    decreases remaining(tokens, s.pos), 15nat,
{
    lemma_binary_moves_on(tokens, s, 1);
    let (next, left) = binary(tokens, s, 1);
    let s1 = s.onward(next);
    match left {
        Err(_) => {},
        Ok(_) => {
            if kind_at(tokens, s1.pos) == TokenType::Equal {
                lemma_assignment_moves_on(tokens, s1.advanced());
            }
        },
    }
}

/// No expression moves backwards.
pub proof fn lemma_expression_moves_on(tokens: Seq<TokenView>, s: ParserView)
    ensures
        moved_on(s, expression(tokens, s)),
    decreases remaining(tokens, s.pos), 16nat,
{
    lemma_assignment_moves_on(tokens, s);
}

/// No list of parameters moves backwards.
pub proof fn lemma_parameters_move_on(tokens: Seq<TokenView>, s: ParserView, found: Seq<usize>)
    ensures
        parameters(tokens, s, found).0.pos >= s.pos,
    decreases remaining(tokens, s.pos), 5nat,
{
    if !(found.len() == 0 && kind_at(tokens, s.pos) == TokenType::RightParen) {
        let (s1, name) = expect(tokens, s, TokenType::Identifier);
        match name {
            Err(_) => {},
            Ok(at) => {
                let (s2, name) = s1.intern(text_at(tokens, at as int));
                if kind_at(tokens, s2.pos) == TokenType::Comma {
                    lemma_parameters_move_on(tokens, s2.advanced(), found.push(name));
                }
            },
        }
    }
}

/// No function moves backwards behind its name.
pub proof fn lemma_function_rest_moves_on(
    tokens: Seq<TokenView>,
    s: ParserView,
    name: Option<usize>,
)
    ensures
        moved_on(s, function_rest(tokens, s, name)),
    decreases remaining(tokens, s.pos), 6nat,
{
    let (s1, open) = expect(tokens, s, TokenType::LeftParen);
    if open is Ok {
        lemma_parameters_move_on(tokens, s1, Seq::empty());
        let (next, found) = parameters(tokens, s1, Seq::empty());
        let s2 = s1.onward(next);
        if found is Ok {
            let (s3, close) = expect(tokens, s2, TokenType::RightParen);
            if close is Ok {
                let (s4, brace) = expect(tokens, s3, TokenType::LeftBrace);
                if brace is Ok {
                    let (s5, _) = s4.put_list(found->Ok_0);
                    lemma_block_moves_on(tokens, s5);
                }
            }
        }
    }
}

/// No function moves backwards.
pub proof fn lemma_function_moves_on(tokens: Seq<TokenView>, s: ParserView)
    ensures
        moved_on(s, function(tokens, s)),
    decreases remaining(tokens, s.pos), 7nat,
{
    let (s1, name) = expect(tokens, s, TokenType::Identifier);
    match name {
        Err(_) => {},
        Ok(at) => {
            let (s2, name) = s1.intern(text_at(tokens, at as int));
            lemma_function_rest_moves_on(tokens, s2, Some(name));
        },
    }
}

/// No list of methods moves backwards.
pub proof fn lemma_methods_move_on(tokens: Seq<TokenView>, s: ParserView, found: Seq<usize>)
    ensures
        methods(tokens, s, found).0.pos >= s.pos,
    decreases remaining(tokens, s.pos), 8nat,
{
    if !(kind_at(tokens, s.pos) == TokenType::RightBrace || kind_at(tokens, s.pos)
        == TokenType::Eof) {
        lemma_function_moves_on(tokens, s);
        let (next, method) = function(tokens, s);
        match method {
            Err(_) => {},
            Ok(method) => {
                lemma_methods_move_on(tokens, s.advanced().onward(next), found.push(method));
            },
        }
    }
}

/// No class declaration moves backwards.
pub proof fn lemma_class_declaration_moves_on(tokens: Seq<TokenView>, s: ParserView)
    ensures
        moved_on(s, class_declaration(tokens, s)),
    decreases remaining(tokens, s.pos), 17nat,
{
    let (s1, name) = expect(tokens, s, TokenType::Identifier);
    match name {
        Err(_) => {},
        Ok(at) => {
            let (s2, _) = s1.intern(text_at(tokens, at as int));
            let (s3, parent) = superclass(tokens, s2);
            if parent is Ok {
                let (s4, brace) = expect(tokens, s3, TokenType::LeftBrace);
                if brace is Ok {
                    lemma_methods_move_on(tokens, s4, Seq::empty());
                }
            }
        },
    }
}

/// No variable declaration moves backwards.
pub proof fn lemma_var_declaration_moves_on(tokens: Seq<TokenView>, s: ParserView)
    ensures
        moved_on(s, var_declaration(tokens, s)),
    decreases remaining(tokens, s.pos), 17nat,
{
    let (s1, name) = expect(tokens, s, TokenType::Identifier);
    match name {
        Err(_) => {},
        Ok(at) => {
            let (s2, _) = s1.intern(text_at(tokens, at as int));
            if kind_at(tokens, s2.pos) == TokenType::Equal {
                lemma_expression_moves_on(tokens, s2.advanced());
            }
        },
    }
}

/// No expression with its semicolon moves backwards.
pub proof fn lemma_terminated_moves_on(tokens: Seq<TokenView>, s: ParserView)
    ensures
        moved_on(s, terminated(tokens, s)),
    decreases remaining(tokens, s.pos), 17nat,
{
    lemma_expression_moves_on(tokens, s);
}

/// No optional expression moves backwards.
pub proof fn lemma_optional_expression_moves_on(
    tokens: Seq<TokenView>,
    s: ParserView,
    until: TokenType,
)
    ensures
        optional_expression(tokens, s, until).0.pos >= s.pos,
    decreases remaining(tokens, s.pos), 17nat,
{
    if kind_at(tokens, s.pos) != until {
        lemma_expression_moves_on(tokens, s);
    }
}

/// No `if` statement moves backwards.
pub proof fn lemma_if_statement_moves_on(tokens: Seq<TokenView>, s: ParserView)
    ensures
        moved_on(s, if_statement(tokens, s)),
    decreases remaining(tokens, s.pos), 17nat,
{
    let (s1, open) = expect(tokens, s, TokenType::LeftParen);
    if open is Ok {
        lemma_expression_moves_on(tokens, s1);
        let (next, test) = expression(tokens, s1);
        let s2 = s1.onward(next);
        if test is Ok {
            let (s3, close) = expect(tokens, s2, TokenType::RightParen);
            if close is Ok {
                lemma_statement_moves_on(tokens, s3);
                let (next, then_branch) = statement(tokens, s3);
                let s4 = s3.onward(next);
                if then_branch is Ok {
                    if kind_at(tokens, s4.pos) == TokenType::Else {
                        lemma_statement_moves_on(tokens, s4.advanced());
                    }
                }
            }
        }
    }
}

/// No `while` statement moves backwards.
pub proof fn lemma_while_statement_moves_on(tokens: Seq<TokenView>, s: ParserView)
    ensures
        moved_on(s, while_statement(tokens, s)),
    decreases remaining(tokens, s.pos), 17nat,
{
    let (s1, open) = expect(tokens, s, TokenType::LeftParen);
    if open is Ok {
        lemma_expression_moves_on(tokens, s1);
        let (next, test) = expression(tokens, s1);
        let s2 = s1.onward(next);
        if test is Ok {
            let (s3, close) = expect(tokens, s2, TokenType::RightParen);
            if close is Ok {
                lemma_statement_moves_on(tokens, s3);
            }
        }
    }
}

/// No first clause of a `for` statement moves backwards.
pub proof fn lemma_for_initializer_moves_on(tokens: Seq<TokenView>, s: ParserView)
    ensures
        for_initializer(tokens, s).0.pos >= s.pos,
    decreases remaining(tokens, s.pos), 18nat,
{
    match kind_at(tokens, s.pos) {
        TokenType::Semicolon => {},
        TokenType::Var => {
            lemma_var_declaration_moves_on(tokens, s.advanced());
        },
        _ => {
            lemma_terminated_moves_on(tokens, s);
        },
    }
}

/// Writing the statement that a `for` statement stands for takes no
/// token.
pub proof fn lemma_for_loop_keeps_the_place(
    s: ParserView,
    initializer: Option<usize>,
    test: Option<usize>,
    increment: Option<usize>,
    body: usize,
)
    ensures
        for_loop(s, initializer, test, increment, body).0.pos == s.pos,
{
    reveal(for_loop);
}

/// No end of a `for` statement moves backwards.
pub proof fn lemma_for_end_moves_on(
    tokens: Seq<TokenView>,
    s: ParserView,
    initializer: Option<usize>,
    test: Option<usize>,
)
    ensures
        moved_on(s, for_end(tokens, s, initializer, test)),
    decreases remaining(tokens, s.pos), 18nat,
{
    lemma_optional_expression_moves_on(tokens, s, TokenType::RightParen);
    let (next, increment) = optional_expression(tokens, s, TokenType::RightParen);
    let s1 = s.onward(next);
    if increment is Ok {
        let (s2, close) = expect(tokens, s1, TokenType::RightParen);
        if close is Ok {
            lemma_statement_moves_on(tokens, s2);
            let (s3, body) = statement(tokens, s2);
            if body is Ok {
                lemma_for_loop_keeps_the_place(
                    s3,
                    initializer,
                    test,
                    increment->Ok_0,
                    body->Ok_0,
                );
            }
        }
    }
}

/// No middle of a `for` statement moves backwards.
pub proof fn lemma_for_test_moves_on(
    tokens: Seq<TokenView>,
    s: ParserView,
    initializer: Option<usize>,
)
    ensures
        moved_on(s, for_test(tokens, s, initializer)),
    decreases remaining(tokens, s.pos), 19nat,
{
    lemma_optional_expression_moves_on(tokens, s, TokenType::Semicolon);
    let (next, test) = optional_expression(tokens, s, TokenType::Semicolon);
    let s1 = s.onward(next);
    if test is Ok {
        let (s2, end) = expect(tokens, s1, TokenType::Semicolon);
        if end is Ok {
            lemma_for_end_moves_on(tokens, s2, initializer, test->Ok_0);
        }
    }
}

/// No `for` statement moves backwards.
pub proof fn lemma_for_statement_moves_on(tokens: Seq<TokenView>, s: ParserView)
    ensures
        moved_on(s, for_statement(tokens, s)),
    decreases remaining(tokens, s.pos), 17nat,
{
    let (s1, open) = expect(tokens, s, TokenType::LeftParen);
    if open is Ok {
        lemma_for_initializer_moves_on(tokens, s1);
        let (next, initializer) = for_initializer(tokens, s1);
        let s2 = s1.onward(next);
        if initializer is Ok {
            lemma_for_test_moves_on(tokens, s2, initializer->Ok_0);
        }
    }
}

/// No `return` statement moves backwards.
pub proof fn lemma_return_statement_moves_on(tokens: Seq<TokenView>, s: ParserView, line: usize)
    ensures
        moved_on(s, return_statement(tokens, s, line)),
    decreases remaining(tokens, s.pos), 18nat,
{
    lemma_optional_expression_moves_on(tokens, s, TokenType::Semicolon);
}

/// No statement moves backwards.
pub proof fn lemma_statement_moves_on(tokens: Seq<TokenView>, s: ParserView)
    ensures
        moved_on(s, statement(tokens, s)),
    decreases remaining(tokens, s.pos), 19nat,
{
    match kind_at(tokens, s.pos) {
        TokenType::Print => {
            lemma_terminated_moves_on(tokens, s.advanced());
        },
        TokenType::Return => {
            lemma_return_statement_moves_on(tokens, s.advanced(), line_at(tokens, s.pos));
        },
        TokenType::If => {
            lemma_if_statement_moves_on(tokens, s.advanced());
        },
        TokenType::While => {
            lemma_while_statement_moves_on(tokens, s.advanced());
        },
        TokenType::For => {
            lemma_for_statement_moves_on(tokens, s.advanced());
        },
        TokenType::LeftBrace => {
            lemma_block_moves_on(tokens, s.advanced());
        },
        _ => {
            lemma_terminated_moves_on(tokens, s);
        },
    }
}

/// No block moves backwards.
pub proof fn lemma_block_moves_on(tokens: Seq<TokenView>, s: ParserView)
    ensures
        moved_on(s, block(tokens, s)),
    decreases remaining(tokens, s.pos), 22nat,
{
    lemma_declarations_move_on(tokens, s, Seq::empty(), true);
}

/// No list of declarations moves backwards.
pub proof fn lemma_declarations_move_on(
    tokens: Seq<TokenView>,
    s: ParserView,
    found: Seq<usize>,
    nested: bool,
)
    ensures
        declarations(tokens, s, found, nested).0.pos >= s.pos,
    decreases remaining(tokens, s.pos), 21nat,
{
    if !(kind_at(tokens, s.pos) == TokenType::Eof || (nested && kind_at(tokens, s.pos)
        == TokenType::RightBrace)) {
        lemma_declaration_moves_on(tokens, s);
        let (next, made) = declaration(tokens, s);
        let s1 = s.advanced().onward(next);
        match made {
            Some(made) => {
                lemma_declarations_move_on(tokens, s1, found.push(made), nested);
            },
            None => {
                lemma_declarations_move_on(tokens, s1, found, nested);
            },
        }
    }
}

/// No declaration moves backwards, and every declaration that does not
/// start at the end of file moves on: by what it is made of, or by what is
/// discarded after a violation.
pub proof fn lemma_declaration_moves_on(tokens: Seq<TokenView>, s: ParserView)
    ensures
        declaration(tokens, s).0.pos >= s.pos,
        kind_at(tokens, s.pos) != TokenType::Eof ==> declaration(tokens, s).0.pos > s.pos,
    decreases remaining(tokens, s.pos), 20nat,
{
    match kind_at(tokens, s.pos) {
        TokenType::Class => {
            lemma_class_declaration_moves_on(tokens, s.advanced());
        },
        TokenType::Fun => {
            lemma_function_moves_on(tokens, s.advanced());
        },
        TokenType::Var => {
            lemma_var_declaration_moves_on(tokens, s.advanced());
        },
        _ => {
            lemma_statement_moves_on(tokens, s);
        },
    }
    let (next, made) = match kind_at(tokens, s.pos) {
        TokenType::Class => class_declaration(tokens, s.advanced()),
        TokenType::Fun => function(tokens, s.advanced()),
        TokenType::Var => var_declaration(tokens, s.advanced()),
        _ => statement(tokens, s),
    };
    let s1 = s.onward(next);
    if made is Err {
        if kind_at(tokens, s1.pos) != TokenType::Eof {
            lemma_boundary_moves_on(tokens, s1.pos + 1);
        }
    }
}

/// The grammar never moves backwards, so every state that follows another
/// is the state that the part in between ended in.
pub proof fn lemma_onward_changes_nothing(s: ParserView, next: ParserView)
    requires
        next.pos >= s.pos,
    ensures
        s.onward(next) == next,
{
}

} // verus!
