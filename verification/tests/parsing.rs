use lox::ast::{BinaryOp, Code, Node, UnaryOp};
use lox::error::{SyntaxError, SyntaxErrorKind};
use lox::parser::{parse, Parsed};
use lox::scanner::scan;
use lox::token::TokenType;

fn parse_text(source: &str) -> Parsed {
    let scanned = scan(source);
    assert!(scanned.errors.is_empty());
    parse(scanned.tokens, Code::new())
}

fn list(code: &Code, mut at: usize) -> Vec<usize> {
    let mut items = Vec::new();
    loop {
        match code.nodes[at] {
            Node::Empty => return items,
            Node::Cons { head, tail } => {
                items.push(head);
                at = tail;
            }
            other => panic!("not a list: {:?}", other),
        }
    }
}

/// Writes an expression back with every operator application in parentheses.
fn show(code: &Code, at: usize) -> String {
    match code.nodes[at] {
        Node::Nil => "nil".to_string(),
        Node::Bool { value } => value.to_string(),
        Node::Number { text } => code.texts[text].clone(),
        Node::Str { text } => format!("{:?}", code.texts[text]),
        Node::Variable { name, .. } => code.texts[name].clone(),
        Node::Assign { name, value, .. } => {
            format!("(= {} {})", code.texts[name], show(code, value))
        }
        Node::Unary { op, operand, .. } => {
            let sign = match op {
                UnaryOp::Not => "!",
                UnaryOp::Negate => "-",
            };
            format!("({} {})", sign, show(code, operand))
        }
        Node::Binary { op, left, right, .. } => {
            let sign = match op {
                BinaryOp::Or => "or",
                BinaryOp::And => "and",
                BinaryOp::Equal => "==",
                BinaryOp::NotEqual => "!=",
                BinaryOp::Less => "<",
                BinaryOp::LessEqual => "<=",
                BinaryOp::Greater => ">",
                BinaryOp::GreaterEqual => ">=",
                BinaryOp::Add => "+",
                BinaryOp::Subtract => "-",
                BinaryOp::Multiply => "*",
                BinaryOp::Divide => "/",
            };
            format!("({} {} {})", sign, show(code, left), show(code, right))
        }
        Node::Call { callee, arguments, .. } => {
            let mut text = format!("(call {}", show(code, callee));
            for a in list(code, arguments) {
                text.push(' ');
                text.push_str(&show(code, a));
            }
            text.push(')');
            text
        }
        Node::GetProperty { object, name, .. } => {
            format!("(. {} {})", show(code, object), code.texts[name])
        }
        Node::SetProperty { object, name, value, .. } => {
            format!("(.= {} {} {})", show(code, object), code.texts[name], show(code, value))
        }
        Node::This { .. } => "this".to_string(),
        Node::Super { method, .. } => format!("(super {})", code.texts[method]),
        Node::Lambda { parameters, body } => {
            let names: Vec<String> =
                list(code, parameters).iter().map(|p| code.texts[*p].clone()).collect();
            format!("(lambda ({}) {})", names.join(" "), list(code, body).len())
        }
        Node::Grouping { inner } => format!("(group {})", show(code, inner)),
        other => panic!("not an expression: {:?}", other),
    }
}

fn only_expression(source: &str) -> String {
    let out = parse_text(source);
    assert_eq!(out.errors, vec![]);
    let statements = list(&out.code, out.program);
    assert_eq!(statements.len(), 1);
    match out.code.nodes[statements[0]] {
        Node::Expression { expression } => show(&out.code, expression),
        other => panic!("not an expression statement: {:?}", other),
    }
}

fn errors_of(source: &str) -> Vec<SyntaxError> {
    parse_text(source).errors
}

#[test]
fn empty_program_is_an_empty_list() {
    let out = parse_text("");
    assert!(out.errors.is_empty());
    assert_eq!(out.code.nodes[out.program], Node::Empty);
}

#[test]
fn multiplication_binds_tighter_than_addition() {
    assert_eq!(only_expression("1 + 2 * 3;"), "(+ 1 (* 2 3))");
    assert_eq!(only_expression("1 * 2 + 3;"), "(+ (* 1 2) 3)");
}

#[test]
fn grouping_overrides_precedence() {
    assert_eq!(only_expression("(1 + 2) * 3;"), "(* (group (+ 1 2)) 3)");
}

#[test]
fn binary_operators_group_to_the_left() {
    assert_eq!(only_expression("1 - 2 - 3;"), "(- (- 1 2) 3)");
    assert_eq!(only_expression("8 / 4 / 2;"), "(/ (/ 8 4) 2)");
    assert_eq!(only_expression("1 < 2 < 3;"), "(< (< 1 2) 3)");
    assert_eq!(only_expression("1 == 2 != 3;"), "(!= (== 1 2) 3)");
    assert_eq!(only_expression("a or b or c;"), "(or (or a b) c)");
}

#[test]
fn assignment_groups_to_the_right() {
    assert_eq!(only_expression("a = b = 3;"), "(= a (= b 3))");
}

#[test]
fn all_levels_in_order() {
    assert_eq!(
        only_expression("a = b or c and d == e < f + g * -h.i(j);"),
        "(= a (or b (and c (== d (< e (+ f (* g (- (call (. h i) j)))))))))"
    );
}

#[test]
fn comparison_binds_tighter_than_equality() {
    assert_eq!(only_expression("1 < 2 == 3 >= 4;"), "(== (< 1 2) (>= 3 4))");
}

#[test]
fn and_binds_tighter_than_or() {
    assert_eq!(only_expression("a or b and c;"), "(or a (and b c))");
    assert_eq!(only_expression("a and b or c;"), "(or (and a b) c)");
}

#[test]
fn unary_operators_nest() {
    assert_eq!(only_expression("!!a;"), "(! (! a))");
    assert_eq!(only_expression("-a * b;"), "(* (- a) b)");
    assert_eq!(only_expression("a - -b;"), "(- a (- b))");
}

#[test]
fn calls_and_properties_chain() {
    assert_eq!(only_expression("f();"), "(call f)");
    assert_eq!(only_expression("f(1, 2)(3);"), "(call (call f 1 2) 3)");
    assert_eq!(only_expression("a.b.c;"), "(. (. a b) c)");
    assert_eq!(only_expression("a.b(1).c = 2;"), "(.= (call (. a b) 1) c 2)");
}

#[test]
fn literals_and_names() {
    assert_eq!(only_expression("nil;"), "nil");
    assert_eq!(only_expression("true;"), "true");
    assert_eq!(only_expression("false;"), "false");
    assert_eq!(only_expression("3.25;"), "3.25");
    assert_eq!(only_expression("\"hi\";"), "\"hi\"");
    assert_eq!(only_expression("this;"), "this");
    assert_eq!(only_expression("super.go;"), "(super go)");
}

#[test]
fn lambda_is_an_expression() {
    assert_eq!(only_expression("lambda (a, b) { return a; };"), "(lambda (a b) 1)");
    assert_eq!(only_expression("f(lambda () {});"), "(call f (lambda () 0))");
}

#[test]
fn texts_are_kept_once() {
    let out = parse_text("a + a + \"a\" + b;");
    assert_eq!(out.code.texts, vec!["a".to_string(), "b".to_string()]);
}

#[test]
fn var_declaration_with_and_without_initializer() {
    let out = parse_text("var a; var b = 1;");
    assert!(out.errors.is_empty());
    let statements = list(&out.code, out.program);
    assert_eq!(statements.len(), 2);
    match out.code.nodes[statements[0]] {
        Node::Var { name, initializer } => {
            assert_eq!(out.code.texts[name], "a");
            assert_eq!(initializer, None);
        }
        other => panic!("{:?}", other),
    }
    match out.code.nodes[statements[1]] {
        Node::Var { name, initializer: Some(value) } => {
            assert_eq!(out.code.texts[name], "b");
            assert_eq!(show(&out.code, value), "1");
        }
        other => panic!("{:?}", other),
    }
}

#[test]
fn function_declaration() {
    let out = parse_text("fun add(a, b) { print a; return a + b; }");
    assert!(out.errors.is_empty());
    let statements = list(&out.code, out.program);
    match out.code.nodes[statements[0]] {
        Node::Function { name, parameters, body } => {
            assert_eq!(out.code.texts[name], "add");
            let names: Vec<&str> =
                list(&out.code, parameters).iter().map(|p| out.code.texts[*p].as_str()).collect();
            assert_eq!(names, vec!["a", "b"]);
            let body = list(&out.code, body);
            assert_eq!(body.len(), 2);
            assert!(matches!(out.code.nodes[body[0]], Node::Print { .. }));
            match out.code.nodes[body[1]] {
                Node::Return { value: Some(value), line } => {
                    assert_eq!(show(&out.code, value), "(+ a b)");
                    assert_eq!(line, 1);
                }
                other => panic!("{:?}", other),
            }
        }
        other => panic!("{:?}", other),
    }
}

#[test]
fn return_without_value() {
    let out = parse_text("fun f() { return; }");
    let statements = list(&out.code, out.program);
    match out.code.nodes[statements[0]] {
        Node::Function { body, .. } => {
            let body = list(&out.code, body);
            assert_eq!(out.code.nodes[body[0]], Node::Return { value: None, line: 1 });
        }
        other => panic!("{:?}", other),
    }
}

#[test]
fn class_with_superclass_and_methods() {
    let out = parse_text("class B < A {\n init(x) { this.x = x; }\n get() { return super.get(); }\n}");
    assert!(out.errors.is_empty());
    let statements = list(&out.code, out.program);
    match out.code.nodes[statements[0]] {
        Node::Class { name, superclass: Some(parent), methods, line } => {
            assert_eq!(out.code.texts[name], "B");
            assert_eq!(line, 1);
            assert_eq!(show(&out.code, parent), "A");
            let methods = list(&out.code, methods);
            assert_eq!(methods.len(), 2);
            match out.code.nodes[methods[0]] {
                Node::Function { name, .. } => assert_eq!(out.code.texts[name], "init"),
                other => panic!("{:?}", other),
            }
            match out.code.nodes[methods[1]] {
                Node::Function { name, .. } => assert_eq!(out.code.texts[name], "get"),
                other => panic!("{:?}", other),
            }
        }
        other => panic!("{:?}", other),
    }
}

#[test]
fn class_without_superclass() {
    let out = parse_text("class A {}");
    let statements = list(&out.code, out.program);
    match out.code.nodes[statements[0]] {
        Node::Class { superclass, methods, .. } => {
            assert_eq!(superclass, None);
            assert_eq!(out.code.nodes[methods], Node::Empty);
        }
        other => panic!("{:?}", other),
    }
}

#[test]
fn else_binds_to_the_nearest_if() {
    let out = parse_text("if (a) if (b) print 1; else print 2;");
    assert!(out.errors.is_empty());
    let statements = list(&out.code, out.program);
    assert_eq!(statements.len(), 1);
    match out.code.nodes[statements[0]] {
        Node::If { then_branch, else_branch, .. } => {
            assert_eq!(else_branch, None);
            match out.code.nodes[then_branch] {
                Node::If { else_branch, .. } => assert!(else_branch.is_some()),
                other => panic!("{:?}", other),
            }
        }
        other => panic!("{:?}", other),
    }
}

#[test]
fn while_statement() {
    let out = parse_text("while (a < 3) a = a + 1;");
    let statements = list(&out.code, out.program);
    match out.code.nodes[statements[0]] {
        Node::While { condition, body } => {
            assert_eq!(show(&out.code, condition), "(< a 3)");
            assert!(matches!(out.code.nodes[body], Node::Expression { .. }));
        }
        other => panic!("{:?}", other),
    }
}

#[test]
fn for_becomes_a_while_in_a_block() {
    let out = parse_text("for (var i = 0; i < 3; i = i + 1) print i;");
    assert!(out.errors.is_empty());
    let statements = list(&out.code, out.program);
    assert_eq!(statements.len(), 1);
    let outer = match out.code.nodes[statements[0]] {
        Node::Block { body } => list(&out.code, body),
        other => panic!("{:?}", other),
    };
    assert_eq!(outer.len(), 2);
    assert!(matches!(out.code.nodes[outer[0]], Node::Var { .. }));
    match out.code.nodes[outer[1]] {
        Node::While { condition, body } => {
            assert_eq!(show(&out.code, condition), "(< i 3)");
            let inner = match out.code.nodes[body] {
                Node::Block { body } => list(&out.code, body),
                other => panic!("{:?}", other),
            };
            assert_eq!(inner.len(), 2);
            assert!(matches!(out.code.nodes[inner[0]], Node::Print { .. }));
            match out.code.nodes[inner[1]] {
                Node::Expression { expression } => {
                    assert_eq!(show(&out.code, expression), "(= i (+ i 1))")
                }
                other => panic!("{:?}", other),
            }
        }
        other => panic!("{:?}", other),
    }
}

#[test]
fn for_with_no_clauses_loops_on_true() {
    let out = parse_text("for (;;) print 1;");
    assert!(out.errors.is_empty());
    let statements = list(&out.code, out.program);
    let outer = match out.code.nodes[statements[0]] {
        Node::Block { body } => list(&out.code, body),
        other => panic!("{:?}", other),
    };
    assert_eq!(outer.len(), 1);
    match out.code.nodes[outer[0]] {
        Node::While { condition, body } => {
            assert_eq!(out.code.nodes[condition], Node::Bool { value: true });
            assert!(matches!(out.code.nodes[body], Node::Print { .. }));
        }
        other => panic!("{:?}", other),
    }
}

#[test]
fn block_holds_its_statements() {
    let out = parse_text("{ var a = 1; { print a; } }");
    assert!(out.errors.is_empty());
    let statements = list(&out.code, out.program);
    match out.code.nodes[statements[0]] {
        Node::Block { body } => {
            let body = list(&out.code, body);
            assert_eq!(body.len(), 2);
            assert!(matches!(out.code.nodes[body[1]], Node::Block { .. }));
        }
        other => panic!("{:?}", other),
    }
}

#[test]
fn missing_semicolon_is_reported() {
    assert_eq!(
        errors_of("print 1"),
        vec![SyntaxError { kind: SyntaxErrorKind::Expected(TokenType::Semicolon), line: 1 }]
    );
}

#[test]
fn missing_expression_is_reported() {
    assert_eq!(
        errors_of("print ;"),
        vec![SyntaxError { kind: SyntaxErrorKind::ExpectedExpression, line: 1 }]
    );
    assert_eq!(
        errors_of("1 +\n;"),
        vec![SyntaxError { kind: SyntaxErrorKind::ExpectedExpression, line: 2 }]
    );
}

#[test]
fn invalid_assignment_target_is_reported() {
    assert_eq!(
        errors_of("1 = 2;"),
        vec![SyntaxError { kind: SyntaxErrorKind::InvalidAssignmentTarget, line: 1 }]
    );
    assert_eq!(
        errors_of("(a) = 2;"),
        vec![SyntaxError { kind: SyntaxErrorKind::InvalidAssignmentTarget, line: 1 }]
    );
}

#[test]
fn one_pass_reports_several_errors() {
    let out = parse_text("var = 1;\nprint 2;\nvar x 3;\nprint (4;\nprint 5;");
    assert_eq!(
        out.errors,
        vec![
            SyntaxError { kind: SyntaxErrorKind::Expected(TokenType::Identifier), line: 1 },
            SyntaxError { kind: SyntaxErrorKind::Expected(TokenType::Semicolon), line: 3 },
            SyntaxError { kind: SyntaxErrorKind::Expected(TokenType::RightParen), line: 4 },
        ]
    );
    let statements = list(&out.code, out.program);
    assert_eq!(statements.len(), 2);
    assert!(matches!(out.code.nodes[statements[0]], Node::Print { .. }));
    assert!(matches!(out.code.nodes[statements[1]], Node::Print { .. }));
}

#[test]
fn synchronization_stops_before_a_statement_keyword() {
    let out = parse_text("a b c var x = 1;");
    assert_eq!(
        out.errors,
        vec![SyntaxError { kind: SyntaxErrorKind::Expected(TokenType::Semicolon), line: 1 }]
    );
    let statements = list(&out.code, out.program);
    assert_eq!(statements.len(), 1);
    assert!(matches!(out.code.nodes[statements[0]], Node::Var { .. }));
}

#[test]
fn error_inside_a_block_does_not_end_the_block() {
    let out = parse_text("{ print ; print 1; }\nprint 2;");
    assert_eq!(
        out.errors,
        vec![SyntaxError { kind: SyntaxErrorKind::ExpectedExpression, line: 1 }]
    );
    let statements = list(&out.code, out.program);
    assert_eq!(statements.len(), 2);
    match out.code.nodes[statements[0]] {
        Node::Block { body } => assert_eq!(list(&out.code, body).len(), 1),
        other => panic!("{:?}", other),
    }
}

#[test]
fn unclosed_block_is_reported() {
    assert_eq!(
        errors_of("{ print 1;"),
        vec![SyntaxError { kind: SyntaxErrorKind::Expected(TokenType::RightBrace), line: 1 }]
    );
}

#[test]
fn stray_closing_brace_is_reported() {
    assert_eq!(
        errors_of("}"),
        vec![SyntaxError { kind: SyntaxErrorKind::ExpectedExpression, line: 1 }]
    );
}

#[test]
fn parsing_twice_shares_the_tables() {
    let first = parse_text("var a = 1;");
    let nodes = first.code.nodes.len();
    let second = parse(scan("print a;").tokens, first.code);
    assert!(second.errors.is_empty());
    assert!(second.code.nodes.len() > nodes);
    assert_eq!(second.code.texts, vec!["a".to_string(), "1".to_string()]);
    let statements = list(&second.code, second.program);
    assert_eq!(statements.len(), 1);
    assert!(statements[0] >= nodes);
}
