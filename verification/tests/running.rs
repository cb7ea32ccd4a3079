use lox::ast::BinaryOp;
use lox::error::{RuntimeError, RuntimeErrorKind};
use lox::machine::Machine;
use lox::scanner::scan;
use lox::semantics::{Action, Control, Request};
use lox::value::Value;

/// What the machine leaves to the outside: arithmetic on numbers, here
/// 64-bit floats carried by their bits.
fn compute(machine: &Machine, request: Request) -> Value {
    match request {
        Request::Literal { text } => {
            let number: f64 = machine.code.texts[text].parse().unwrap();
            Value::Number(number.to_bits())
        }
        Request::Negate { operand } => Value::Number((-f64::from_bits(operand)).to_bits()),
        Request::Binary { op, left, right } => {
            let a = f64::from_bits(left);
            let b = f64::from_bits(right);
            match op {
                BinaryOp::Add => Value::Number((a + b).to_bits()),
                BinaryOp::Subtract => Value::Number((a - b).to_bits()),
                BinaryOp::Multiply => Value::Number((a * b).to_bits()),
                BinaryOp::Divide => Value::Number((a / b).to_bits()),
                BinaryOp::Less => Value::Bool(a < b),
                BinaryOp::LessEqual => Value::Bool(a <= b),
                BinaryOp::Greater => Value::Bool(a > b),
                BinaryOp::GreaterEqual => Value::Bool(a >= b),
                BinaryOp::Equal => Value::Bool(a == b),
                BinaryOp::NotEqual => Value::Bool(a != b),
                BinaryOp::And | BinaryOp::Or => unreachable!(),
            }
        }
    }
}

fn show(machine: &Machine, value: Value) -> String {
    match value {
        Value::Number(bits) => format!("{}", f64::from_bits(bits)),
        other => machine.describe(other).unwrap(),
    }
}

struct Session {
    machine: Machine,
    output: Vec<String>,
    failures: Vec<RuntimeError>,
    diagnostics: Vec<String>,
}

impl Session {
    fn new() -> Session {
        Session {
            machine: Machine::new(),
            output: Vec::new(),
            failures: Vec::new(),
            diagnostics: Vec::new(),
        }
    }

    /// Runs one piece of source to its end, as an interactive session runs
    /// one line.
    fn run(&mut self, source: &str) {
        let scanned = scan(source);
        assert!(scanned.errors.is_empty(), "{:?}", scanned.errors);
        let errors = self.machine.load(scanned.tokens);
        if !errors.is_empty() {
            for e in errors {
                self.diagnostics.push(e.to_string());
            }
            return;
        }
        let mut answer = None;
        for _ in 0..1_000_000 {
            match self.machine.step(answer.take()) {
                Action::Continue => {}
                Action::Ask(request) => answer = Some(compute(&self.machine, request)),
                Action::Print(value) => self.output.push(show(&self.machine, value)),
                Action::Finished => return,
                Action::Failed(error) => {
                    self.diagnostics.push(self.machine.runtime_diagnostic(error));
                    self.failures.push(error);
                    return;
                }
            }
        }
        panic!("the program did not end");
    }
}

fn output_of(source: &str) -> Vec<String> {
    let mut session = Session::new();
    session.run(source);
    assert_eq!(session.diagnostics, Vec::<String>::new());
    session.output
}

fn failure_of(source: &str) -> (Vec<String>, RuntimeErrorKind, usize, String) {
    let mut session = Session::new();
    session.run(source);
    assert_eq!(session.failures.len(), 1, "{:?}", session.diagnostics);
    let error = session.failures[0];
    (session.output, error.kind, error.line, session.diagnostics[0].clone())
}

#[test]
fn precedence_is_respected() {
    assert_eq!(output_of("print 1 + 2 * 3;"), vec!["7"]);
    assert_eq!(output_of("print (1 + 2) * 3;"), vec!["9"]);
}

#[test]
fn arithmetic_and_comparison() {
    assert_eq!(output_of("print 10 - 4 - 3;"), vec!["3"]);
    assert_eq!(output_of("print 8 / 4 / 2;"), vec!["1"]);
    assert_eq!(output_of("print 7 / 2;"), vec!["3.5"]);
    assert_eq!(output_of("print -3 + 1;"), vec!["-2"]);
    assert_eq!(output_of("print 1 < 2; print 2 <= 2; print 1 > 2; print 1 >= 2;"), vec![
        "true", "true", "false", "false"
    ]);
    assert_eq!(output_of("print 0.1 + 0.2;"), vec!["0.30000000000000004"]);
}

#[test]
fn division_by_zero_is_no_fault() {
    assert_eq!(output_of("print 1 / 0;"), vec!["inf"]);
    assert_eq!(output_of("print 0 / 0 == 0 / 0;"), vec!["false"]);
}

#[test]
fn closures_share_their_variable() {
    let source = "fun f(){ var x = 0; fun g(){ x = x + 1; return x; } return g; } \
                  var h = f(); print h(); print h();";
    assert_eq!(output_of(source), vec!["1", "2"]);
}

#[test]
fn two_closures_over_one_scope_see_each_other() {
    let source = "var get; var set;\n\
                  fun make() { var x = 1; fun g() { return x; } fun s(v) { x = v; } get = g; set = s; }\n\
                  make(); print get(); set(5); print get();";
    assert_eq!(output_of(source), vec!["1", "5"]);
}

#[test]
fn each_call_gets_its_own_scope() {
    let source = "fun counter() { var n = 0; fun up() { n = n + 1; return n; } return up; }\n\
                  var a = counter(); var b = counter(); print a(); print a(); print b();";
    assert_eq!(output_of(source), vec!["1", "2", "1"]);
}

#[test]
fn a_call_runs_in_the_scope_of_the_definition_not_of_the_caller() {
    let source = "var x = \"global\";\n\
                  fun show() { print x; }\n\
                  fun caller() { var x = \"local\"; show(); }\n\
                  caller();";
    assert_eq!(output_of(source), vec!["global"]);
}

#[test]
fn super_is_resolved_where_the_method_is_declared() {
    let source = "class A { method() { print \"A method\"; } }\n\
                  class B < A { method() { print \"B method\"; } test() { super.method(); } }\n\
                  class C < B {}\n\
                  C().test();";
    assert_eq!(output_of(source), vec!["A method"]);
}

#[test]
fn an_override_that_calls_super_reaches_the_parent() {
    let source = "class A { method() { return \"A\"; } }\n\
                  class B < A { method() { return \"B then \" + super.method(); } }\n\
                  print B().method();";
    assert_eq!(output_of(source), vec!["B then A"]);
}

#[test]
fn wrong_argument_count_is_a_runtime_error() {
    let (output, kind, line, text) =
        failure_of("fun f(a, b) { return a; }\nprint 1;\nprint f(1);\nprint 2;");
    assert_eq!(output, vec!["1"]);
    assert_eq!(kind, RuntimeErrorKind::WrongArity { expected: 2, actual: 1 });
    assert_eq!(line, 3);
    assert_eq!(text, "Expected 2 arguments but got 1.\n[line 3]");
}

#[test]
fn too_many_arguments_is_a_runtime_error() {
    let (_, kind, _, _) = failure_of("fun f() {} f(1, 2, 3);");
    assert_eq!(kind, RuntimeErrorKind::WrongArity { expected: 0, actual: 3 });
}

#[test]
fn equality_does_not_convert() {
    assert_eq!(output_of("print nil == nil;"), vec!["true"]);
    assert_eq!(output_of("print 0 == false;"), vec!["false"]);
    assert_eq!(output_of("print nil == false;"), vec!["false"]);
    assert_eq!(output_of("print \"1\" == 1;"), vec!["false"]);
    assert_eq!(output_of("print \"\" == nil;"), vec!["false"]);
    assert_eq!(output_of("print 1 == 1; print 1 != 1; print 1 == 2;"), vec![
        "true", "false", "false"
    ]);
    assert_eq!(output_of("print true == true; print true != false;"), vec!["true", "true"]);
    assert_eq!(output_of("print nil != nil; print 0 != false;"), vec!["false", "true"]);
}

#[test]
fn strings_are_equal_by_content() {
    assert_eq!(output_of("print \"ab\" == \"a\" + \"b\";"), vec!["true"]);
    assert_eq!(output_of("print \"ab\" == \"ba\";"), vec!["false"]);
    assert_eq!(output_of("print \"a\" + \"b\" != \"ab\";"), vec!["false"]);
}

#[test]
fn functions_and_instances_are_equal_by_identity() {
    let source = "fun f() {} fun g() {} var h = f;\n\
                  print f == f; print f == h; print f == g;\n\
                  class A {} var a = A(); var b = A(); var c = a;\n\
                  print a == a; print a == c; print a == b; print A == A;";
    assert_eq!(output_of(source), vec!["true", "true", "false", "true", "true", "false", "true"]);
}

#[test]
fn only_nil_and_false_are_falsy() {
    let source = "if (0) print \"0\"; if (\"\") print \"empty\"; if (nil) print \"nil\"; \
                  if (false) print \"false\"; if (true) print \"true\";\n\
                  print !nil; print !0; print !\"\"; print !false;";
    assert_eq!(output_of(source), vec!["0", "empty", "true", "true", "false", "false", "true"]);
}

#[test]
fn and_or_short_circuit() {
    let source = "fun loud(v) { print v; return v; }\n\
                  loud(false) and loud(1);\n\
                  loud(true) and loud(2);\n\
                  loud(3) or loud(4);\n\
                  loud(nil) or loud(5);\n\
                  print nil or \"x\"; print 1 and 2; print nil and 2; print 1 or 2;";
    assert_eq!(
        output_of(source),
        vec!["false", "true", "2", "3", "nil", "5", "x", "2", "nil", "1"]
    );
}

#[test]
fn variables_and_scopes() {
    let source = "var a = 1; var b;\n\
                  { var a = 2; print a; b = a; { var a = 3; print a; } print a; }\n\
                  print a; print b;";
    assert_eq!(output_of(source), vec!["2", "3", "2", "1", "2"]);
}

#[test]
fn declaring_a_variable_again_overwrites_it() {
    assert_eq!(output_of("var a = 1; var a = 2; print a; var a; print a;"), vec!["2", "nil"]);
}

#[test]
fn assignment_is_an_expression() {
    assert_eq!(output_of("var a; var b; a = b = 3; print a; print b; print a = 4;"), vec![
        "3", "3", "4"
    ]);
}

#[test]
fn undefined_variable_is_a_runtime_error() {
    let (output, kind, line, text) = failure_of("print 1;\nprint x;");
    assert_eq!(output, vec!["1"]);
    assert!(matches!(kind, RuntimeErrorKind::UndefinedVariable(_)));
    assert_eq!(line, 2);
    assert_eq!(text, "Undefined variable 'x'.\n[line 2]");
}

#[test]
fn assigning_to_an_undeclared_variable_is_a_runtime_error() {
    let (_, kind, line, text) = failure_of("x = 1;");
    assert!(matches!(kind, RuntimeErrorKind::UndefinedVariable(_)));
    assert_eq!(line, 1);
    assert_eq!(text, "Undefined variable 'x'.\n[line 1]");
}

#[test]
fn while_and_for_loops() {
    assert_eq!(output_of("var i = 0; while (i < 3) { print i; i = i + 1; }"), vec![
        "0", "1", "2"
    ]);
    assert_eq!(output_of("for (var i = 0; i < 3; i = i + 1) print i;"), vec!["0", "1", "2"]);
    assert_eq!(output_of("var i = 5; for (; i > 3;) { print i; i = i - 1; }"), vec!["5", "4"]);
    assert_eq!(
        output_of("fun f() { for (var i = 0;; i = i + 1) { if (i == 2) return i; } } print f();"),
        vec!["2"]
    );
}

#[test]
fn for_variable_is_local_to_the_loop() {
    let (_, kind, _, _) = failure_of("for (var i = 0; i < 1; i = i + 1) {} print i;");
    assert!(matches!(kind, RuntimeErrorKind::UndefinedVariable(_)));
}

#[test]
fn if_and_else() {
    assert_eq!(output_of("if (1 < 2) print \"yes\"; else print \"no\";"), vec!["yes"]);
    assert_eq!(output_of("if (1 > 2) print \"yes\"; else print \"no\";"), vec!["no"]);
    assert_eq!(output_of("if (false) print \"yes\"; print \"after\";"), vec!["after"]);
}

#[test]
fn functions_return_values() {
    assert_eq!(output_of("fun add(a, b) { return a + b; } print add(1, 2);"), vec!["3"]);
    assert_eq!(output_of("fun f() {} print f();"), vec!["nil"]);
    assert_eq!(output_of("fun f() { return; } print f();"), vec!["nil"]);
    assert_eq!(
        output_of("fun f() { while (true) { if (true) { return 1; } } print 0; } print f();"),
        vec!["1"]
    );
}

#[test]
fn recursion() {
    let source = "fun fib(n) { if (n < 2) return n; return fib(n - 1) + fib(n - 2); } print fib(15);";
    assert_eq!(output_of(source), vec!["610"]);
}

#[test]
fn arguments_are_evaluated_left_to_right() {
    let source = "fun loud(v) { print v; return v; }\n\
                  fun three(a, b, c) { print a + b + c; }\n\
                  three(loud(1), loud(2), loud(3));";
    assert_eq!(output_of(source), vec!["1", "2", "3", "6"]);
}

#[test]
fn lambda_is_a_value() {
    assert_eq!(output_of("var twice = lambda (x) { return x * 2; }; print twice(4);"), vec!["8"]);
    assert_eq!(
        output_of("fun apply(f, v) { return f(v); } print apply(lambda (x) { return x + 1; }, 1);"),
        vec!["2"]
    );
    assert_eq!(output_of("print lambda () {};"), vec!["<fn ?>"]);
}

#[test]
fn return_outside_a_function_is_a_runtime_error() {
    let (output, kind, line, _) = failure_of("print 1;\nreturn 2;");
    assert_eq!(output, vec!["1"]);
    assert_eq!(kind, RuntimeErrorKind::ReturnOutsideFunction);
    assert_eq!(line, 2);
}

#[test]
fn calling_what_is_not_callable_is_a_runtime_error() {
    let (_, kind, line, text) = failure_of("var a = 1;\na();");
    assert_eq!(kind, RuntimeErrorKind::NotCallable);
    assert_eq!(line, 2);
    assert_eq!(text, "Can only call functions and classes.\n[line 2]");
    let (_, kind, _, _) = failure_of("\"text\"();");
    assert_eq!(kind, RuntimeErrorKind::NotCallable);
}

#[test]
fn operand_faults() {
    let (_, kind, _, _) = failure_of("print -\"a\";");
    assert_eq!(kind, RuntimeErrorKind::OperandMustBeNumber);
    let (_, kind, _, _) = failure_of("print 1 < \"a\";");
    assert_eq!(kind, RuntimeErrorKind::OperandsMustBeNumbers);
    let (_, kind, _, _) = failure_of("print nil * 2;");
    assert_eq!(kind, RuntimeErrorKind::OperandsMustBeNumbers);
    let (_, kind, _, text) = failure_of("print 1 + \"a\";");
    assert_eq!(kind, RuntimeErrorKind::OperandsMustBeNumbersOrStrings);
    assert_eq!(text, "Operands must be two numbers or two strings.\n[line 1]");
}

#[test]
fn string_concatenation() {
    assert_eq!(output_of("print \"a\" + \"b\" + \"c\";"), vec!["abc"]);
    assert_eq!(output_of("var s = \"\"; s = s + \"x\"; s = s + s; print s;"), vec!["xx"]);
}

#[test]
fn classes_fields_and_methods() {
    let source = "class Point { init(x, y) { this.x = x; this.y = y; } sum() { return this.x + this.y; } }\n\
                  var p = Point(1, 2); print p.x; print p.sum(); p.x = 10; print p.sum();\n\
                  print Point; print p;";
    assert_eq!(output_of(source), vec!["1", "3", "12", "<class Point>", "<Point instance>"]);
}

#[test]
fn instantiation_gives_the_instance_whatever_init_returns() {
    let source = "class A { init() { this.v = 1; return; } }\n\
                  var a = A(); print a.v; print a.init() == a;";
    assert_eq!(output_of(source), vec!["1", "true"]);
}

#[test]
fn inherited_initializer_runs() {
    let source = "class A { init(v) { this.v = v; } }\nclass B < A {}\nprint B(7).v;";
    assert_eq!(output_of(source), vec!["7"]);
}

#[test]
fn class_without_init_takes_no_arguments() {
    let (_, kind, _, _) = failure_of("class A {} A(1);");
    assert_eq!(kind, RuntimeErrorKind::WrongArity { expected: 0, actual: 1 });
}

#[test]
fn fields_shadow_methods() {
    let source = "class A { m() { return \"method\"; } }\n\
                  var a = A(); print a.m(); a.m = lambda () { return \"field\"; }; print a.m();";
    assert_eq!(output_of(source), vec!["method", "field"]);
}

#[test]
fn methods_are_found_most_derived_first() {
    let source = "class A { who() { return \"A\"; } only() { return \"only A\"; } }\n\
                  class B < A { who() { return \"B\"; } }\n\
                  class C < B {}\n\
                  print C().who(); print C().only();";
    assert_eq!(output_of(source), vec!["B", "only A"]);
}

#[test]
fn bound_method_remembers_its_instance() {
    let source = "class A { init(n) { this.n = n; } get() { return this.n; } }\n\
                  var m = A(3).get; print m(); print m;";
    assert_eq!(output_of(source), vec!["3", "<fn get>"]);
}

#[test]
fn property_faults() {
    let (_, kind, _, text) = failure_of("class A {} print A().missing;");
    assert!(matches!(kind, RuntimeErrorKind::UndefinedProperty(_)));
    assert_eq!(text, "Undefined property 'missing'.\n[line 1]");
    let (_, kind, _, _) = failure_of("var a = 1; print a.b;");
    assert_eq!(kind, RuntimeErrorKind::NotAnInstance);
    let (_, kind, _, _) = failure_of("var a = \"s\"; a.b = 1;");
    assert_eq!(kind, RuntimeErrorKind::NotAnInstance);
}

#[test]
fn superclass_must_be_a_class() {
    let (_, kind, line, _) = failure_of("var NotAClass = 1;\nclass A < NotAClass {}");
    assert_eq!(kind, RuntimeErrorKind::SuperclassNotAClass);
    assert_eq!(line, 2);
}

#[test]
fn this_and_super_outside_a_class_are_runtime_errors() {
    let (_, kind, _, text) = failure_of("print this;");
    assert!(matches!(kind, RuntimeErrorKind::UndefinedVariable(_)));
    assert_eq!(text, "Undefined variable 'this'.\n[line 1]");
    let (_, kind, _, text) = failure_of("fun f() { super.m(); } f();");
    assert!(matches!(kind, RuntimeErrorKind::UndefinedVariable(_)));
    assert_eq!(text, "Undefined variable 'super'.\n[line 1]");
}

#[test]
fn super_without_such_a_method_is_a_runtime_error() {
    let (_, kind, _, _) = failure_of("class A {} class B < A { m() { super.nope(); } } B().m();");
    assert!(matches!(kind, RuntimeErrorKind::UndefinedProperty(_)));
}

#[test]
fn values_print_as_described() {
    assert_eq!(output_of("print nil; print true; print false; print \"text\"; print 12.5;"), vec![
        "nil", "true", "false", "text", "12.5"
    ]);
    assert_eq!(output_of("fun f() {} print f;"), vec!["<fn f>"]);
}

#[test]
fn a_session_keeps_its_globals_after_a_failure() {
    let mut session = Session::new();
    session.run("var a = 1; fun inc() { a = a + 1; return a; }");
    session.run("print inc();");
    session.run("print missing;");
    session.run("print inc();");
    assert_eq!(session.output, vec!["2", "3"]);
    assert_eq!(session.failures.len(), 1);
    assert_eq!(session.machine.control, Control::Idle);
    assert!(session.machine.stack.is_empty());
}

#[test]
fn a_failure_deep_in_calls_gives_up_all_of_them() {
    let mut session = Session::new();
    session.run("fun f() { return g(); } fun g() { return 1 + nil; }");
    session.run("print f(1 + 1, f());");
    assert_eq!(session.failures.len(), 1);
    assert!(session.machine.stack.is_empty());
    assert!(session.machine.values.is_empty());
    session.run("print \"still here\";");
    assert_eq!(session.output, vec!["still here"]);
}

#[test]
fn a_syntax_error_runs_nothing() {
    let mut session = Session::new();
    session.run("print 1; print ;");
    assert_eq!(session.output, Vec::<String>::new());
    assert_eq!(session.diagnostics, vec!["[line 1] Error: Expect expression."]);
    session.run("print 2;");
    assert_eq!(session.output, vec!["2"]);
}

#[test]
fn the_machine_asks_again_until_it_is_answered() {
    let mut machine = Machine::new();
    assert!(machine.load(scan("print 1;").tokens).is_empty());
    let mut asked = None;
    for _ in 0..10 {
        if let Action::Ask(request) = machine.step(None) {
            asked = Some(request);
            break;
        }
    }
    let request = asked.unwrap();
    assert_eq!(machine.step(None), Action::Ask(request));
    assert_eq!(machine.step(None), Action::Ask(request));
    assert_eq!(machine.step(Some(Value::Number(7))), Action::Continue);
    assert_eq!(machine.step(None), Action::Print(Value::Number(7)));
    let mut last = Action::Continue;
    for _ in 0..10 {
        last = machine.step(None);
        if last != Action::Continue {
            break;
        }
    }
    assert_eq!(last, Action::Finished);
    assert_eq!(machine.step(None), Action::Finished);
    assert_eq!(machine.control, Control::Idle);
}

#[test]
fn a_new_machine_is_idle() {
    let mut machine = Machine::new();
    assert_eq!(machine.control, Control::Idle);
    assert_eq!(machine.step(None), Action::Finished);
    assert_eq!(machine.code.texts, vec!["this", "super", "init"]);
}
