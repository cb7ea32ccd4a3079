use lox::ast::{spells_same, Code, Node};
use lox::error::RuntimeErrorKind;
use lox::heap::{find_binding, put_binding, Heap};
use lox::machine::Machine;
use lox::scanner::scan;
use lox::semantics::{Action, Control, Frame};
use lox::value::{is_truthy, older_link, Binding, Class, Environment, Function, Instance, Value};

#[test]
fn intern_keeps_each_text_once() {
    let mut code = Code::new();
    assert_eq!(code.intern("a"), 0);
    assert_eq!(code.intern("b"), 1);
    assert_eq!(code.intern("a"), 0);
    assert_eq!(code.intern(""), 2);
    assert_eq!(code.intern("b"), 1);
    assert_eq!(code.texts, vec!["a", "b", ""]);
}

#[test]
fn add_gives_the_place() {
    let mut code = Code::new();
    assert_eq!(code.add(Node::Nil), 0);
    assert_eq!(code.add(Node::Bool { value: true }), 1);
    assert_eq!(code.nodes, vec![Node::Nil, Node::Bool { value: true }]);
}

#[test]
fn texts_are_compared_by_content() {
    assert!(spells_same("", ""));
    assert!(spells_same("abc", "abc"));
    assert!(!spells_same("abc", "abd"));
    assert!(!spells_same("abc", "ab"));
    assert!(!spells_same("é", "e"));
}

#[test]
fn truthiness_of_every_kind() {
    assert!(!is_truthy(Value::Nil));
    assert!(!is_truthy(Value::Bool(false)));
    assert!(is_truthy(Value::Bool(true)));
    assert!(is_truthy(Value::Number(0)));
    assert!(is_truthy(Value::Str(0)));
    assert!(is_truthy(Value::Function(0)));
    assert!(is_truthy(Value::Class(0)));
    assert!(is_truthy(Value::Instance(0)));
}

#[test]
fn links_lead_to_older_entries_only() {
    assert_eq!(older_link(None, 5), None);
    assert_eq!(older_link(Some(4), 5), Some(4));
    assert_eq!(older_link(Some(5), 5), None);
    assert_eq!(older_link(Some(6), 5), None);
    assert_eq!(older_link(Some(0), 0), None);
}

#[test]
fn a_new_heap_holds_the_global_scope() {
    let heap = Heap::new();
    assert_eq!(heap.environments, vec![Environment { first: None, enclosing: None }]);
    assert!(heap.bindings.is_empty());
    assert_eq!(heap.lookup(0, 7), None);
    assert_eq!(heap.resolve(0, 7), None);
}

#[test]
fn define_then_lookup() {
    let mut heap = Heap::new();
    heap.define(0, 7, Value::Number(1));
    heap.define(0, 8, Value::Bool(true));
    assert_eq!(heap.lookup(0, 7), Some(Value::Number(1)));
    assert_eq!(heap.lookup(0, 8), Some(Value::Bool(true)));
    assert_eq!(heap.lookup(0, 9), None);
    assert_eq!(
        heap.bindings,
        vec![
            Binding { name: 7, value: Value::Number(1), next: None },
            Binding { name: 8, value: Value::Bool(true), next: Some(0) },
        ]
    );
    assert_eq!(heap.environments[0].first, Some(1));
}

#[test]
fn define_again_overwrites_in_place() {
    let mut heap = Heap::new();
    heap.define(0, 7, Value::Number(1));
    heap.define(0, 7, Value::Number(2));
    assert_eq!(heap.bindings.len(), 1);
    assert_eq!(heap.lookup(0, 7), Some(Value::Number(2)));
}

#[test]
fn define_in_a_missing_scope_changes_nothing() {
    let mut heap = Heap::new();
    heap.define(3, 7, Value::Nil);
    assert!(heap.bindings.is_empty());
    assert_eq!(heap.environments.len(), 1);
}

#[test]
fn inner_scope_shadows_and_outer_is_found() {
    let mut heap = Heap::new();
    heap.define(0, 1, Value::Number(10));
    heap.define(0, 2, Value::Number(20));
    let inner = heap.new_scope(0);
    assert_eq!(inner, 1);
    heap.define(inner, 1, Value::Number(11));
    assert_eq!(heap.lookup(inner, 1), Some(Value::Number(11)));
    assert_eq!(heap.lookup(inner, 2), Some(Value::Number(20)));
    assert_eq!(heap.lookup(0, 1), Some(Value::Number(10)));
}

#[test]
fn assign_walks_outwards_and_fails_on_unknown_names() {
    let mut heap = Heap::new();
    heap.define(0, 1, Value::Number(10));
    let inner = heap.new_scope(0);
    let innermost = heap.new_scope(inner);
    assert!(heap.assign(innermost, 1, Value::Number(12)));
    assert_eq!(heap.lookup(0, 1), Some(Value::Number(12)));
    assert_eq!(heap.lookup(inner, 1), Some(Value::Number(12)));
    let before = heap.bindings.clone();
    assert!(!heap.assign(innermost, 2, Value::Nil));
    assert_eq!(heap.bindings, before);
}

#[test]
fn a_scope_whose_link_is_not_older_ends_the_walk() {
    let mut heap = Heap::new();
    heap.define(0, 1, Value::Nil);
    heap.environments.push(Environment { first: None, enclosing: Some(1) });
    heap.environments.push(Environment { first: None, enclosing: Some(9) });
    assert_eq!(heap.lookup(1, 1), None);
    assert_eq!(heap.lookup(2, 1), None);
    assert_eq!(heap.lookup(9, 1), None);
}

#[test]
fn chains_are_searched_from_the_newest_entry() {
    let mut bindings = Vec::new();
    let first = put_binding(&mut bindings, None, 1, Value::Number(1));
    assert_eq!(first, Some(0));
    let first = put_binding(&mut bindings, first, 2, Value::Number(2));
    assert_eq!(first, Some(1));
    let same = put_binding(&mut bindings, first, 1, Value::Number(3));
    assert_eq!(same, Some(1));
    assert_eq!(find_binding(&bindings, first, 1), Some(0));
    assert_eq!(find_binding(&bindings, first, 2), Some(1));
    assert_eq!(find_binding(&bindings, first, 3), None);
    assert_eq!(find_binding(&bindings, Some(5), 1), None);
    assert_eq!(find_binding(&bindings, None, 1), None);
    assert_eq!(bindings[0].value, Value::Number(3));
}

#[test]
fn methods_are_found_in_the_nearest_class() {
    let mut heap = Heap::new();
    let a = heap.new_class(Class { name: 1, superclass: None, methods: None });
    let b = heap.new_class(Class { name: 2, superclass: Some(a), methods: None });
    let c = heap.new_class(Class { name: 3, superclass: Some(b), methods: None });
    heap.set_method(a, 10, Value::Function(0));
    heap.set_method(a, 11, Value::Function(1));
    heap.set_method(b, 10, Value::Function(2));
    assert_eq!(heap.find_method(c, 10), Some(Value::Function(2)));
    assert_eq!(heap.find_method(c, 11), Some(Value::Function(1)));
    assert_eq!(heap.find_method(a, 10), Some(Value::Function(0)));
    assert_eq!(heap.find_method(c, 12), None);
    assert_eq!(heap.find_method(7, 10), None);
}

#[test]
fn fields_belong_to_one_instance() {
    let mut heap = Heap::new();
    let class = heap.new_class(Class { name: 1, superclass: None, methods: None });
    let a = heap.new_instance(class);
    let b = heap.new_instance(class);
    assert_eq!(heap.instances[a], Instance { class, fields: None });
    heap.set_field(a, 5, Value::Number(1));
    heap.set_field(b, 5, Value::Number(2));
    heap.set_field(a, 5, Value::Number(3));
    assert_eq!(heap.field(a, 5), Some(Value::Number(3)));
    assert_eq!(heap.field(b, 5), Some(Value::Number(2)));
    assert_eq!(heap.field(a, 6), None);
    assert_eq!(heap.field(9, 5), None);
}

#[test]
fn bind_makes_a_copy_that_sees_this() {
    let mut heap = Heap::new();
    let method =
        heap.new_function(Function { declaration: 4, closure: 0, initializer: true });
    let bound = heap.bind(method, 0, Value::Instance(3));
    assert_ne!(bound, method);
    let copy = heap.functions[bound];
    assert_eq!(copy.declaration, 4);
    assert!(copy.initializer);
    assert_eq!(heap.environments[copy.closure].enclosing, Some(0));
    assert_eq!(heap.lookup(copy.closure, 0), Some(Value::Instance(3)));
    assert_eq!(heap.lookup(0, 0), None);
    assert_eq!(heap.bind(99, 0, Value::Nil), 99);
}

#[test]
fn a_table_that_is_no_program_is_malformed() {
    let mut machine = Machine::new();
    assert!(machine.load(scan("1;").tokens).is_empty());
    let number = machine
        .code
        .nodes
        .iter()
        .position(|n| matches!(n, Node::Number { .. }))
        .unwrap();
    machine.start(number);
    match machine.step(None) {
        Action::Failed(error) => assert_eq!(error.kind, RuntimeErrorKind::Malformed),
        other => panic!("{:?}", other),
    }
    assert_eq!(machine.control, Control::Idle);
}

#[test]
fn a_value_handed_to_the_wrong_frame_is_malformed() {
    let mut machine = Machine::new();
    machine.stack.push(Frame::Rest { list: 0, scope: 0 });
    machine.control = Control::Give { value: Value::Nil };
    match machine.step(None) {
        Action::Failed(error) => assert_eq!(error.kind, RuntimeErrorKind::Malformed),
        other => panic!("{:?}", other),
    }
    assert!(machine.stack.is_empty());
    assert_eq!(machine.runtime_message(RuntimeErrorKind::Malformed), "Malformed program.");
}

#[test]
fn describe_gives_nothing_for_a_number() {
    let machine = Machine::new();
    assert_eq!(machine.describe(Value::Number(0)), None);
    assert_eq!(machine.describe(Value::Nil), Some("nil".to_string()));
    assert_eq!(machine.describe(Value::Str(1)), Some("super".to_string()));
    assert_eq!(machine.describe(Value::Str(99)), Some(String::new()));
    assert_eq!(machine.describe(Value::Function(5)), Some("<fn ?>".to_string()));
    assert_eq!(machine.describe(Value::Class(5)), Some("<class ?>".to_string()));
    assert_eq!(machine.describe(Value::Instance(5)), Some("<? instance>".to_string()));
}
