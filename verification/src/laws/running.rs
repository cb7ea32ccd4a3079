//! Facts that hold of every run.

use vstd::prelude::*;
use crate::ast::{BinaryOp, Node};
use crate::error::{RuntimeError, RuntimeErrorKind};
use crate::heap::{chain_with, find, HeapView};
use crate::semantics::{
    length, node_at, signature, uncons, with_methods, with_parameters, Action, Control, Frame,
    MachineView,
};
use crate::value::{
    older, same_value, span, truthy, Binding, Class, Environment, Function, Value,
};

verus! {

/// The kind of a value: what remains of it when what it holds is
/// forgotten.
pub open spec fn kind_of(value: Value) -> int {
    match value {
        Value::Nil => 0,
        Value::Bool(_) => 1,
        Value::Number(_) => 2,
        Value::Str(_) => 3,
        Value::Function(_) => 4,
        Value::Class(_) => 5,
        Value::Instance(_) => 6,
    }
}

/// Equality converts nothing: values of different kinds are never equal,
/// `nil` equals `nil` and nothing else, and no number equals anything that
/// is not a number.
pub proof fn lemma_equality_converts_nothing(texts: Seq<Seq<char>>, a: Value, b: Value)
    ensures
        same_value(texts, a, b) ==> kind_of(a) == kind_of(b),
        same_value(texts, Value::Nil, Value::Nil),
        same_value(texts, Value::Nil, b) <==> b == Value::Nil,
        same_value(texts, a, Value::Nil) <==> a == Value::Nil,
        a is Number && !(b is Number) ==> !same_value(texts, a, b),
        b is Number && !(a is Number) ==> !same_value(texts, a, b),
{
}

/// Equality of values that are not numbers is reflexive and symmetric.
pub proof fn lemma_equality_is_an_equivalence(texts: Seq<Seq<char>>, a: Value, b: Value)
    ensures
        !(a is Number) ==> same_value(texts, a, a),
        same_value(texts, a, b) == same_value(texts, b, a),
{
}

/// `==` on two values that are not both numbers gives whether they are the
/// same value, and `!=` whether they are not, in one step and without
/// asking the outside.
pub proof fn lemma_comparison_step(m: MachineView, left: Value, right: Value, line: usize)
    requires
        !(left is Number && right is Number),
    ensures
        m.apply_binary(BinaryOp::Equal, left, right, line) == m.go(
            Control::Give { value: Value::Bool(same_value(m.texts, left, right)) },
        ),
        m.apply_binary(BinaryOp::NotEqual, left, right, line) == m.go(
            Control::Give { value: Value::Bool(!same_value(m.texts, left, right)) },
        ),
{
}

/// Only `nil` and `false` are falsy.
pub proof fn lemma_truthiness(value: Value)
    ensures
        !truthy(value) <==> (value == Value::Nil || value == Value::Bool(false)),
{
}

/// A call with a number of arguments other than the number of parameters
/// fails, and the failure names both numbers. Nothing done before the call
/// is undone: the program, the texts and the heap stay as they are.
pub proof fn lemma_wrong_arity_fails(
    m: MachineView,
    function: usize,
    parameters: usize,
    body: usize,
    arguments: Seq<Value>,
    line: usize,
)
    requires
        function < m.heap.functions.len(),
        signature(m.nodes, m.heap.functions[function as int].declaration) == Some(
            (parameters, body),
        ),
        length(m.nodes, parameters) != arguments.len(),
    ensures
        ({
            let (after, action) = m.call_function(function, arguments, line);
            &&& action == Action::Failed(
                RuntimeError {
                    kind: RuntimeErrorKind::WrongArity {
                        expected: length(m.nodes, parameters) as usize,
                        actual: arguments.len() as usize,
                    },
                    line,
                },
            )
            &&& after.nodes == m.nodes
            &&& after.texts == m.texts
            &&& after.heap == m.heap
            &&& after.control == Control::Idle
        }),
{
}

/// A failure gives up what was running and nothing else: the machine is
/// idle, nothing remains to be done, and the program, the texts and the
/// heap, the global scope in it, are as they were.
pub proof fn lemma_failure_keeps_the_heap(m: MachineView, kind: RuntimeErrorKind, line: usize)
    ensures
        ({
            let (after, action) = m.fail(kind, line);
            &&& action == Action::Failed(RuntimeError { kind, line })
            &&& after.control == Control::Idle
            &&& after.stack.len() == 0
            &&& after.values.len() == 0
            &&& after.heap == m.heap
            &&& after.nodes == m.nodes
            &&& after.texts == m.texts
        }),
{
}

/// A `return` and a failure are never taken for each other: a `return` on
/// its way turns into a failure only where no frame is left at all, and
/// the frame of a call turns it into the value of the call and into
/// nothing else.
pub proof fn lemma_return_is_no_failure(m: MachineView, value: Value, line: usize)
    requires
        m.stack.len() > 0,
    ensures
        ({
            let (after, action) = m.unwind(value, line);
            &&& action == Action::Continue
            &&& after.stack == m.stack.drop_last()
            &&& after.heap == m.heap
            &&& match m.stack.last() {
                Frame::Call { result: None } => after.control == Control::Give { value },
                Frame::Call { result: Some(fixed) } => after.control == Control::Give {
                    value: fixed,
                },
                _ => after.control == Control::Return { value, line },
            }
        }),
{
}

/// Changing the value of one entry changes no chain: every name is found
/// where it was found before.
pub proof fn lemma_find_ignores_values(
    bindings: Seq<Binding>,
    at: int,
    value: Value,
    first: Option<usize>,
    name: usize,
)
    requires
        0 <= at < bindings.len(),
    ensures
        find(bindings.update(at, Binding { value, ..bindings[at] }), first, name) == find(
            bindings,
            first,
            name,
        ),
    decreases span(first),
{
    let changed = bindings.update(at, Binding { value, ..bindings[at] });
    match first {
        None => {},
        Some(link) => {
            if link < bindings.len() && bindings[link as int].name != name {
                lemma_find_ignores_values(
                    bindings,
                    at,
                    value,
                    older(bindings[link as int].next, link),
                    name,
                );
            }
        },
    }
}

/// Changing the value of one variable changes no scope: from every scope,
/// every name resolves to the variable it resolved to before.
pub proof fn lemma_resolve_ignores_values(
    h: HeapView,
    at: int,
    value: Value,
    scope: usize,
    name: usize,
)
    requires
        0 <= at < h.bindings.len(),
    ensures
        (HeapView {
            bindings: h.bindings.update(at, Binding { value, ..h.bindings[at] }),
            ..h
        }).resolve(scope, name) == h.resolve(scope, name),
    decreases scope,
{
    if scope < h.environments.len() {
        lemma_find_ignores_values(
            h.bindings,
            at,
            value,
            h.environments[scope as int].first,
            name,
        );
        match older(h.environments[scope as int].enclosing, scope) {
            Some(outer) => {
                lemma_resolve_ignores_values(h, at, value, outer, name);
            },
            None => {},
        }
    }
}

/// What `find` gives is a place within the table.
pub proof fn lemma_find_is_within(bindings: Seq<Binding>, first: Option<usize>, name: usize)
    ensures
        find(bindings, first, name) is Some ==> find(bindings, first, name)->0 < bindings.len(),
    decreases span(first),
{
    match first {
        None => {},
        Some(link) => {
            if link < bindings.len() && bindings[link as int].name != name {
                lemma_find_is_within(bindings, older(bindings[link as int].next, link), name);
            }
        },
    }
}

/// What `resolve` gives is a place within the table of variables.
pub proof fn lemma_resolve_is_within(h: HeapView, scope: usize, name: usize)
    ensures
        h.resolve(scope, name) is Some ==> h.resolve(scope, name)->0 < h.bindings.len(),
    decreases scope,
{
    if scope < h.environments.len() {
        lemma_find_is_within(h.bindings, h.environments[scope as int].first, name);
        match older(h.environments[scope as int].enclosing, scope) {
            Some(outer) => {
                lemma_resolve_is_within(h, outer, name);
            },
            None => {},
        }
    }
}

/// Scopes are shared, not copied: where a name resolves to the same
/// variable from two scopes, a value assigned through one of them is the
/// value read through the other. So a closure sees what the code around it
/// assigns, and the other way round.
pub proof fn lemma_assignment_is_shared(
    h: HeapView,
    writer: usize,
    reader: usize,
    name: usize,
    value: Value,
)
    requires
        h.resolve(writer, name) is Some,
        h.resolve(reader, name) == h.resolve(writer, name),
    ensures
        h.assign(writer, name, value) is Some,
        h.assign(writer, name, value)->0.lookup(reader, name) == Some(value),
        h.assign(writer, name, value)->0.lookup(writer, name) == Some(value),
{
    lemma_resolve_is_within(h, writer, name);
    let at = h.resolve(writer, name)->0 as int;
    lemma_resolve_ignores_values(h, at, value, reader, name);
    lemma_resolve_ignores_values(h, at, value, writer, name);
}

/// Assigning to one variable leaves every other variable as it is.
pub proof fn lemma_assignment_is_local(
    h: HeapView,
    writer: usize,
    name: usize,
    value: Value,
    reader: usize,
    other: usize,
)
    requires
        h.resolve(writer, name) is Some,
        h.resolve(reader, other) != h.resolve(writer, name),
    ensures
        h.assign(writer, name, value)->0.lookup(reader, other) == h.lookup(reader, other),
{
    lemma_resolve_is_within(h, writer, name);
    lemma_resolve_is_within(h, reader, other);
    let at = h.resolve(writer, name)->0 as int;
    lemma_resolve_ignores_values(h, at, value, reader, other);
}

/// A variable declared in a scope is what its name means there, whatever
/// the scopes around it hold: declaring always succeeds, and shadows.
pub proof fn lemma_declared_is_found(h: HeapView, scope: usize, name: usize, value: Value)
    requires
        scope < h.environments.len(),
        h.bindings.len() <= usize::MAX,
    ensures
        h.define(scope, name, value).lookup(scope, name) == Some(value),
{
    let first = h.environments[scope as int].first;
    let after = h.define(scope, name, value);
    lemma_find_is_within(h.bindings, first, name);
    match find(h.bindings, first, name) {
        Some(at) => {
            lemma_find_ignores_values(h.bindings, at as int, value, first, name);
            assert(after.environments[scope as int].first == first);
            assert(find(after.bindings, first, name) == Some(at));
            assert(after.resolve(scope, name) == Some(at));
        },
        None => {
            let made = h.bindings.len() as usize;
            assert(after.environments[scope as int].first == Some(made));
            assert(after.bindings[made as int].name == name);
            assert(find(after.bindings, Some(made), name) == Some(made));
            assert(after.resolve(scope, name) == Some(made));
        },
    }
}

/// No step changes the program: the table of nodes is the same after
/// every step.
pub proof fn lemma_step_keeps_the_program(m: MachineView, answer: Option<Value>)
    ensures
        ({
            let (after, _) = m.step(answer);
            &&& after.nodes == m.nodes
            &&& after.names == m.names
        }),
{
}

/// What `find` gives is an entry of the name that was looked for.
pub proof fn lemma_found_has_the_name(bindings: Seq<Binding>, first: Option<usize>, name: usize)
    ensures
        find(bindings, first, name) is Some ==> {
            &&& find(bindings, first, name)->0 < bindings.len()
            &&& bindings[find(bindings, first, name)->0 as int].name == name
        },
    decreases span(first),
{
    match first {
        None => {},
        Some(link) => {
            if link < bindings.len() && bindings[link as int].name != name {
                lemma_found_has_the_name(bindings, older(bindings[link as int].next, link), name);
            }
        },
    }
}

/// Setting a name in a chain leaves every entry of another name as it is,
/// and keeps the table at least as long.
pub proof fn lemma_chain_with_keeps_others(
    bindings: Seq<Binding>,
    first: Option<usize>,
    name: usize,
    value: Value,
    other: int,
)
    requires
        0 <= other < bindings.len(),
        bindings[other].name != name,
    ensures
        ({
            let (after, _) = chain_with(bindings, first, name, value);
            &&& after.len() >= bindings.len()
            &&& after[other] == bindings[other]
        }),
{
    lemma_found_has_the_name(bindings, first, name);
}

/// Whether no method in the list at `list` is named `name`.
pub open spec fn no_method_named(nodes: Seq<Node>, list: usize, name: usize) -> bool
    decreases list,
{
    match uncons(nodes, list) {
        Some((method, tail)) => {
            &&& match node_at(nodes, method) {
                Node::Function { name: given, parameters: _, body: _ } => given != name,
                _ => true,
            }
            &&& no_method_named(nodes, tail, name)
        },
        None => true,
    }
}

/// Making the methods of a class changes no scope and no variable of a
/// name that none of the methods has, and every function it makes closes
/// over `closure`.
pub proof fn lemma_with_methods(
    heap: HeapView,
    nodes: Seq<Node>,
    list: usize,
    class: usize,
    closure: usize,
    init: usize,
    kept: int,
)
    requires
        0 <= kept < heap.bindings.len(),
        no_method_named(nodes, list, heap.bindings[kept].name),
    ensures
        ({
            let after = with_methods(heap, nodes, list, class, closure, init);
            &&& after.environments == heap.environments
            &&& after.bindings.len() >= heap.bindings.len()
            &&& after.bindings[kept] == heap.bindings[kept]
            &&& after.functions.len() >= heap.functions.len()
            &&& forall|f: int|
                0 <= f < heap.functions.len() ==> after.functions[f] == heap.functions[f]
            &&& forall|f: int|
                heap.functions.len() <= f < after.functions.len() ==> (
                #[trigger] after.functions[f]).closure == closure
        }),
    decreases list,
{
    match uncons(nodes, list) {
        Some((method, tail)) => match node_at(nodes, method) {
            Node::Function { name, parameters: _, body: _ } => {
                let made = Function { declaration: method, closure, initializer: name == init };
                let (h1, place) = heap.with_function(made);
                let h2 = h1.with_method(class, name, Value::Function(place));
                if class < h1.classes.len() {
                    lemma_chain_with_keeps_others(
                        h1.bindings,
                        h1.classes[class as int].methods,
                        name,
                        Value::Function(place),
                        kept,
                    );
                }
                lemma_with_methods(h2, nodes, tail, class, closure, init, kept);
                let after = with_methods(h2, nodes, tail, class, closure, init);
                assert(h2.functions == heap.functions.push(made));
                assert forall|f: int| heap.functions.len() <= f < after.functions.len() implies (
                #[trigger] after.functions[f]).closure == closure by {
                    if f == heap.functions.len() {
                        assert(after.functions[f] == h2.functions[f]);
                    }
                }
                assert forall|f: int| 0 <= f < heap.functions.len() implies after.functions[f]
                    == heap.functions[f] by {
                    assert(after.functions[f] == h2.functions[f]);
                }
            },
            _ => {
                lemma_with_methods(heap, nodes, tail, class, closure, init, kept);
            },
        },
        None => {},
    }
}

/// `super` is fixed where the class is declared: every method that the
/// declaration of a class with a superclass makes closes over a scope in
/// which `super` is that superclass. What `super` means in a method so
/// depends on the class that declares the method and not on the class of
/// the instance that the method runs on.
///
/// `super` is a keyword, so in a program that the parser made neither the
/// class nor any of its methods is named like it.
pub proof fn lemma_super_is_fixed_at_declaration(
    m: MachineView,
    node: usize,
    scope: usize,
    parent: usize,
)
    requires
        scope < m.heap.environments.len(),
        m.heap.environments.len() < usize::MAX,
        m.heap.bindings.len() < usize::MAX - 1,
        node_at(m.nodes, node) is Class,
        node_at(m.nodes, node)->Class_name != m.names.superclass,
        no_method_named(m.nodes, node_at(m.nodes, node)->Class_methods, m.names.superclass),
    ensures
        ({
            let (after, action) = m.declare_class(node, scope, Some(parent));
            &&& action == Action::Continue
            &&& after.heap.functions.len() >= m.heap.functions.len()
            &&& forall|f: int|
                m.heap.functions.len() <= f < after.heap.functions.len() ==> after.heap.lookup(
                    (#[trigger] after.heap.functions[f]).closure,
                    m.names.superclass,
                ) == Some(Value::Class(parent))
        }),
{
    let name = node_at(m.nodes, node)->Class_name;
    let methods = node_at(m.nodes, node)->Class_methods;
    let named = m.names.superclass;
    let h1 = m.heap.define(scope, name, Value::Nil);
    let (inner, place) = h1.with_scope(scope);
    let h2 = inner.define(place, named, Value::Class(parent));
    let (h3, class) = h2.with_class(Class { name, superclass: Some(parent), methods: None });
    let h4 = with_methods(h3, m.nodes, methods, class, place, m.names.init);
    let h5 = h4.define(scope, name, Value::Class(class));
    // The new scope holds `super`, in a new entry.
    lemma_found_has_the_name(m.heap.bindings, m.heap.environments[scope as int].first, name);
    assert(h1.environments.len() == m.heap.environments.len());
    assert(inner.environments[place as int].first == None::<usize>);
    assert(find(inner.bindings, None, named) == None::<usize>);
    let entry = inner.bindings.len() as int;
    assert(h2.bindings[entry].name == named);
    assert(h2.bindings[entry].value == Value::Class(parent));
    assert(h2.environments[place as int].first == Some(entry as usize));
    // Making the methods leaves it alone.
    lemma_with_methods(h3, m.nodes, methods, class, place, m.names.init, entry);
    // So does naming the class.
    lemma_chain_with_keeps_others(
        h4.bindings,
        h4.environments[scope as int].first,
        name,
        Value::Class(class),
        entry,
    );
    assert(h5.environments[place as int].first == Some(entry as usize));
    assert(h5.bindings[entry] == h2.bindings[entry]);
    assert(find(h5.bindings, Some(entry as usize), named) == Some(entry as usize));
    assert(h5.resolve(place, named) == Some(entry as usize));
    assert(h5.functions == h4.functions);
    assert(h3.functions == m.heap.functions);
}

/// Binding a method to an instance does not change what `super` means in
/// it, whatever the instance is: in the bound method `this` is the
/// instance, and `super` is what it was.
pub proof fn lemma_binding_keeps_super(
    h: HeapView,
    function: usize,
    this_name: usize,
    super_name: usize,
    this: Value,
)
    requires
        function < h.functions.len(),
        this_name != super_name,
        h.functions.len() <= usize::MAX,
        h.environments.len() < usize::MAX,
        h.bindings.len() < usize::MAX,
        h.functions[function as int].closure < h.environments.len(),
        resolves_within(h, h.functions[function as int].closure, super_name),
    ensures
        ({
            let (after, bound) = h.bind(function, this_name, this);
            &&& bound < after.functions.len()
            &&& after.functions[bound as int].declaration == h.functions[function as int].declaration
            &&& after.lookup(after.functions[bound as int].closure, this_name) == Some(this)
            &&& after.lookup(after.functions[bound as int].closure, super_name) == h.lookup(
                h.functions[function as int].closure,
                super_name,
            )
        }),
{
    let method = h.functions[function as int];
    let (h1, scope) = h.with_scope(method.closure);
    let h2 = h1.define(scope, this_name, this);
    let (after, bound) = h2.with_function(Function { closure: scope, ..method });
    let entry = h.bindings.len() as usize;
    assert(h1.environments[scope as int].first == None::<usize>);
    assert(find(h1.bindings, None, this_name) == None::<usize>);
    assert(h2.bindings == h.bindings.push(
        Binding { name: this_name, value: this, next: None },
    ));
    assert(h2.environments[scope as int] == Environment {
        first: Some(entry),
        enclosing: Some(method.closure),
    });
    assert(find(h2.bindings, Some(entry), this_name) == Some(entry));
    assert(after.resolve(scope, this_name) == Some(entry));
    // `super` is not in the new scope, so it is looked for in the closure.
    assert(find(h2.bindings, older(h2.bindings[entry as int].next, entry), super_name)
        == None::<usize>);
    assert(find(h2.bindings, Some(entry), super_name) == None::<usize>);
    assert(older(Some(method.closure), scope) == Some(method.closure));
    assert(after.resolve(scope, super_name) == after.resolve(method.closure, super_name));
    assert(after.environments.subrange(0, h.environments.len() as int) =~= h.environments);
    assert(after.bindings.subrange(0, h.bindings.len() as int) =~= h.bindings);
    lemma_resolve_survives(h, after, method.closure, super_name);
    assert((after, bound) == h.bind(function, this_name, this));
    assert(bound < after.functions.len());
    assert(after.functions[bound as int].closure == scope);
    assert(after.functions[bound as int].declaration == method.declaration);
    assert(after.lookup(scope, this_name) == Some(this));
    lemma_resolve_is_within(h, method.closure, super_name);
    assert(after.lookup(scope, super_name) == h.lookup(method.closure, super_name));
}

/// Whether `name` resolves from `scope` without ever leaving the table of
/// variables: every chain on the way starts within it.
pub open spec fn resolves_within(h: HeapView, scope: usize, name: usize) -> bool
    decreases scope,
{
    if scope >= h.environments.len() {
        true
    } else {
        &&& span(h.environments[scope as int].first) <= h.bindings.len()
        &&& match find(h.bindings, h.environments[scope as int].first, name) {
            Some(_) => true,
            None => match older(h.environments[scope as int].enclosing, scope) {
                Some(outer) => resolves_within(h, outer, name),
                None => true,
            },
        }
    }
}

/// A chain that starts within the table is not changed by entries added
/// at the end of the table.
pub proof fn lemma_find_survives(
    bindings: Seq<Binding>,
    more: Seq<Binding>,
    first: Option<usize>,
    name: usize,
)
    requires
        span(first) <= bindings.len(),
    ensures
        find(bindings + more, first, name) == find(bindings, first, name),
    decreases span(first),
{
    match first {
        None => {},
        Some(link) => {
            assert((bindings + more)[link as int] == bindings[link as int]);
            if bindings[link as int].name != name {
                lemma_find_survives(
                    bindings,
                    more,
                    older(bindings[link as int].next, link),
                    name,
                );
            }
        },
    }
}

/// Scopes and variables added at the end of their tables change nothing
/// for a name that resolves from an older scope, as long as every chain
/// on the way starts within the old table.
pub proof fn lemma_resolve_survives(h: HeapView, grown: HeapView, scope: usize, name: usize)
    requires
        scope < h.environments.len(),
        h.environments.len() <= grown.environments.len(),
        grown.environments.subrange(0, h.environments.len() as int) == h.environments,
        h.bindings.len() <= grown.bindings.len(),
        grown.bindings.subrange(0, h.bindings.len() as int) == h.bindings,
        resolves_within(h, scope, name),
    ensures
        grown.resolve(scope, name) == h.resolve(scope, name),
    decreases scope,
{
    let first = h.environments[scope as int].first;
    assert(grown.environments[scope as int] == grown.environments.subrange(
        0,
        h.environments.len() as int,
    )[scope as int]);
    let more = grown.bindings.subrange(h.bindings.len() as int, grown.bindings.len() as int);
    assert(grown.bindings =~= grown.bindings.subrange(0, h.bindings.len() as int) + more);
    lemma_find_survives(h.bindings, more, first, name);
    match find(h.bindings, first, name) {
        Some(_) => {},
        None => match older(h.environments[scope as int].enclosing, scope) {
            Some(outer) => {
                lemma_resolve_survives(h, grown, outer, name);
            },
            None => {},
        },
    }
}

/// `super.method` looks the method up in the class that `super` names in
/// the scope of the running method, and binds it to the instance that
/// `this` names there. The class of that instance plays no part.
pub proof fn lemma_super_ignores_the_receiver(
    m: MachineView,
    scope: usize,
    method: usize,
    line: usize,
    parent: usize,
    this: Value,
    found: usize,
)
    requires
        m.heap.lookup(scope, m.names.superclass) == Some(Value::Class(parent)),
        m.heap.lookup(scope, m.names.this) == Some(this),
        m.heap.find_method(parent, method) == Some(Value::Function(found)),
    ensures
        m.evaluate_super(scope, method, line) == m.give_bound(found, this),
{
}

/// Declaring parameters in a scope changes no link between scopes.
pub proof fn lemma_with_parameters(
    heap: HeapView,
    nodes: Seq<Node>,
    list: usize,
    scope: usize,
    arguments: Seq<Value>,
    from: int,
)
    ensures
        ({
            let after = with_parameters(heap, nodes, list, scope, arguments, from);
            &&& after.environments.len() == heap.environments.len()
            &&& after.functions == heap.functions
            &&& forall|e: int|
                0 <= e < heap.environments.len() ==> (#[trigger] after.environments[e]).enclosing
                    == heap.environments[e].enclosing
        }),
    decreases list,
{
    match uncons(nodes, list) {
        Some((name, tail)) => {
            if 0 <= from < arguments.len() {
                lemma_with_parameters(
                    heap.define(scope, name, arguments[from]),
                    nodes,
                    tail,
                    scope,
                    arguments,
                    from + 1,
                );
            }
        },
        None => {},
    }
}

/// The body of a called function runs in a new scope whose enclosing scope
/// is the one that the function was made in, whatever scope the call
/// stands in: this is what makes closures lexical.
pub proof fn lemma_call_runs_in_the_closure(
    m: MachineView,
    function: usize,
    parameters: usize,
    body: usize,
    arguments: Seq<Value>,
    line: usize,
)
    requires
        function < m.heap.functions.len(),
        m.heap.environments.len() < usize::MAX,
        signature(m.nodes, m.heap.functions[function as int].declaration) == Some(
            (parameters, body),
        ),
        length(m.nodes, parameters) == arguments.len(),
    ensures
        ({
            let (after, action) = m.call_function(function, arguments, line);
            let scope = m.heap.environments.len() as usize;
            &&& action == Action::Continue
            &&& after.control == Control::Execute { node: body, scope }
            &&& after.heap.environments.len() == m.heap.environments.len() + 1
            &&& after.heap.environments[scope as int].enclosing == Some(
                m.heap.functions[function as int].closure,
            )
            &&& after.stack.len() == m.stack.len() + 1
            &&& after.stack.last() is Call
        }),
{
    let called = m.heap.functions[function as int];
    let (h1, scope) = m.heap.with_scope(called.closure);
    lemma_with_parameters(h1, m.nodes, parameters, scope, arguments, 0);
}

} // verus!
