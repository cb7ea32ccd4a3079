//! The tables of scopes, variables, functions, classes and instances.
//!
//! A scope captured by a function stays in its table for as long as the
//! tables live, so a closure and the code around it see one and the same
//! variable.

use vstd::prelude::*;
use crate::value::{older, older_link, span, Binding, Class, Environment, Function, Instance, Value};

verus! {

/// The mathematical value of a [`Heap`].
pub struct HeapView {
    pub environments: Seq<Environment>,
    pub bindings: Seq<Binding>,
    pub functions: Seq<Function>,
    pub classes: Seq<Class>,
    pub instances: Seq<Instance>,
}

/// The place of the entry named `name` in the chain that starts at
/// `first`, if the chain has one.
pub open spec fn find(bindings: Seq<Binding>, first: Option<usize>, name: usize) -> Option<usize>
    decreases span(first),
{
    match first {
        None => None,
        Some(at) => {
            if at >= bindings.len() {
                None
            } else if bindings[at as int].name == name {
                Some(at)
            } else {
                find(bindings, older(bindings[at as int].next, at), name)
            }
        },
    }
}

/// The chain that starts at `first` with `name` set to `value` in it: the
/// entry named `name` is changed where there is one, and a new entry is put
/// in front where there is none. Gives the table and the start of the
/// chain.
pub open spec fn chain_with(
    bindings: Seq<Binding>,
    first: Option<usize>,
    name: usize,
    value: Value,
) -> (Seq<Binding>, Option<usize>) {
    match find(bindings, first, name) {
        Some(at) => (bindings.update(at as int, Binding { value, ..bindings[at as int] }), first),
        None => (
            bindings.push(Binding { name, value, next: older(first, bindings.len() as usize) }),
            Some(bindings.len() as usize),
        ),
    }
}

impl HeapView {
    /// The place of the variable named `name` that is visible from `scope`:
    /// the one in the innermost scope that has one, going outwards.
    pub open spec fn resolve(self, scope: usize, name: usize) -> Option<usize>
        decreases scope,
    {
        if scope >= self.environments.len() {
            None
        } else {
            match find(self.bindings, self.environments[scope as int].first, name) {
                Some(at) => Some(at),
                None => match older(self.environments[scope as int].enclosing, scope) {
                    Some(outer) => self.resolve(outer, name),
                    None => None,
                },
            }
        }
    }

    /// The value of the variable named `name` that is visible from `scope`.
    pub open spec fn lookup(self, scope: usize, name: usize) -> Option<Value> {
        match self.resolve(scope, name) {
            Some(at) => Some(self.bindings[at as int].value),
            None => None,
        }
    }

    /// The heap after `name` was declared in `scope` with `value`. A
    /// variable of that name in the same scope is overwritten; one in a
    /// scope further out is shadowed.
    pub open spec fn define(self, scope: usize, name: usize, value: Value) -> HeapView {
        if scope >= self.environments.len() {
            self
        } else {
            let old = self.environments[scope as int];
            let (bindings, first) = chain_with(self.bindings, old.first, name, value);
            HeapView {
                bindings,
                environments: self.environments.update(
                    scope as int,
                    Environment { first, ..old },
                ),
                ..self
            }
        }
    }

    /// The heap after `value` was assigned to the variable named `name`
    /// that is visible from `scope`; nothing where no such variable is.
    pub open spec fn assign(self, scope: usize, name: usize, value: Value) -> Option<HeapView> {
        match self.resolve(scope, name) {
            Some(at) => Some(
                HeapView {
                    bindings: self.bindings.update(
                        at as int,
                        Binding { value, ..self.bindings[at as int] },
                    ),
                    ..self
                },
            ),
            None => None,
        }
    }

    /// The heap with a new, empty scope inside `enclosing`, and its place.
    pub open spec fn with_scope(self, enclosing: usize) -> (HeapView, usize) {
        (
            HeapView {
                environments: self.environments.push(
                    Environment { first: None, enclosing: Some(enclosing) },
                ),
                ..self
            },
            self.environments.len() as usize,
        )
    }

    /// The heap with a new function, and its place.
    pub open spec fn with_function(self, function: Function) -> (HeapView, usize) {
        (
            HeapView { functions: self.functions.push(function), ..self },
            self.functions.len() as usize,
        )
    }

    /// The heap with a new class, and its place.
    pub open spec fn with_class(self, class: Class) -> (HeapView, usize) {
        (HeapView { classes: self.classes.push(class), ..self }, self.classes.len() as usize)
    }

    /// The heap with a new instance of `class` that has no fields, and its
    /// place.
    pub open spec fn with_instance(self, class: usize) -> (HeapView, usize) {
        (
            HeapView {
                instances: self.instances.push(Instance { class, fields: None }),
                ..self
            },
            self.instances.len() as usize,
        )
    }

    /// The method named `name` of `class`: its own where it has one, else
    /// that of the nearest ancestor that has one.
    pub open spec fn find_method(self, class: usize, name: usize) -> Option<Value>
        decreases class,
    {
        if class >= self.classes.len() {
            None
        } else {
            match find(self.bindings, self.classes[class as int].methods, name) {
                Some(at) => Some(self.bindings[at as int].value),
                None => match older(self.classes[class as int].superclass, class) {
                    Some(parent) => self.find_method(parent, name),
                    None => None,
                },
            }
        }
    }

    /// The heap after the method `name` of `class` was set to `value`.
    pub open spec fn with_method(self, class: usize, name: usize, value: Value) -> HeapView {
        if class >= self.classes.len() {
            self
        } else {
            let old = self.classes[class as int];
            let (bindings, methods) = chain_with(self.bindings, old.methods, name, value);
            HeapView {
                bindings,
                classes: self.classes.update(class as int, Class { methods, ..old }),
                ..self
            }
        }
    }

    /// The value of the field named `name` of `instance`.
    pub open spec fn field(self, instance: usize, name: usize) -> Option<Value> {
        if instance >= self.instances.len() {
            None
        } else {
            match find(self.bindings, self.instances[instance as int].fields, name) {
                Some(at) => Some(self.bindings[at as int].value),
                None => None,
            }
        }
    }

    /// The heap after the field `name` of `instance` was set to `value`.
    pub open spec fn with_field(self, instance: usize, name: usize, value: Value) -> HeapView {
        if instance >= self.instances.len() {
            self
        } else {
            let old = self.instances[instance as int];
            let (bindings, fields) = chain_with(self.bindings, old.fields, name, value);
            HeapView {
                bindings,
                instances: self.instances.update(instance as int, Instance { fields, ..old }),
                ..self
            }
        }
    }

    /// The heap with a copy of `function` that sees `this` as the variable
    /// named `this_name`, and the place of the copy: the method bound to
    /// the instance.
    pub open spec fn bind(self, function: usize, this_name: usize, this: Value) -> (
        HeapView,
        usize,
    ) {
        if function >= self.functions.len() {
            (self, function)
        } else {
            let method = self.functions[function as int];
            let (h1, scope) = self.with_scope(method.closure);
            let h2 = h1.define(scope, this_name, this);
            h2.with_function(Function { closure: scope, ..method })
        }
    }
}

/// The tables of everything that lives at run time.
pub struct Heap {
    pub environments: Vec<Environment>,
    pub bindings: Vec<Binding>,
    pub functions: Vec<Function>,
    pub classes: Vec<Class>,
    pub instances: Vec<Instance>,
}

impl View for Heap {
    type V = HeapView;

    open spec fn view(&self) -> HeapView {
        HeapView {
            environments: self.environments@,
            bindings: self.bindings@,
            functions: self.functions@,
            classes: self.classes@,
            instances: self.instances@,
        }
    }
}

/// Finds the entry named `name` in the chain that starts at `first`.
pub fn find_binding(bindings: &Vec<Binding>, first: Option<usize>, name: usize) -> (found: Option<
    usize,
>)
    ensures
        found == find(bindings@, first, name),
        found is Some ==> found->0 < bindings@.len(),
{
    let mut link = first;
    loop
        invariant
            find(bindings@, link, name) == find(bindings@, first, name),
        decreases span(link),
    {
        match link {
            None => {
                return None;
            },
            Some(at) => {
                if at >= bindings.len() {
                    return None;
                }
                if bindings[at].name == name {
                    return Some(at);
                }
                link = older_link(bindings[at].next, at);
            },
        }
    }
}

/// Sets `name` to `value` in the chain that starts at `first`, and gives
/// the start of the chain.
pub fn put_binding(bindings: &mut Vec<Binding>, first: Option<usize>, name: usize, value: Value)
    -> (start: Option<usize>)
    ensures
        (final(bindings)@, start) == chain_with(old(bindings)@, first, name, value),
{
    match find_binding(bindings, first, name) {
        Some(at) => {
            let entry = bindings[at];
            bindings.set(at, Binding { name: entry.name, value, next: entry.next });
            first
        },
        None => {
            let at = bindings.len();
            bindings.push(Binding { name, value, next: older_link(first, at) });
            Some(at)
        },
    }
}

impl Heap {
    /// A heap that holds the global scope, at place 0, and nothing else.
    pub fn new() -> (heap: Heap)
        ensures
            heap@.environments == seq![Environment { first: None, enclosing: None }],
            heap@.bindings == Seq::<Binding>::empty(),
            heap@.functions == Seq::<Function>::empty(),
            heap@.classes == Seq::<Class>::empty(),
            heap@.instances == Seq::<Instance>::empty(),
    {
        let mut environments: Vec<Environment> = Vec::new();
        environments.push(Environment { first: None, enclosing: None });
        assert(environments@ =~= seq![Environment { first: None, enclosing: None }]);
        Heap {
            environments,
            bindings: Vec::new(),
            functions: Vec::new(),
            classes: Vec::new(),
            instances: Vec::new(),
        }
    }

    /// Finds the variable named `name` that is visible from `scope`.
    pub fn resolve(&self, scope: usize, name: usize) -> (found: Option<usize>)
        ensures
            found == self@.resolve(scope, name),
            found is Some ==> found->0 < self.bindings@.len(),
    {
        let mut at = scope;
        loop
            invariant
                self@.resolve(at, name) == self@.resolve(scope, name),
            decreases at,
        {
            if at >= self.environments.len() {
                return None;
            }
            match find_binding(&self.bindings, self.environments[at].first, name) {
                Some(found) => {
                    return Some(found);
                },
                None => {},
            }
            match older_link(self.environments[at].enclosing, at) {
                Some(outer) => {
                    at = outer;
                },
                None => {
                    return None;
                },
            }
        }
    }

    /// Reads the variable named `name` that is visible from `scope`.
    pub fn lookup(&self, scope: usize, name: usize) -> (value: Option<Value>)
        ensures
            value == self@.lookup(scope, name),
    {
        match self.resolve(scope, name) {
            Some(at) => Some(self.bindings[at].value),
            None => None,
        }
    }

    /// Declares `name` in `scope` with `value`.
    pub fn define(&mut self, scope: usize, name: usize, value: Value)
        ensures
            final(self)@ == old(self)@.define(scope, name, value),
    {
        if scope < self.environments.len() {
            let old = self.environments[scope];
            let first = put_binding(&mut self.bindings, old.first, name, value);
            self.environments.set(scope, Environment { first, enclosing: old.enclosing });
        }
    }

    /// Assigns `value` to the variable named `name` that is visible from
    /// `scope`. Gives `false`, and changes nothing, where there is no such
    /// variable.
    pub fn assign(&mut self, scope: usize, name: usize, value: Value) -> (done: bool)
        ensures
            done == (old(self)@.assign(scope, name, value) is Some),
            done ==> final(self)@ == old(self)@.assign(scope, name, value)->0,
            !done ==> final(self)@ == old(self)@,
    {
        match self.resolve(scope, name) {
            Some(at) => {
                let entry = self.bindings[at];
                self.bindings.set(at, Binding { name: entry.name, value, next: entry.next });
                true
            },
            None => false,
        }
    }

    /// Makes a new, empty scope inside `enclosing`.
    pub fn new_scope(&mut self, enclosing: usize) -> (place: usize)
        ensures
            (final(self)@, place) == old(self)@.with_scope(enclosing),
    {
        let place = self.environments.len();
        self.environments.push(Environment { first: None, enclosing: Some(enclosing) });
        place
    }

    /// Makes a new function.
    pub fn new_function(&mut self, function: Function) -> (place: usize)
        ensures
            (final(self)@, place) == old(self)@.with_function(function),
    {
        let place = self.functions.len();
        self.functions.push(function);
        place
    }

    /// Makes a new class.
    pub fn new_class(&mut self, class: Class) -> (place: usize)
        ensures
            (final(self)@, place) == old(self)@.with_class(class),
    {
        let place = self.classes.len();
        self.classes.push(class);
        place
    }

    /// Makes a new instance of `class` that has no fields.
    pub fn new_instance(&mut self, class: usize) -> (place: usize)
        ensures
            (final(self)@, place) == old(self)@.with_instance(class),
    {
        let place = self.instances.len();
        self.instances.push(Instance { class, fields: None });
        place
    }

    /// Finds the method named `name` of `class` or of its nearest ancestor
    /// that has one.
    pub fn find_method(&self, class: usize, name: usize) -> (method: Option<Value>)
        ensures
            method == self@.find_method(class, name),
    {
        let mut at = class;
        loop
            invariant
                self@.find_method(at, name) == self@.find_method(class, name),
            decreases at,
        {
            if at >= self.classes.len() {
                return None;
            }
            match find_binding(&self.bindings, self.classes[at].methods, name) {
                Some(found) => {
                    return Some(self.bindings[found].value);
                },
                None => {},
            }
            match older_link(self.classes[at].superclass, at) {
                Some(parent) => {
                    at = parent;
                },
                None => {
                    return None;
                },
            }
        }
    }

    /// Sets the method `name` of `class` to `value`.
    pub fn set_method(&mut self, class: usize, name: usize, value: Value)
        ensures
            final(self)@ == old(self)@.with_method(class, name, value),
    {
        if class < self.classes.len() {
            let old = self.classes[class];
            let methods = put_binding(&mut self.bindings, old.methods, name, value);
            self.classes.set(
                class,
                Class { name: old.name, superclass: old.superclass, methods },
            );
        }
    }

    /// Reads the field named `name` of `instance`.
    pub fn field(&self, instance: usize, name: usize) -> (value: Option<Value>)
        ensures
            value == self@.field(instance, name),
    {
        if instance >= self.instances.len() {
            return None;
        }
        match find_binding(&self.bindings, self.instances[instance].fields, name) {
            Some(at) => Some(self.bindings[at].value),
            None => None,
        }
    }

    /// Sets the field `name` of `instance` to `value`.
    pub fn set_field(&mut self, instance: usize, name: usize, value: Value)
        ensures
            final(self)@ == old(self)@.with_field(instance, name, value),
    {
        if instance < self.instances.len() {
            let old = self.instances[instance];
            let fields = put_binding(&mut self.bindings, old.fields, name, value);
            self.instances.set(instance, Instance { class: old.class, fields });
        }
    }

    /// Makes a copy of `function` that sees `this` as the variable named
    /// `this_name`.
    pub fn bind(&mut self, function: usize, this_name: usize, this: Value) -> (place: usize)
        ensures
            (final(self)@, place) == old(self)@.bind(function, this_name, this),
    {
        if function >= self.functions.len() {
            return function;
        }
        let method = self.functions[function];
        let scope = self.new_scope(method.closure);
        self.define(scope, this_name, this);
        self.new_function(
            Function {
                declaration: method.declaration,
                closure: scope,
                initializer: method.initializer,
            },
        )
    }
}

} // verus!
