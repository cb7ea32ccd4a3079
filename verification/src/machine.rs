//! The interpreter: a machine that runs a program one step at a time.
//!
//! Whoever drives the machine calls [`Machine::step`] again and again and
//! does what each step asks for: print a value, or compute with numbers and
//! hand the result to the next step. The machine itself never prints,
//! never waits and never computes with numbers.

use vstd::prelude::*;
use vstd::string::*;
use crate::ast::{lemma_place_is_first, place_of, spells_same, text_views, BinaryOp, Code, Node, UnaryOp};
use crate::error::{RuntimeError, RuntimeErrorKind, SyntaxError};
use crate::heap::Heap;
use crate::parser::parse;
use crate::scanner::views;
use crate::semantics::{
    initial, length, node_at, signature, uncons, with_methods, with_parameters, Action, Control,
    Frame, MachineView, Names, Request,
};
use crate::text::push_decimal;
use crate::token::Token;
use crate::value::{is_truthy, same_value, text_of, Class, Function, Value};

verus! {

/// The interpreter's state: the program, everything alive, what is being
/// done now and what remains to be done.
pub struct Machine {
    pub code: Code,
    pub names: Names,
    pub heap: Heap,
    pub stack: Vec<Frame>,
    pub values: Vec<Value>,
    pub control: Control,
}

impl View for Machine {
    type V = MachineView;

    open spec fn view(&self) -> MachineView {
        MachineView {
            nodes: self.code.nodes@,
            texts: text_views(self.code.texts@),
            names: self.names,
            heap: self.heap@,
            stack: self.stack@,
            values: self.values@,
            control: self.control,
        }
    }
}

impl Machine {
    /// The node at `place`; the empty list where there is none.
    pub fn node(&self, place: usize) -> (node: Node)
        ensures
            node == node_at(self@.nodes, place),
    {
        if place < self.code.nodes.len() {
            self.code.nodes[place]
        } else {
            Node::Empty
        }
    }

    /// The first item and the rest of the list at `list`.
    pub fn split(&self, list: usize) -> (parts: Option<(usize, usize)>)
        ensures
            parts == uncons(self@.nodes, list),
    {
        match self.node(list) {
            Node::Cons { head, tail } => if tail < list {
                Some((head, tail))
            } else {
                None
            },
            _ => None,
        }
    }

    /// The number of items of the list at `list`.
    pub fn count(&self, list: usize) -> (n: usize)
        ensures
            n == length(self@.nodes, list),
    {
        let mut n: usize = 0;
        let mut at = list;
        loop
            invariant
                n + length(self@.nodes, at) == length(self@.nodes, list),
                n + at <= list,
            decreases at,
        {
            match self.split(at) {
                Some((_, tail)) => {
                    n += 1;
                    at = tail;
                },
                None => {
                    return n;
                },
            }
        }
    }

    /// Goes on with `control`.
    pub fn go(&mut self, control: Control) -> (action: Action)
        ensures
            (final(self)@, action) == old(self)@.go(control),
    {
        self.control = control;
        Action::Continue
    }

    /// Goes on with `control` and keeps `frame` for later.
    pub fn push(&mut self, frame: Frame, control: Control) -> (action: Action)
        ensures
            (final(self)@, action) == old(self)@.push(frame, control),
    {
        self.stack.push(frame);
        self.control = control;
        Action::Continue
    }

    /// Asks the outside for `request`.
    pub fn ask(&mut self, request: Request) -> (action: Action)
        ensures
            (final(self)@, action) == old(self)@.ask(request),
    {
        self.control = Control::Ask { request };
        Action::Ask(request)
    }

    /// Fails: gives up everything in progress.
    pub fn fail(&mut self, kind: RuntimeErrorKind, line: usize) -> (action: Action)
        ensures
            (final(self)@, action) == old(self)@.fail(kind, line),
    {
        self.stack = Vec::new();
        self.values = Vec::new();
        self.control = Control::Idle;
        Action::Failed(RuntimeError { kind, line })
    }

    /// Gives the method `method`, bound to `this`.
    pub fn give_bound(&mut self, method: usize, this: Value) -> (action: Action)
        ensures
            (final(self)@, action) == old(self)@.give_bound(method, this),
    {
        let bound = self.heap.bind(method, self.names.this, this);
        self.go(Control::Give { value: Value::Function(bound) })
    }

    /// Evaluates `super.method` in `scope`.
    pub fn evaluate_super(&mut self, scope: usize, method: usize, line: usize) -> (action: Action)
        ensures
            (final(self)@, action) == old(self)@.evaluate_super(scope, method, line),
    {
        let parent = self.heap.lookup(scope, self.names.superclass);
        let this = self.heap.lookup(scope, self.names.this);
        match (parent, this) {
            (Some(Value::Class(parent)), Some(this)) => match self.heap.find_method(
                parent,
                method,
            ) {
                Some(Value::Function(found)) => self.give_bound(found, this),
                _ => self.fail(RuntimeErrorKind::UndefinedProperty(method), line),
            },
            _ => self.fail(RuntimeErrorKind::UndefinedVariable(self.names.superclass), line),
        }
    }

    /// Reads the variable `name` in `scope`.
    pub fn evaluate_variable(&mut self, scope: usize, name: usize, line: usize) -> (action: Action)
        ensures
            (final(self)@, action) == old(self)@.evaluate_variable(scope, name, line),
    {
        match self.heap.lookup(scope, name) {
            Some(value) => self.go(Control::Give { value }),
            None => self.fail(RuntimeErrorKind::UndefinedVariable(name), line),
        }
    }

    /// Takes the first step of evaluating the expression at `node` in
    /// `scope`.
    pub fn evaluate(&mut self, node: usize, scope: usize) -> (action: Action)
        ensures
            (final(self)@, action) == old(self)@.evaluate(node, scope),
    {
        match self.node(node) {
            Node::Nil => self.go(Control::Give { value: Value::Nil }),
            Node::Bool { value } => self.go(Control::Give { value: Value::Bool(value) }),
            Node::Number { text } => self.ask(Request::Literal { text }),
            Node::Str { text } => self.go(Control::Give { value: Value::Str(text) }),
            Node::Variable { name, line } => self.evaluate_variable(scope, name, line),
            Node::This { line } => {
                let this = self.names.this;
                self.evaluate_variable(scope, this, line)
            },
            Node::Super { method, line } => self.evaluate_super(scope, method, line),
            Node::Grouping { inner } => self.go(Control::Evaluate { node: inner, scope }),
            Node::Assign { name, value, line } => self.push(
                Frame::Assign { name, scope, line },
                Control::Evaluate { node: value, scope },
            ),
            Node::Unary { op, operand, line } => self.push(
                Frame::Operand { op, line },
                Control::Evaluate { node: operand, scope },
            ),
            Node::Binary { op, left, right, line } => self.push(
                Frame::Left { op, right, scope, line },
                Control::Evaluate { node: left, scope },
            ),
            Node::Call { callee, arguments, line } => self.push(
                Frame::Callee { arguments, scope, line },
                Control::Evaluate { node: callee, scope },
            ),
            Node::GetProperty { object, name, line } => self.push(
                Frame::Get { name, line },
                Control::Evaluate { node: object, scope },
            ),
            Node::SetProperty { object, name, value, line } => self.push(
                Frame::Object { name, value, scope, line },
                Control::Evaluate { node: object, scope },
            ),
            Node::Lambda { parameters: _, body: _ } => {
                let made = self.heap.new_function(
                    Function { declaration: node, closure: scope, initializer: false },
                );
                self.go(Control::Give { value: Value::Function(made) })
            },
            _ => self.fail(RuntimeErrorKind::Malformed, 0),
        }
    }

    /// Makes the methods at `list` for `class`.
    pub fn add_methods(&mut self, list: usize, class: usize, closure: usize)
        ensures
            final(self)@ == old(self)@.with_heap(
                with_methods(
                    old(self)@.heap,
                    old(self)@.nodes,
                    list,
                    class,
                    closure,
                    old(self)@.names.init,
                ),
            ),
    {
        let mut at = list;
        loop
            invariant
                self@ == old(self)@.with_heap(self@.heap),
                with_methods(self@.heap, self@.nodes, at, class, closure, self@.names.init)
                    == with_methods(
                    old(self)@.heap,
                    old(self)@.nodes,
                    list,
                    class,
                    closure,
                    old(self)@.names.init,
                ),
            decreases at,
        {
            match self.split(at) {
                None => {
                    return ;
                },
                Some((method, tail)) => {
                    match self.node(method) {
                        Node::Function { name, parameters: _, body: _ } => {
                            let made = self.heap.new_function(
                                Function {
                                    declaration: method,
                                    closure,
                                    initializer: name == self.names.init,
                                },
                            );
                            self.heap.set_method(class, name, Value::Function(made));
                        },
                        _ => {},
                    }
                    at = tail;
                },
            }
        }
    }

    /// Declares the class at `node` in `scope`, with `superclass` as its
    /// superclass.
    pub fn declare_class(&mut self, node: usize, scope: usize, superclass: Option<usize>) -> (action:
        Action)
        ensures
            (final(self)@, action) == old(self)@.declare_class(node, scope, superclass),
    {
        match self.node(node) {
            Node::Class { name, superclass: _, methods, line: _ } => {
                self.heap.define(scope, name, Value::Nil);
                let closure = match superclass {
                    Some(parent) => {
                        let place = self.heap.new_scope(scope);
                        self.heap.define(place, self.names.superclass, Value::Class(parent));
                        place
                    },
                    None => scope,
                };
                let class = self.heap.new_class(Class { name, superclass, methods: None });
                self.add_methods(methods, class, closure);
                self.heap.define(scope, name, Value::Class(class));
                self.go(Control::Next)
            },
            _ => self.fail(RuntimeErrorKind::Malformed, 0),
        }
    }

    /// Takes the first step of executing the statement, or the list of
    /// statements, at `node` in `scope`.
    pub fn execute(&mut self, node: usize, scope: usize) -> (action: Action)
        ensures
            (final(self)@, action) == old(self)@.execute(node, scope),
    {
        match self.node(node) {
            Node::Empty => self.go(Control::Next),
            Node::Cons { head, tail } => self.push(
                Frame::Rest { list: tail, scope },
                Control::Execute { node: head, scope },
            ),
            Node::Expression { expression } => self.push(
                Frame::Discard,
                Control::Evaluate { node: expression, scope },
            ),
            Node::Print { expression } => self.push(
                Frame::Print,
                Control::Evaluate { node: expression, scope },
            ),
            Node::Var { name, initializer } => match initializer {
                Some(value) => self.push(
                    Frame::Declare { name, scope },
                    Control::Evaluate { node: value, scope },
                ),
                None => {
                    self.heap.define(scope, name, Value::Nil);
                    self.go(Control::Next)
                },
            },
            Node::Block { body } => {
                let inner = self.heap.new_scope(scope);
                self.go(Control::Execute { node: body, scope: inner })
            },
            Node::If { condition, then_branch, else_branch } => self.push(
                Frame::Branch { then_branch, else_branch, scope },
                Control::Evaluate { node: condition, scope },
            ),
            Node::While { condition, body } => self.push(
                Frame::Test { condition, body, scope },
                Control::Evaluate { node: condition, scope },
            ),
            Node::Function { name, parameters: _, body: _ } => {
                let made = self.heap.new_function(
                    Function { declaration: node, closure: scope, initializer: false },
                );
                self.heap.define(scope, name, Value::Function(made));
                self.go(Control::Next)
            },
            Node::Return { value, line } => match value {
                Some(value) => self.push(
                    Frame::Result { line },
                    Control::Evaluate { node: value, scope },
                ),
                None => self.go(Control::Return { value: Value::Nil, line }),
            },
            Node::Class { name: _, superclass, methods: _, line: _ } => match superclass {
                Some(parent) => self.push(
                    Frame::Superclass { node, scope },
                    Control::Evaluate { node: parent, scope },
                ),
                None => self.declare_class(node, scope, None),
            },
            _ => self.fail(RuntimeErrorKind::Malformed, 0),
        }
    }
}

impl Machine {
    /// Applies a unary operator to `value`.
    pub fn apply_unary(&mut self, op: UnaryOp, value: Value, line: usize) -> (action: Action)
        ensures
            (final(self)@, action) == old(self)@.apply_unary(op, value, line),
    {
        match op {
            UnaryOp::Not => self.go(Control::Give { value: Value::Bool(!is_truthy(value)) }),
            UnaryOp::Negate => match value {
                Value::Number(operand) => self.ask(Request::Negate { operand }),
                _ => self.fail(RuntimeErrorKind::OperandMustBeNumber, line),
            },
        }
    }

    /// Whether the texts at `a` and `b` are the same.
    pub fn same_text(&self, a: usize, b: usize) -> (same: bool)
        ensures
            same == (text_of(self@.texts, a) == text_of(self@.texts, b)),
    {
        let n = self.code.texts.len();
        proof {
            let empty = Seq::<char>::empty();
            if a < n {
                assert(self.code.texts@[a as int]@.len() == 0 ==> self.code.texts@[a as int]@
                    =~= empty);
            }
            if b < n {
                assert(self.code.texts@[b as int]@.len() == 0 ==> self.code.texts@[b as int]@
                    =~= empty);
            }
        }
        if a < n && b < n {
            spells_same(self.code.texts[a].as_str(), self.code.texts[b].as_str())
        } else if a < n {
            self.code.texts[a].as_str().unicode_len() == 0
        } else if b < n {
            self.code.texts[b].as_str().unicode_len() == 0
        } else {
            true
        }
    }

    /// Whether two values that are not both numbers are equal.
    pub fn equal(&self, a: Value, b: Value) -> (same: bool)
        ensures
            same == same_value(self@.texts, a, b),
    {
        match (a, b) {
            (Value::Nil, Value::Nil) => true,
            (Value::Bool(x), Value::Bool(y)) => x == y,
            (Value::Str(x), Value::Str(y)) => self.same_text(x, y),
            (Value::Function(x), Value::Function(y)) => x == y,
            (Value::Class(x), Value::Class(y)) => x == y,
            (Value::Instance(x), Value::Instance(y)) => x == y,
            _ => false,
        }
    }

    /// Joins two strings.
    pub fn join(&mut self, left: usize, right: usize) -> (action: Action)
        ensures
            (final(self)@, action) == old(self)@.join(left, right),
    {
        let n = self.code.texts.len();
        let mut joined = String::new();
        assert(joined@ =~= Seq::<char>::empty());
        if left < n {
            joined.append(self.code.texts[left].as_str());
        }
        if right < n {
            joined.append(self.code.texts[right].as_str());
        }
        assert(joined@ =~= text_of(old(self)@.texts, left) + text_of(old(self)@.texts, right));
        self.code.texts.push(joined);
        assert(text_views(self.code.texts@) =~= text_views(old(self).code.texts@).push(joined@));
        self.go(Control::Give { value: Value::Str(n) })
    }

    /// Applies a binary operator to two values.
    pub fn apply_binary(&mut self, op: BinaryOp, left: Value, right: Value, line: usize) -> (action:
        Action)
        ensures
            (final(self)@, action) == old(self)@.apply_binary(op, left, right, line),
    {
        match op {
            BinaryOp::And | BinaryOp::Or => {
                return self.fail(RuntimeErrorKind::Malformed, line);
            },
            _ => {},
        }
        match (left, right) {
            (Value::Number(a), Value::Number(b)) => {
                return self.ask(Request::Binary { op, left: a, right: b });
            },
            _ => {},
        }
        match op {
            BinaryOp::Equal => {
                let same = self.equal(left, right);
                self.go(Control::Give { value: Value::Bool(same) })
            },
            BinaryOp::NotEqual => {
                let same = self.equal(left, right);
                self.go(Control::Give { value: Value::Bool(!same) })
            },
            BinaryOp::Add => match (left, right) {
                (Value::Str(a), Value::Str(b)) => self.join(a, b),
                _ => self.fail(RuntimeErrorKind::OperandsMustBeNumbersOrStrings, line),
            },
            _ => self.fail(RuntimeErrorKind::OperandsMustBeNumbers, line),
        }
    }

    /// Goes on after the left operand of `op` has given `value`.
    pub fn after_left(&mut self, op: BinaryOp, value: Value, right: usize, scope: usize, line:
        usize) -> (action: Action)
        ensures
            (final(self)@, action) == old(self)@.after_left(op, value, right, scope, line),
    {
        match op {
            BinaryOp::Or => if is_truthy(value) {
                self.go(Control::Give { value })
            } else {
                self.go(Control::Evaluate { node: right, scope })
            },
            BinaryOp::And => if is_truthy(value) {
                self.go(Control::Evaluate { node: right, scope })
            } else {
                self.go(Control::Give { value })
            },
            _ => self.push(
                Frame::Right { op, left: value, line },
                Control::Evaluate { node: right, scope },
            ),
        }
    }

    /// Declares the parameters at `list` in `scope`, each with the
    /// argument at its position.
    pub fn bind_parameters(&mut self, list: usize, scope: usize, arguments: &Vec<Value>)
        ensures
            final(self)@ == old(self)@.with_heap(
                with_parameters(
                    old(self)@.heap,
                    old(self)@.nodes,
                    list,
                    scope,
                    arguments@,
                    0,
                ),
            ),
    {
        let mut at = list;
        let mut i: usize = 0;
        loop
            invariant
                self@ == old(self)@.with_heap(self@.heap),
                with_parameters(self@.heap, self@.nodes, at, scope, arguments@, i as int)
                    == with_parameters(
                    old(self)@.heap,
                    old(self)@.nodes,
                    list,
                    scope,
                    arguments@,
                    0,
                ),
            decreases at,
        {
            match self.split(at) {
                None => {
                    return ;
                },
                Some((name, tail)) => {
                    if i >= arguments.len() {
                        return ;
                    }
                    self.heap.define(scope, name, arguments[i]);
                    i += 1;
                    at = tail;
                },
            }
        }
    }

    /// The parameters and the body of the function declared at `node`.
    pub fn signature_of(&self, node: usize) -> (parts: Option<(usize, usize)>)
        ensures
            parts == signature(self@.nodes, node),
    {
        match self.node(node) {
            Node::Function { name: _, parameters, body } => Some((parameters, body)),
            Node::Lambda { parameters, body } => Some((parameters, body)),
            _ => None,
        }
    }

    /// Calls the function at `function` with `arguments`.
    pub fn call_function(&mut self, function: usize, arguments: Vec<Value>, line: usize) -> (action:
        Action)
        ensures
            (final(self)@, action) == old(self)@.call_function(function, arguments@, line),
    {
        if function >= self.heap.functions.len() {
            return self.fail(RuntimeErrorKind::Malformed, line);
        }
        let called = self.heap.functions[function];
        let (parameters, body) = match self.signature_of(called.declaration) {
            None => {
                return self.fail(RuntimeErrorKind::Malformed, line);
            },
            Some(parts) => parts,
        };
        let expected = self.count(parameters);
        if expected != arguments.len() {
            return self.fail(
                RuntimeErrorKind::WrongArity { expected, actual: arguments.len() },
                line,
            );
        }
        let result = if called.initializer {
            self.heap.lookup(called.closure, self.names.this)
        } else {
            None
        };
        let scope = self.heap.new_scope(called.closure);
        self.bind_parameters(parameters, scope, &arguments);
        self.push(Frame::Call { result }, Control::Execute { node: body, scope })
    }

    /// Calls the class at `class` with `arguments`.
    pub fn instantiate(&mut self, class: usize, arguments: Vec<Value>, line: usize) -> (action:
        Action)
        ensures
            (final(self)@, action) == old(self)@.instantiate(class, arguments@, line),
    {
        let instance = self.heap.new_instance(class);
        match self.heap.find_method(class, self.names.init) {
            Some(Value::Function(init)) => {
                let bound = self.heap.bind(init, self.names.this, Value::Instance(instance));
                self.call_function(bound, arguments, line)
            },
            _ => if arguments.len() != 0 {
                self.fail(
                    RuntimeErrorKind::WrongArity { expected: 0, actual: arguments.len() },
                    line,
                )
            } else {
                self.go(Control::Give { value: Value::Instance(instance) })
            },
        }
    }
}

impl Machine {
    /// Takes the last `count` of the waiting values.
    pub fn take_arguments(&mut self, count: usize) -> (arguments: Vec<Value>)
        requires
            count <= old(self).values@.len(),
        ensures
            arguments@ == old(self)@.values.subrange(
                old(self)@.values.len() - count,
                old(self)@.values.len() as int,
            ),
            final(self)@ == (MachineView {
                values: old(self)@.values.take(old(self)@.values.len() - count),
                ..old(self)@
            }),
    {
        let n = self.values.len();
        let base = n - count;
        let mut arguments: Vec<Value> = Vec::new();
        let mut i: usize = base;
        while i < n
            invariant
                base <= i <= n,
                n == self.values@.len(),
                self@ == old(self)@,
                arguments@ == self.values@.subrange(base as int, i as int),
            decreases n - i,
        {
            arguments.push(self.values[i]);
            i += 1;
            assert(arguments@ =~= self.values@.subrange(base as int, i as int));
        }
        self.values.truncate(base);
        assert(self.values@ =~= old(self)@.values.take(base as int));
        arguments
    }

    /// Calls what was evaluated, with the last `count` of the waiting
    /// values as arguments.
    pub fn invoke(&mut self, count: usize, line: usize) -> (action: Action)
        ensures
            (final(self)@, action) == old(self)@.invoke(count, line),
    {
        if self.values.len() <= count {
            return self.fail(RuntimeErrorKind::Malformed, line);
        }
        let base = self.values.len() - count - 1;
        match self.values[base] {
            Value::Function(function) => {
                let arguments = self.take_arguments(count);
                self.values.truncate(base);
                assert(self.values@ =~= old(self)@.values.take(base as int));
                self.call_function(function, arguments, line)
            },
            Value::Class(class) => {
                let arguments = self.take_arguments(count);
                self.values.truncate(base);
                assert(self.values@ =~= old(self)@.values.take(base as int));
                self.instantiate(class, arguments, line)
            },
            _ => self.fail(RuntimeErrorKind::NotCallable, line),
        }
    }

    /// Keeps `value` for its call and evaluates the next argument, or
    /// calls where none is left.
    pub fn collect(&mut self, value: Value, list: usize, scope: usize, line: usize, count: usize)
        -> (action: Action)
        ensures
            (final(self)@, action) == old(self)@.collect(value, list, scope, line, count),
    {
        match self.node(list) {
            Node::Cons { head, tail } => if count < usize::MAX {
                self.values.push(value);
                self.push(
                    Frame::Argument { rest: tail, scope, line, count: count + 1 },
                    Control::Evaluate { node: head, scope },
                )
            } else {
                self.fail(RuntimeErrorKind::Malformed, line)
            },
            _ => {
                self.values.push(value);
                self.invoke(count, line)
            },
        }
    }

    /// Reads the property `name` of `object`.
    pub fn get_property(&mut self, object: Value, name: usize, line: usize) -> (action: Action)
        ensures
            (final(self)@, action) == old(self)@.get_property(object, name, line),
    {
        match object {
            Value::Instance(instance) => {
                if instance >= self.heap.instances.len() {
                    return self.fail(RuntimeErrorKind::Malformed, line);
                }
                match self.heap.field(instance, name) {
                    Some(value) => self.go(Control::Give { value }),
                    None => match self.heap.find_method(
                        self.heap.instances[instance].class,
                        name,
                    ) {
                        Some(Value::Function(method)) => self.give_bound(method, object),
                        _ => self.fail(RuntimeErrorKind::UndefinedProperty(name), line),
                    },
                }
            },
            _ => self.fail(RuntimeErrorKind::NotAnInstance, line),
        }
    }

    /// Assigns `value` to the property `name` of `object`.
    pub fn set_property(&mut self, object: Value, name: usize, value: Value, line: usize) -> (action:
        Action)
        ensures
            (final(self)@, action) == old(self)@.set_property(object, name, value, line),
    {
        match object {
            Value::Instance(instance) => {
                self.heap.set_field(instance, name, value);
                self.go(Control::Give { value })
            },
            _ => self.fail(RuntimeErrorKind::NotAnInstance, line),
        }
    }

    /// The line of the class declaration at `node`.
    pub fn line_of(&self, node: usize) -> (line: usize)
        ensures
            line == self@.line_of(node),
    {
        match self.node(node) {
            Node::Class { name: _, superclass: _, methods: _, line } => line,
            _ => 0,
        }
    }

    /// Does with `value` what `frame` says.
    pub fn resume(&mut self, frame: Frame, value: Value) -> (action: Action)
        ensures
            (final(self)@, action) == old(self)@.resume(frame, value),
    {
        match frame {
            Frame::Operand { op, line } => self.apply_unary(op, value, line),
            Frame::Left { op, right, scope, line } => self.after_left(
                op,
                value,
                right,
                scope,
                line,
            ),
            Frame::Right { op, left, line } => self.apply_binary(op, left, value, line),
            Frame::Assign { name, scope, line } => if self.heap.assign(scope, name, value) {
                self.go(Control::Give { value })
            } else {
                self.fail(RuntimeErrorKind::UndefinedVariable(name), line)
            },
            Frame::Callee { arguments, scope, line } => self.collect(
                value,
                arguments,
                scope,
                line,
                0,
            ),
            Frame::Argument { rest, scope, line, count } => self.collect(
                value,
                rest,
                scope,
                line,
                count,
            ),
            Frame::Get { name, line } => self.get_property(value, name, line),
            Frame::Object { name, value: assigned, scope, line } => match value {
                Value::Instance(_) => self.push(
                    Frame::Field { object: value, name, line },
                    Control::Evaluate { node: assigned, scope },
                ),
                _ => self.fail(RuntimeErrorKind::NotAnInstance, line),
            },
            Frame::Field { object, name, line } => self.set_property(object, name, value, line),
            Frame::Discard => self.go(Control::Next),
            Frame::Print => {
                self.control = Control::Next;
                Action::Print(value)
            },
            Frame::Declare { name, scope } => {
                self.heap.define(scope, name, value);
                self.go(Control::Next)
            },
            Frame::Branch { then_branch, else_branch, scope } => if is_truthy(value) {
                self.go(Control::Execute { node: then_branch, scope })
            } else {
                match else_branch {
                    Some(otherwise) => self.go(Control::Execute { node: otherwise, scope }),
                    None => self.go(Control::Next),
                }
            },
            Frame::Test { condition, body, scope } => if is_truthy(value) {
                self.push(
                    Frame::Repeat { condition, body, scope },
                    Control::Execute { node: body, scope },
                )
            } else {
                self.go(Control::Next)
            },
            Frame::Result { line } => self.go(Control::Return { value, line }),
            Frame::Superclass { node, scope } => match value {
                Value::Class(parent) => self.declare_class(node, scope, Some(parent)),
                _ => {
                    let line = self.line_of(node);
                    self.fail(RuntimeErrorKind::SuperclassNotAClass, line)
                },
            },
            _ => self.fail(RuntimeErrorKind::Malformed, 0),
        }
    }

    /// Hands `value` to the newest frame.
    pub fn give(&mut self, value: Value) -> (action: Action)
        ensures
            (final(self)@, action) == old(self)@.give(value),
    {
        match self.stack.pop() {
            None => {
                self.control = Control::Idle;
                Action::Finished
            },
            Some(frame) => self.resume(frame, value),
        }
    }

    /// Goes on after a statement has run to its end.
    pub fn next(&mut self) -> (action: Action)
        ensures
            (final(self)@, action) == old(self)@.next(),
    {
        let n = self.stack.len();
        if n == 0 {
            self.control = Control::Idle;
            return Action::Finished;
        }
        match self.stack[n - 1] {
            Frame::Rest { list, scope } => {
                self.stack.pop();
                self.go(Control::Execute { node: list, scope })
            },
            Frame::Repeat { condition, body, scope } => {
                self.stack.pop();
                self.push(
                    Frame::Test { condition, body, scope },
                    Control::Evaluate { node: condition, scope },
                )
            },
            Frame::Call { result } => {
                self.stack.pop();
                self.go(
                    Control::Give {
                        value: match result {
                            Some(fixed) => fixed,
                            None => Value::Nil,
                        },
                    },
                )
            },
            _ => self.fail(RuntimeErrorKind::Malformed, 0),
        }
    }

    /// Passes a `return` with `value` through the newest frame.
    pub fn unwind(&mut self, value: Value, line: usize) -> (action: Action)
        ensures
            (final(self)@, action) == old(self)@.unwind(value, line),
    {
        match self.stack.pop() {
            None => self.fail(RuntimeErrorKind::ReturnOutsideFunction, line),
            Some(Frame::Call { result }) => self.go(
                Control::Give {
                    value: match result {
                        Some(fixed) => fixed,
                        None => value,
                    },
                },
            ),
            Some(_) => self.go(Control::Return { value, line }),
        }
    }

    /// Takes one step. `answer` is what the outside computed, if the step
    /// before asked for something.
    pub fn step(&mut self, answer: Option<Value>) -> (action: Action)
        ensures
            (final(self)@, action) == old(self)@.step(answer),
    {
        match self.control {
            Control::Idle => Action::Finished,
            Control::Evaluate { node, scope } => self.evaluate(node, scope),
            Control::Execute { node, scope } => self.execute(node, scope),
            Control::Give { value } => self.give(value),
            Control::Next => self.next(),
            Control::Return { value, line } => self.unwind(value, line),
            Control::Ask { request } => match answer {
                Some(value) => self.go(Control::Give { value }),
                None => Action::Ask(request),
            },
        }
    }

    /// Sets the machine to run the statements at `program` in the global
    /// scope. Whatever was in progress is given up.
    pub fn start(&mut self, program: usize)
        ensures
            final(self)@ == old(self)@.start(program),
    {
        self.stack = Vec::new();
        self.values = Vec::new();
        self.control = Control::Execute { node: program, scope: 0 };
    }
}

impl Machine {
    /// A machine that has seen no program yet.
    pub fn new() -> (machine: Machine)
        ensures
            machine@ == initial(),
    {
        let mut code = Code::new();
        let ghost none = Seq::<Seq<char>>::empty();
        let this = code.intern("this");
        proof {
            assert(place_of(none, "this"@) == 0);
            assert(text_views(code.texts@) =~= seq!["this"@]);
        }
        let superclass = code.intern("super");
        proof {
            reveal_strlit("this");
            reveal_strlit("super");
            let one = seq!["this"@];
            assert("this"@.len() != "super"@.len());
            lemma_place_is_first(one, "super"@, 1);
            assert(text_views(code.texts@) =~= seq!["this"@, "super"@]);
        }
        let init = code.intern("init");
        proof {
            reveal_strlit("this");
            reveal_strlit("super");
            reveal_strlit("init");
            let two = seq!["this"@, "super"@];
            assert("init"@.len() != "super"@.len());
            assert("this"@[0] != "init"@[0]);
            lemma_place_is_first(two, "init"@, 2);
            assert(text_views(code.texts@) =~= seq!["this"@, "super"@, "init"@]);
        }
        let heap = Heap::new();
        Machine {
            code,
            names: Names { this, superclass, init },
            heap,
            stack: Vec::new(),
            values: Vec::new(),
            control: Control::Idle,
        }
    }

    /// Parses `tokens` into the machine's tables and gives the violations
    /// of the grammar. Where there are none the machine is set to run the
    /// program, and whatever was in progress is given up; where there are
    /// some, nothing else changes.
    pub fn load(&mut self, tokens: Vec<Token>) -> (errors: Vec<SyntaxError>)
        ensures
            (final(self)@, errors@) == old(self)@.load(views(tokens@)),
    {
        let mut code = Code::new();
        core::mem::swap(&mut code, &mut self.code);
        let parsed = parse(tokens, code);
        self.code = parsed.code;
        if parsed.errors.len() == 0 {
            self.start(parsed.program);
        }
        parsed.errors
    }

    /// The text of the name at `name`, or `?` where there is no name.
    pub fn name_text(&self, name: Option<usize>) -> (text: &str)
        ensures
            text@ == self@.name_text(name),
    {
        match name {
            Some(place) => self.text(place),
            None => "?",
        }
    }

    /// The text at `place`, or the empty text where there is none.
    pub fn text(&self, place: usize) -> (text: &str)
        ensures
            text@ == text_of(self@.texts, place),
    {
        if place < self.code.texts.len() {
            self.code.texts[place].as_str()
        } else {
            let empty = "";
            proof {
                reveal_strlit("");
                assert(empty@ =~= Seq::<char>::empty());
            }
            empty
        }
    }

    /// The name of the function at `function`, if it has one.
    pub fn function_name(&self, function: usize) -> (name: Option<usize>)
        ensures
            name == self@.function_name(function),
    {
        if function < self.heap.functions.len() {
            match self.node(self.heap.functions[function].declaration) {
                Node::Function { name, parameters: _, body: _ } => Some(name),
                _ => None,
            }
        } else {
            None
        }
    }

    /// The name of the class at `class`, if there is such a class.
    pub fn class_name(&self, class: usize) -> (name: Option<usize>)
        ensures
            name == self@.class_name(class),
    {
        if class < self.heap.classes.len() {
            Some(self.heap.classes[class].name)
        } else {
            None
        }
    }

    /// Writes a value that is not a number; gives nothing for a number.
    pub fn describe(&self, value: Value) -> (text: Option<String>)
        ensures
            match self@.description(value) {
                Some(due) => text is Some && text->0@ == due,
                None => text is None,
            },
    {
        match value {
            Value::Nil => Some(String::from_str("nil")),
            Value::Bool(b) => Some(String::from_str(if b { "true" } else { "false" })),
            Value::Number(_) => None,
            Value::Str(text) => Some(String::from_str(self.text(text))),
            Value::Function(function) => {
                let mut text = String::from_str("<fn ");
                text.append(self.name_text(self.function_name(function)));
                text.append(">");
                Some(text)
            },
            Value::Class(class) => {
                let mut text = String::from_str("<class ");
                text.append(self.name_text(self.class_name(class)));
                text.append(">");
                Some(text)
            },
            Value::Instance(instance) => {
                let class = if instance < self.heap.instances.len() {
                    self.class_name(self.heap.instances[instance].class)
                } else {
                    None
                };
                let mut text = String::from_str("<");
                text.append(self.name_text(class));
                text.append(" instance>");
                Some(text)
            },
        }
    }

    /// What a fault at run time is called in a diagnostic.
    pub fn runtime_message(&self, kind: RuntimeErrorKind) -> (text: String)
        ensures
            text@ == self@.runtime_message(kind),
    {
        match kind {
            RuntimeErrorKind::UndefinedVariable(name) => {
                let mut text = String::from_str("Undefined variable '");
                text.append(self.text(name));
                text.append("'.");
                text
            },
            RuntimeErrorKind::UndefinedProperty(name) => {
                let mut text = String::from_str("Undefined property '");
                text.append(self.text(name));
                text.append("'.");
                text
            },
            RuntimeErrorKind::OperandMustBeNumber => String::from_str("Operand must be a number."),
            RuntimeErrorKind::OperandsMustBeNumbers => String::from_str(
                "Operands must be numbers.",
            ),
            RuntimeErrorKind::OperandsMustBeNumbersOrStrings => String::from_str(
                "Operands must be two numbers or two strings.",
            ),
            RuntimeErrorKind::NotCallable => String::from_str(
                "Can only call functions and classes.",
            ),
            RuntimeErrorKind::WrongArity { expected, actual } => {
                let mut text = String::from_str("Expected ");
                push_decimal(&mut text, expected);
                text.append(" arguments but got ");
                push_decimal(&mut text, actual);
                text.append(".");
                text
            },
            RuntimeErrorKind::NotAnInstance => String::from_str("Only instances have properties."),
            RuntimeErrorKind::SuperclassNotAClass => String::from_str(
                "Superclass must be a class.",
            ),
            RuntimeErrorKind::ReturnOutsideFunction => String::from_str(
                "Can't return from top-level code.",
            ),
            RuntimeErrorKind::Malformed => String::from_str("Malformed program."),
        }
    }

    /// The diagnostic for a fault at run time.
    pub fn runtime_diagnostic(&self, error: RuntimeError) -> (text: String)
        ensures
            text@ == self@.runtime_diagnostic(error),
    {
        let mut text = self.runtime_message(error.kind);
        text.append("\n[line ");
        push_decimal(&mut text, error.line);
        text.append("]");
        text
    }
}

} // verus!
