//! What running a program means, one step at a time.
//!
//! The interpreter is a machine. Its state says what is being done now
//! (`Control`), what remains to be done afterwards (a stack of `Frame`s),
//! and holds the tables of the program and of everything alive. One step
//! takes the machine from one state to the next and says what the outside
//! has to do before the next step: nothing, print a value, or compute with
//! numbers. Numbers are the outside's business: the machine only carries
//! them.
//!
//! Everything here is mathematics; the executable machine is proved to do
//! exactly this.

use vstd::prelude::*;
use crate::ast::{BinaryOp, Node, UnaryOp};
use crate::error::{RuntimeError, RuntimeErrorKind, SyntaxError};
use crate::heap::HeapView;
use crate::syntax;
use crate::syntax::ParserView;
use crate::text::decimal;
use crate::token::TokenView;
use crate::value::{same_value, text_of, truthy, Class, Environment, Function, Value};

verus! {

/// What the machine asks the outside to compute.
#[derive(Eq, PartialEq, Debug, Copy, Clone, Structural)]
pub enum Request {
    /// The number that the digits of the text at `text` write.
    Literal { text: usize },
    /// The negative of a number.
    Negate { operand: u64 },
    /// The result of an operator on two numbers: a number for the
    /// arithmetic operators, a boolean for the comparisons.
    Binary { op: BinaryOp, left: u64, right: u64 },
}

/// What the outside has to do after a step.
#[derive(Eq, PartialEq, Debug, Copy, Clone, Structural)]
pub enum Action {
    /// Nothing: take the next step.
    Continue,
    /// Compute what is asked and hand the result to the next step.
    Ask(Request),
    /// Write the value on a line of its own, then take the next step.
    Print(Value),
    /// Nothing is left to run.
    Finished,
    /// The program failed. What it was doing is given up; the global scope
    /// stays as it is.
    Failed(RuntimeError),
}

/// What the machine is doing now.
#[derive(Eq, PartialEq, Debug, Copy, Clone, Structural)]
pub enum Control {
    /// Nothing.
    Idle,
    /// The expression at `node` is to be evaluated in `scope`.
    Evaluate { node: usize, scope: usize },
    /// The statement, or list of statements, at `node` is to be executed
    /// in `scope`.
    Execute { node: usize, scope: usize },
    /// An expression has given `value`.
    Give { value: Value },
    /// A statement has run to its end.
    Next,
    /// A `return` on `line` is on its way to the call it ends.
    Return { value: Value, line: usize },
    /// The outside was asked for `request`.
    Ask { request: Request },
}

/// What remains to be done once the current expression has given its value
/// or the current statement has run to its end.
#[derive(Eq, PartialEq, Debug, Copy, Clone, Structural)]
pub enum Frame {
    /// Apply a unary operator to the value.
    Operand { op: UnaryOp, line: usize },
    /// The value is the left operand: evaluate the right one.
    Left { op: BinaryOp, right: usize, scope: usize, line: usize },
    /// The value is the right operand: apply the operator.
    Right { op: BinaryOp, left: Value, line: usize },
    /// Assign the value to a variable.
    Assign { name: usize, scope: usize, line: usize },
    /// The value is what is called: evaluate the arguments.
    Callee { arguments: usize, scope: usize, line: usize },
    /// The value is an argument, after `count` earlier ones: evaluate the
    /// arguments at `rest`, then call.
    Argument { rest: usize, scope: usize, line: usize, count: usize },
    /// Read a property of the value.
    Get { name: usize, line: usize },
    /// The value is the object of a property assignment: evaluate the
    /// value to assign.
    Object { name: usize, value: usize, scope: usize, line: usize },
    /// Assign the value to a property of `object`.
    Field { object: Value, name: usize, line: usize },
    /// Drop the value: an expression statement.
    Discard,
    /// Print the value.
    Print,
    /// Declare a variable with the value.
    Declare { name: usize, scope: usize },
    /// Execute the statements at `list`.
    Rest { list: usize, scope: usize },
    /// The value is the condition of an `if`.
    Branch { then_branch: usize, else_branch: Option<usize>, scope: usize },
    /// The value is the condition of a `while`.
    Test { condition: usize, body: usize, scope: usize },
    /// The body of a `while` has run: evaluate the condition again.
    Repeat { condition: usize, body: usize, scope: usize },
    /// Return the value from the function; the `return` stands on `line`.
    Result { line: usize },
    /// The body of a called function is running. Where `result` is set
    /// the call gives it whatever the body returns: an initializer gives
    /// the instance.
    Call { result: Option<Value> },
    /// The value is the superclass of the class declared at `node`.
    Superclass { node: usize, scope: usize },
}

/// The texts of the three names that the language itself uses.
#[derive(Eq, PartialEq, Debug, Copy, Clone, Structural)]
pub struct Names {
    pub this: usize,
    pub superclass: usize,
    pub init: usize,
}

/// The state of the machine.
pub struct MachineView {
    pub nodes: Seq<Node>,
    pub texts: Seq<Seq<char>>,
    pub names: Names,
    pub heap: HeapView,
    pub stack: Seq<Frame>,
    pub values: Seq<Value>,
    pub control: Control,
}

/// The node at `place`; the empty list where there is none.
pub open spec fn node_at(nodes: Seq<Node>, place: usize) -> Node {
    if place < nodes.len() {
        nodes[place as int]
    } else {
        Node::Empty
    }
}

/// The first item of the list at `list` and the rest of the list, unless
/// the list is empty. The rest of a list is always an older node.
pub open spec fn uncons(nodes: Seq<Node>, list: usize) -> Option<(usize, usize)> {
    match node_at(nodes, list) {
        Node::Cons { head, tail } => if tail < list {
            Some((head, tail))
        } else {
            None
        },
        _ => None,
    }
}

/// The number of items of the list at `list`.
pub open spec fn length(nodes: Seq<Node>, list: usize) -> nat
    decreases list,
{
    match uncons(nodes, list) {
        Some((_, tail)) => 1 + length(nodes, tail),
        None => 0,
    }
}

/// The heap after the parameters at `list` were declared in `scope`, each
/// with the argument at its position, from position `from` on.
pub open spec fn with_parameters(
    heap: HeapView,
    nodes: Seq<Node>,
    list: usize,
    scope: usize,
    arguments: Seq<Value>,
    from: int,
) -> HeapView
    decreases list,
{
    match uncons(nodes, list) {
        Some((name, tail)) => {
            if 0 <= from < arguments.len() {
                with_parameters(
                    heap.define(scope, name, arguments[from]),
                    nodes,
                    tail,
                    scope,
                    arguments,
                    from + 1,
                )
            } else {
                heap
            }
        },
        None => heap,
    }
}

/// The heap after the methods at `list` were made for `class`. Each
/// closes over `closure`; the one named `init` is the initializer.
pub open spec fn with_methods(
    heap: HeapView,
    nodes: Seq<Node>,
    list: usize,
    class: usize,
    closure: usize,
    init: usize,
) -> HeapView
    decreases list,
{
    match uncons(nodes, list) {
        Some((method, tail)) => match node_at(nodes, method) {
            Node::Function { name, parameters: _, body: _ } => {
                let (h1, made) = heap.with_function(
                    Function { declaration: method, closure, initializer: name == init },
                );
                with_methods(
                    h1.with_method(class, name, Value::Function(made)),
                    nodes,
                    tail,
                    class,
                    closure,
                    init,
                )
            },
            _ => with_methods(heap, nodes, tail, class, closure, init),
        },
        None => heap,
    }
}

/// The parameters and the body of the function declared at `node`.
pub open spec fn signature(nodes: Seq<Node>, node: usize) -> Option<(usize, usize)> {
    match node_at(nodes, node) {
        Node::Function { name: _, parameters, body } => Some((parameters, body)),
        Node::Lambda { parameters, body } => Some((parameters, body)),
        _ => None,
    }
}

impl MachineView {
    /// The machine goes on with `control`.
    pub open spec fn go(self, control: Control) -> (MachineView, Action) {
        (MachineView { control, ..self }, Action::Continue)
    }

    /// The machine goes on with `control` and keeps `frame` for later.
    pub open spec fn push(self, frame: Frame, control: Control) -> (MachineView, Action) {
        (MachineView { stack: self.stack.push(frame), control, ..self }, Action::Continue)
    }

    /// The machine asks the outside for `request`.
    pub open spec fn ask(self, request: Request) -> (MachineView, Action) {
        (MachineView { control: Control::Ask { request }, ..self }, Action::Ask(request))
    }

    /// The program fails: everything in progress is given up.
    pub open spec fn fail(self, kind: RuntimeErrorKind, line: usize) -> (MachineView, Action) {
        (
            MachineView {
                stack: Seq::empty(),
                values: Seq::empty(),
                control: Control::Idle,
                ..self
            },
            Action::Failed(RuntimeError { kind, line }),
        )
    }

    /// The machine with `heap` as its heap.
    pub open spec fn with_heap(self, heap: HeapView) -> MachineView {
        MachineView { heap, ..self }
    }

    /// An expression gives the method `method`, bound to `this`.
    pub open spec fn give_bound(self, method: usize, this: Value) -> (MachineView, Action) {
        let (heap, bound) = self.heap.bind(method, self.names.this, this);
        self.with_heap(heap).go(Control::Give { value: Value::Function(bound) })
    }

    /// Evaluating `super.method` in `scope`: the method of the superclass
    /// of the class whose method is running, bound to the same instance.
    pub open spec fn evaluate_super(self, scope: usize, method: usize, line: usize) -> (
        MachineView,
        Action,
    ) {
        match (
            self.heap.lookup(scope, self.names.superclass),
            self.heap.lookup(scope, self.names.this),
        ) {
            (Some(Value::Class(parent)), Some(this)) => match self.heap.find_method(
                parent,
                method,
            ) {
                Some(Value::Function(found)) => self.give_bound(found, this),
                _ => self.fail(RuntimeErrorKind::UndefinedProperty(method), line),
            },
            _ => self.fail(RuntimeErrorKind::UndefinedVariable(self.names.superclass), line),
        }
    }

    /// Reading the variable `name` in `scope`.
    pub open spec fn evaluate_variable(self, scope: usize, name: usize, line: usize) -> (
        MachineView,
        Action,
    ) {
        match self.heap.lookup(scope, name) {
            Some(value) => self.go(Control::Give { value }),
            None => self.fail(RuntimeErrorKind::UndefinedVariable(name), line),
        }
    }

    /// The first step of evaluating the expression at `node` in `scope`.
    pub open spec fn evaluate(self, node: usize, scope: usize) -> (MachineView, Action) {
        match node_at(self.nodes, node) {
            Node::Nil => self.go(Control::Give { value: Value::Nil }),
            Node::Bool { value } => self.go(Control::Give { value: Value::Bool(value) }),
            Node::Number { text } => self.ask(Request::Literal { text }),
            Node::Str { text } => self.go(Control::Give { value: Value::Str(text) }),
            Node::Variable { name, line } => self.evaluate_variable(scope, name, line),
            Node::This { line } => self.evaluate_variable(scope, self.names.this, line),
            Node::Super { method, line } => self.evaluate_super(scope, method, line),
            Node::Grouping { inner } => self.go(Control::Evaluate { node: inner, scope }),
            Node::Assign { name, value, line } => self.push(
                Frame::Assign { name, scope, line },
                Control::Evaluate { node: value, scope },
            ),
            Node::Unary { op, operand, line } => self.push(
                Frame::Operand { op, line },
                Control::Evaluate { node: operand, scope },
            ),
            Node::Binary { op, left, right, line } => self.push(
                Frame::Left { op, right, scope, line },
                Control::Evaluate { node: left, scope },
            ),
            Node::Call { callee, arguments, line } => self.push(
                Frame::Callee { arguments, scope, line },
                Control::Evaluate { node: callee, scope },
            ),
            Node::GetProperty { object, name, line } => self.push(
                Frame::Get { name, line },
                Control::Evaluate { node: object, scope },
            ),
            Node::SetProperty { object, name, value, line } => self.push(
                Frame::Object { name, value, scope, line },
                Control::Evaluate { node: object, scope },
            ),
            Node::Lambda { parameters: _, body: _ } => {
                let (heap, made) = self.heap.with_function(
                    Function { declaration: node, closure: scope, initializer: false },
                );
                self.with_heap(heap).go(Control::Give { value: Value::Function(made) })
            },
            _ => self.fail(RuntimeErrorKind::Malformed, 0),
        }
    }

    /// Declaring the class at `node` in `scope`, with `superclass` as its
    /// superclass. The methods close over the scope of the declaration or,
    /// where there is a superclass, over a scope inside it that holds
    /// `super`: so `super` means the superclass of the class that declares
    /// the method, whatever instance the method runs on.
    pub open spec fn declare_class(self, node: usize, scope: usize, superclass: Option<usize>)
        -> (MachineView, Action) {
        match node_at(self.nodes, node) {
            Node::Class { name, superclass: _, methods, line: _ } => {
                let h1 = self.heap.define(scope, name, Value::Nil);
                let (h2, closure) = match superclass {
                    Some(parent) => {
                        let (inner, place) = h1.with_scope(scope);
                        (inner.define(place, self.names.superclass, Value::Class(parent)), place)
                    },
                    None => (h1, scope),
                };
                let (h3, class) = h2.with_class(Class { name, superclass, methods: None });
                let h4 = with_methods(h3, self.nodes, methods, class, closure, self.names.init);
                let h5 = h4.define(scope, name, Value::Class(class));
                self.with_heap(h5).go(Control::Next)
            },
            _ => self.fail(RuntimeErrorKind::Malformed, 0),
        }
    }

    /// The first step of executing the statement, or the list of
    /// statements, at `node` in `scope`.
    pub open spec fn execute(self, node: usize, scope: usize) -> (MachineView, Action) {
        match node_at(self.nodes, node) {
            Node::Empty => self.go(Control::Next),
            Node::Cons { head, tail } => self.push(
                Frame::Rest { list: tail, scope },
                Control::Execute { node: head, scope },
            ),
            Node::Expression { expression } => self.push(
                Frame::Discard,
                Control::Evaluate { node: expression, scope },
            ),
            Node::Print { expression } => self.push(
                Frame::Print,
                Control::Evaluate { node: expression, scope },
            ),
            Node::Var { name, initializer } => match initializer {
                Some(value) => self.push(
                    Frame::Declare { name, scope },
                    Control::Evaluate { node: value, scope },
                ),
                None => self.with_heap(self.heap.define(scope, name, Value::Nil)).go(
                    Control::Next,
                ),
            },
            Node::Block { body } => {
                let (heap, inner) = self.heap.with_scope(scope);
                self.with_heap(heap).go(Control::Execute { node: body, scope: inner })
            },
            Node::If { condition, then_branch, else_branch } => self.push(
                Frame::Branch { then_branch, else_branch, scope },
                Control::Evaluate { node: condition, scope },
            ),
            Node::While { condition, body } => self.push(
                Frame::Test { condition, body, scope },
                Control::Evaluate { node: condition, scope },
            ),
            Node::Function { name, parameters: _, body: _ } => {
                let (heap, made) = self.heap.with_function(
                    Function { declaration: node, closure: scope, initializer: false },
                );
                self.with_heap(heap.define(scope, name, Value::Function(made))).go(
                    Control::Next,
                )
            },
            Node::Return { value, line } => match value {
                Some(value) => self.push(
                    Frame::Result { line },
                    Control::Evaluate { node: value, scope },
                ),
                None => self.go(Control::Return { value: Value::Nil, line }),
            },
            Node::Class { name: _, superclass, methods: _, line: _ } => match superclass {
                Some(parent) => self.push(
                    Frame::Superclass { node, scope },
                    Control::Evaluate { node: parent, scope },
                ),
                None => self.declare_class(node, scope, None),
            },
            _ => self.fail(RuntimeErrorKind::Malformed, 0),
        }
    }
}

impl MachineView {
    /// Applying a unary operator to `value`. `!` gives whether the value is
    /// falsy; `-` is defined on numbers alone.
    pub open spec fn apply_unary(self, op: UnaryOp, value: Value, line: usize) -> (
        MachineView,
        Action,
    ) {
        match op {
            UnaryOp::Not => self.go(Control::Give { value: Value::Bool(!truthy(value)) }),
            UnaryOp::Negate => match value {
                Value::Number(operand) => self.ask(Request::Negate { operand }),
                _ => self.fail(RuntimeErrorKind::OperandMustBeNumber, line),
            },
        }
    }

    /// Joining two strings: the joined text is new in the table of texts.
    pub open spec fn join(self, left: usize, right: usize) -> (MachineView, Action) {
        MachineView {
            texts: self.texts.push(text_of(self.texts, left) + text_of(self.texts, right)),
            ..self
        }.go(Control::Give { value: Value::Str(self.texts.len() as usize) })
    }

    /// Applying a binary operator to two values. On two numbers the
    /// outside computes. Otherwise `==` and `!=` compare without
    /// converting anything, `+` joins two strings, and every other
    /// operator fails.
    pub open spec fn apply_binary(self, op: BinaryOp, left: Value, right: Value, line: usize) -> (
        MachineView,
        Action,
    ) {
        match (op, left, right) {
            (BinaryOp::And, _, _) => self.fail(RuntimeErrorKind::Malformed, line),
            (BinaryOp::Or, _, _) => self.fail(RuntimeErrorKind::Malformed, line),
            (_, Value::Number(a), Value::Number(b)) => self.ask(
                Request::Binary { op, left: a, right: b },
            ),
            (BinaryOp::Equal, _, _) => self.go(
                Control::Give { value: Value::Bool(same_value(self.texts, left, right)) },
            ),
            (BinaryOp::NotEqual, _, _) => self.go(
                Control::Give { value: Value::Bool(!same_value(self.texts, left, right)) },
            ),
            (BinaryOp::Add, Value::Str(a), Value::Str(b)) => self.join(a, b),
            (BinaryOp::Add, _, _) => self.fail(
                RuntimeErrorKind::OperandsMustBeNumbersOrStrings,
                line,
            ),
            _ => self.fail(RuntimeErrorKind::OperandsMustBeNumbers, line),
        }
    }

    /// The left operand of `op` has given `value`. `or` gives a truthy left
    /// operand and `and` a falsy one as it is, without evaluating the right
    /// operand; otherwise the right operand is evaluated.
    pub open spec fn after_left(
        self,
        op: BinaryOp,
        value: Value,
        right: usize,
        scope: usize,
        line: usize,
    ) -> (MachineView, Action) {
        match op {
            BinaryOp::Or => if truthy(value) {
                self.go(Control::Give { value })
            } else {
                self.go(Control::Evaluate { node: right, scope })
            },
            BinaryOp::And => if truthy(value) {
                self.go(Control::Evaluate { node: right, scope })
            } else {
                self.go(Control::Give { value })
            },
            _ => self.push(
                Frame::Right { op, left: value, line },
                Control::Evaluate { node: right, scope },
            ),
        }
    }

    /// Calling the function at `function` with `arguments`. The number of
    /// arguments must be the number of parameters. The body runs in a new
    /// scope inside the scope that the function was made in, not inside
    /// the caller's, with each parameter set to the argument at its
    /// position.
    pub open spec fn call_function(self, function: usize, arguments: Seq<Value>, line: usize)
        -> (MachineView, Action) {
        if function >= self.heap.functions.len() {
            self.fail(RuntimeErrorKind::Malformed, line)
        } else {
            let called = self.heap.functions[function as int];
            match signature(self.nodes, called.declaration) {
                None => self.fail(RuntimeErrorKind::Malformed, line),
                Some((parameters, body)) => {
                    let expected = length(self.nodes, parameters);
                    if expected != arguments.len() {
                        self.fail(
                            RuntimeErrorKind::WrongArity {
                                expected: expected as usize,
                                actual: arguments.len() as usize,
                            },
                            line,
                        )
                    } else {
                        let result = if called.initializer {
                            self.heap.lookup(called.closure, self.names.this)
                        } else {
                            None
                        };
                        let (h1, scope) = self.heap.with_scope(called.closure);
                        let h2 = with_parameters(h1, self.nodes, parameters, scope, arguments, 0);
                        self.with_heap(h2).push(
                            Frame::Call { result },
                            Control::Execute { node: body, scope },
                        )
                    }
                },
            }
        }
    }

    /// Calling the class at `class` with `arguments`: a new instance is
    /// made; the initializer of the class or of its nearest ancestor that
    /// has one runs on it with the arguments; the call gives the instance.
    /// Without an initializer there must be no arguments.
    pub open spec fn instantiate(self, class: usize, arguments: Seq<Value>, line: usize) -> (
        MachineView,
        Action,
    ) {
        let (h1, instance) = self.heap.with_instance(class);
        match h1.find_method(class, self.names.init) {
            Some(Value::Function(init)) => {
                let (h2, bound) = h1.bind(init, self.names.this, Value::Instance(instance));
                self.with_heap(h2).call_function(bound, arguments, line)
            },
            _ => if arguments.len() != 0 {
                self.with_heap(h1).fail(
                    RuntimeErrorKind::WrongArity {
                        expected: 0,
                        actual: arguments.len() as usize,
                    },
                    line,
                )
            } else {
                self.with_heap(h1).go(Control::Give { value: Value::Instance(instance) })
            },
        }
    }

    /// Calling what was evaluated: the last `count` of the waiting values
    /// are the arguments, the one before them is what is called.
    pub open spec fn invoke(self, count: usize, line: usize) -> (MachineView, Action) {
        if self.values.len() <= count {
            self.fail(RuntimeErrorKind::Malformed, line)
        } else {
            let base = self.values.len() - count - 1;
            let arguments = self.values.subrange(base + 1, self.values.len() as int);
            let rest = MachineView { values: self.values.take(base), ..self };
            match self.values[base] {
                Value::Function(function) => rest.call_function(function, arguments, line),
                Value::Class(class) => rest.instantiate(class, arguments, line),
                _ => self.fail(RuntimeErrorKind::NotCallable, line),
            }
        }
    }

    /// `value` waits for its call, after `count` arguments; the arguments
    /// at `list` are still to be evaluated, from left to right.
    pub open spec fn collect(self, value: Value, list: usize, scope: usize, line: usize, count:
        usize) -> (MachineView, Action) {
        let kept = MachineView { values: self.values.push(value), ..self };
        match node_at(self.nodes, list) {
            Node::Cons { head, tail } => if count < usize::MAX {
                kept.push(
                    Frame::Argument { rest: tail, scope, line, count: (count + 1) as usize },
                    Control::Evaluate { node: head, scope },
                )
            } else {
                self.fail(RuntimeErrorKind::Malformed, line)
            },
            _ => kept.invoke(count, line),
        }
    }

    /// Reading the property `name` of `object`: a field of the instance
    /// where it has one of that name, else the method of that name of its
    /// class or of the nearest ancestor that has one, bound to the
    /// instance.
    pub open spec fn get_property(self, object: Value, name: usize, line: usize) -> (
        MachineView,
        Action,
    ) {
        match object {
            Value::Instance(instance) => {
                if instance >= self.heap.instances.len() {
                    self.fail(RuntimeErrorKind::Malformed, line)
                } else {
                    match self.heap.field(instance, name) {
                        Some(value) => self.go(Control::Give { value }),
                        None => match self.heap.find_method(
                            self.heap.instances[instance as int].class,
                            name,
                        ) {
                            Some(Value::Function(method)) => self.give_bound(method, object),
                            _ => self.fail(RuntimeErrorKind::UndefinedProperty(name), line),
                        },
                    }
                }
            },
            _ => self.fail(RuntimeErrorKind::NotAnInstance, line),
        }
    }

    /// Assigning `value` to the property `name` of `object`.
    pub open spec fn set_property(self, object: Value, name: usize, value: Value, line: usize)
        -> (MachineView, Action) {
        match object {
            Value::Instance(instance) => self.with_heap(
                self.heap.with_field(instance, name, value),
            ).go(Control::Give { value }),
            _ => self.fail(RuntimeErrorKind::NotAnInstance, line),
        }
    }

    /// What `frame` does with the value that an expression gave.
    pub open spec fn resume(self, frame: Frame, value: Value) -> (MachineView, Action) {
        match frame {
            Frame::Operand { op, line } => self.apply_unary(op, value, line),
            Frame::Left { op, right, scope, line } => self.after_left(
                op,
                value,
                right,
                scope,
                line,
            ),
            Frame::Right { op, left, line } => self.apply_binary(op, left, value, line),
            Frame::Assign { name, scope, line } => match self.heap.assign(scope, name, value) {
                Some(heap) => self.with_heap(heap).go(Control::Give { value }),
                None => self.fail(RuntimeErrorKind::UndefinedVariable(name), line),
            },
            Frame::Callee { arguments, scope, line } => self.collect(
                value,
                arguments,
                scope,
                line,
                0,
            ),
            Frame::Argument { rest, scope, line, count } => self.collect(
                value,
                rest,
                scope,
                line,
                count,
            ),
            Frame::Get { name, line } => self.get_property(value, name, line),
            Frame::Object { name, value: assigned, scope, line } => match value {
                Value::Instance(_) => self.push(
                    Frame::Field { object: value, name, line },
                    Control::Evaluate { node: assigned, scope },
                ),
                _ => self.fail(RuntimeErrorKind::NotAnInstance, line),
            },
            Frame::Field { object, name, line } => self.set_property(object, name, value, line),
            Frame::Discard => self.go(Control::Next),
            Frame::Print => (MachineView { control: Control::Next, ..self }, Action::Print(value)),
            Frame::Declare { name, scope } => self.with_heap(
                self.heap.define(scope, name, value),
            ).go(Control::Next),
            Frame::Branch { then_branch, else_branch, scope } => if truthy(value) {
                self.go(Control::Execute { node: then_branch, scope })
            } else {
                match else_branch {
                    Some(otherwise) => self.go(Control::Execute { node: otherwise, scope }),
                    None => self.go(Control::Next),
                }
            },
            Frame::Test { condition, body, scope } => if truthy(value) {
                self.push(
                    Frame::Repeat { condition, body, scope },
                    Control::Execute { node: body, scope },
                )
            } else {
                self.go(Control::Next)
            },
            Frame::Result { line } => self.go(Control::Return { value, line }),
            Frame::Superclass { node, scope } => match value {
                Value::Class(parent) => self.declare_class(node, scope, Some(parent)),
                _ => self.fail(RuntimeErrorKind::SuperclassNotAClass, self.line_of(node)),
            },
            _ => self.fail(RuntimeErrorKind::Malformed, 0),
        }
    }

    /// The line of the class declaration at `node`.
    pub open spec fn line_of(self, node: usize) -> usize {
        match node_at(self.nodes, node) {
            Node::Class { name: _, superclass: _, methods: _, line } => line,
            _ => 0,
        }
    }

    /// An expression has given `value`: the newest frame takes it. With no
    /// frame left the machine is done.
    pub open spec fn give(self, value: Value) -> (MachineView, Action) {
        if self.stack.len() == 0 {
            (MachineView { control: Control::Idle, ..self }, Action::Finished)
        } else {
            MachineView { stack: self.stack.drop_last(), ..self }.resume(
                self.stack.last(),
                value,
            )
        }
    }

    /// A statement has run to its end: the newest frame says what comes
    /// next. A function whose body ends without `return` gives `nil`.
    pub open spec fn next(self) -> (MachineView, Action) {
        if self.stack.len() == 0 {
            (MachineView { control: Control::Idle, ..self }, Action::Finished)
        } else {
            let rest = MachineView { stack: self.stack.drop_last(), ..self };
            match self.stack.last() {
                Frame::Rest { list, scope } => rest.go(Control::Execute { node: list, scope }),
                Frame::Repeat { condition, body, scope } => rest.push(
                    Frame::Test { condition, body, scope },
                    Control::Evaluate { node: condition, scope },
                ),
                Frame::Call { result } => rest.go(
                    Control::Give {
                        value: match result {
                            Some(fixed) => fixed,
                            None => Value::Nil,
                        },
                    },
                ),
                _ => self.fail(RuntimeErrorKind::Malformed, 0),
            }
        }
    }

    /// A `return` with `value` is on its way: it passes every frame up to
    /// the newest call, which gives the value. It is no failure, and no
    /// failure is ever taken for it.
    pub open spec fn unwind(self, value: Value, line: usize) -> (MachineView, Action) {
        if self.stack.len() == 0 {
            self.fail(RuntimeErrorKind::ReturnOutsideFunction, line)
        } else {
            let rest = MachineView { stack: self.stack.drop_last(), ..self };
            match self.stack.last() {
                Frame::Call { result } => rest.go(
                    Control::Give {
                        value: match result {
                            Some(fixed) => fixed,
                            None => value,
                        },
                    },
                ),
                _ => rest.go(Control::Return { value, line }),
            }
        }
    }

    /// One step of the machine. `answer` is what the outside computed, if
    /// the step before asked for something.
    pub open spec fn step(self, answer: Option<Value>) -> (MachineView, Action) {
        match self.control {
            Control::Idle => (self, Action::Finished),
            Control::Evaluate { node, scope } => self.evaluate(node, scope),
            Control::Execute { node, scope } => self.execute(node, scope),
            Control::Give { value } => self.give(value),
            Control::Next => self.next(),
            Control::Return { value, line } => self.unwind(value, line),
            Control::Ask { request } => match answer {
                Some(value) => self.go(Control::Give { value }),
                None => (self, Action::Ask(request)),
            },
        }
    }

    /// The machine set to run the statements at `program` in the global
    /// scope.
    pub open spec fn start(self, program: usize) -> MachineView {
        MachineView {
            stack: Seq::empty(),
            values: Seq::empty(),
            control: Control::Execute { node: program, scope: 0 },
            ..self
        }
    }
}

/// The heap that holds the global scope, at place 0, and nothing else.
pub open spec fn empty_heap() -> HeapView {
    HeapView {
        environments: seq![Environment { first: None, enclosing: None }],
        bindings: Seq::empty(),
        functions: Seq::empty(),
        classes: Seq::empty(),
        instances: Seq::empty(),
    }
}

/// The machine before it has seen any program: idle, with an empty global
/// scope, and with the three names of the language in its table of texts.
pub open spec fn initial() -> MachineView {
    MachineView {
        nodes: Seq::empty(),
        texts: seq!["this"@, "super"@, "init"@],
        names: Names { this: 0, superclass: 1, init: 2 },
        heap: empty_heap(),
        stack: Seq::empty(),
        values: Seq::empty(),
        control: Control::Idle,
    }
}

impl MachineView {
    /// The machine after `tokens` were parsed into its tables. Where the
    /// tokens violate the grammar nothing is set to run; otherwise the
    /// machine is set to run the program.
    pub open spec fn load(self, tokens: Seq<TokenView>) -> (MachineView, Seq<SyntaxError>) {
        let (end, program) = syntax::program(
            tokens,
            ParserView { pos: 0, nodes: self.nodes, texts: self.texts, errors: Seq::empty() },
        );
        let loaded = MachineView { nodes: end.nodes, texts: end.texts, ..self };
        if end.errors.len() == 0 {
            (loaded.start(program), end.errors)
        } else {
            (loaded, end.errors)
        }
    }

    /// The name of the function at `function`, if it has one.
    pub open spec fn function_name(self, function: usize) -> Option<usize> {
        if function < self.heap.functions.len() {
            match node_at(self.nodes, self.heap.functions[function as int].declaration) {
                Node::Function { name, parameters: _, body: _ } => Some(name),
                _ => None,
            }
        } else {
            None
        }
    }

    /// The name of the class at `class`, if there is such a class.
    pub open spec fn class_name(self, class: usize) -> Option<usize> {
        if class < self.heap.classes.len() {
            Some(self.heap.classes[class as int].name)
        } else {
            None
        }
    }

    /// The text of the name at `name`, or `?` where there is no name.
    pub open spec fn name_text(self, name: Option<usize>) -> Seq<char> {
        match name {
            Some(place) => text_of(self.texts, place),
            None => "?"@,
        }
    }

    /// How a value that is not a number is written: `nil`, `true` or
    /// `false`, the text of a string as it is, a function as `<fn NAME>`,
    /// a class as `<class NAME>`, an instance as `<NAME instance>`. How a
    /// number is written is for the arithmetic to say.
    pub open spec fn description(self, value: Value) -> Option<Seq<char>> {
        match value {
            Value::Nil => Some("nil"@),
            Value::Bool(b) => Some(if b { "true"@ } else { "false"@ }),
            Value::Number(_) => None,
            Value::Str(text) => Some(text_of(self.texts, text)),
            Value::Function(function) => Some(
                "<fn "@ + self.name_text(self.function_name(function)) + ">"@,
            ),
            Value::Class(class) => Some("<class "@ + self.name_text(self.class_name(class)) + ">"@),
            Value::Instance(instance) => Some(
                "<"@ + self.name_text(
                    if instance < self.heap.instances.len() {
                        self.class_name(self.heap.instances[instance as int].class)
                    } else {
                        None
                    },
                ) + " instance>"@,
            ),
        }
    }

    /// What a fault at run time is called in a diagnostic.
    pub open spec fn runtime_message(self, kind: RuntimeErrorKind) -> Seq<char> {
        match kind {
            RuntimeErrorKind::UndefinedVariable(name) => "Undefined variable '"@ + text_of(
                self.texts,
                name,
            ) + "'."@,
            RuntimeErrorKind::UndefinedProperty(name) => "Undefined property '"@ + text_of(
                self.texts,
                name,
            ) + "'."@,
            RuntimeErrorKind::OperandMustBeNumber => "Operand must be a number."@,
            RuntimeErrorKind::OperandsMustBeNumbers => "Operands must be numbers."@,
            RuntimeErrorKind::OperandsMustBeNumbersOrStrings =>
                "Operands must be two numbers or two strings."@,
            RuntimeErrorKind::NotCallable => "Can only call functions and classes."@,
            RuntimeErrorKind::WrongArity { expected, actual } => "Expected "@ + decimal(
                expected as nat,
            ) + " arguments but got "@ + decimal(actual as nat) + "."@,
            RuntimeErrorKind::NotAnInstance => "Only instances have properties."@,
            RuntimeErrorKind::SuperclassNotAClass => "Superclass must be a class."@,
            RuntimeErrorKind::ReturnOutsideFunction => "Can't return from top-level code."@,
            RuntimeErrorKind::Malformed => "Malformed program."@,
        }
    }

    /// The diagnostic for a fault at run time: what it is called, and on a
    /// line of its own the line it came from, as `[line <n>]`.
    pub open spec fn runtime_diagnostic(self, error: RuntimeError) -> Seq<char> {
        self.runtime_message(error.kind) + "\n[line "@ + decimal(error.line as nat) + "]"@
    }
}

} // verus!
