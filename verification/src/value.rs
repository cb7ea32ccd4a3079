//! Runtime values and the records they point to.
//!
//! Everything that outlives an expression lives in a table and is named by
//! its place there: texts, scopes, variables, functions, classes and
//! instances. A value is small and copied freely; two values that name the
//! same place share what stands there.

use vstd::prelude::*;

verus! {

/// A runtime value.
#[derive(Eq, PartialEq, Debug, Copy, Clone, Structural)]
pub enum Value {
    Nil,
    Bool(bool),
    /// A number, in the encoding of whoever does the arithmetic. The
    /// library carries numbers around and never looks inside.
    Number(u64),
    /// A string, by the place of its text.
    Str(usize),
    /// A function, lambda or bound method, by its place.
    Function(usize),
    /// A class, by its place.
    Class(usize),
    /// An instance, by its place.
    Instance(usize),
}

/// One variable, field or method: a name, its value, and the next entry of
/// the chain it belongs to. The next entry is always an older one.
#[derive(Eq, PartialEq, Debug, Copy, Clone, Structural)]
pub struct Binding {
    pub name: usize,
    pub value: Value,
    pub next: Option<usize>,
}

/// A scope: the chain of its variables and the scope around it. The scope
/// around it is always an older one.
#[derive(Eq, PartialEq, Debug, Copy, Clone, Structural)]
pub struct Environment {
    pub first: Option<usize>,
    pub enclosing: Option<usize>,
}

/// A function value: the node that declares it, the scope it was made in,
/// and whether it is the initializer of a class.
#[derive(Eq, PartialEq, Debug, Copy, Clone, Structural)]
pub struct Function {
    pub declaration: usize,
    pub closure: usize,
    pub initializer: bool,
}

/// A class: its name, its superclass and the chain of its methods. The
/// superclass is always an older class.
#[derive(Eq, PartialEq, Debug, Copy, Clone, Structural)]
pub struct Class {
    pub name: usize,
    pub superclass: Option<usize>,
    pub methods: Option<usize>,
}

/// An instance: its class and the chain of its fields.
#[derive(Eq, PartialEq, Debug, Copy, Clone, Structural)]
pub struct Instance {
    pub class: usize,
    pub fields: Option<usize>,
}

/// Only `nil` and `false` are falsy.
pub open spec fn truthy(value: Value) -> bool {
    match value {
        Value::Nil => false,
        Value::Bool(b) => b,
        _ => true,
    }
}

/// Whether `value` counts as true in a condition.
pub fn is_truthy(value: Value) -> (b: bool)
    ensures
        b == truthy(value),
{
    match value {
        Value::Nil => false,
        Value::Bool(b) => b,
        _ => true,
    }
}

/// The text at `place`, or the empty text where there is none.
pub open spec fn text_of(texts: Seq<Seq<char>>, place: usize) -> Seq<char> {
    if place < texts.len() {
        texts[place as int]
    } else {
        Seq::empty()
    }
}

/// Whether two values that are not both numbers are equal: `nil` equals
/// only `nil`, booleans and strings are compared by what they hold,
/// functions, classes and instances by which one they are, and values of
/// different kinds are never equal. Whether two numbers are equal is for
/// the arithmetic to say.
pub open spec fn same_value(texts: Seq<Seq<char>>, a: Value, b: Value) -> bool {
    match (a, b) {
        (Value::Nil, Value::Nil) => true,
        (Value::Bool(x), Value::Bool(y)) => x == y,
        (Value::Str(x), Value::Str(y)) => text_of(texts, x) == text_of(texts, y),
        (Value::Function(x), Value::Function(y)) => x == y,
        (Value::Class(x), Value::Class(y)) => x == y,
        (Value::Instance(x), Value::Instance(y)) => x == y,
        _ => false,
    }
}

/// The entry that `link` leads to, if it is older than the entry at
/// `from`. Every link made by this library leads to an older entry, so
/// following links always comes to an end.
pub open spec fn older(link: Option<usize>, from: usize) -> Option<usize> {
    match link {
        Some(to) => if to < from {
            Some(to)
        } else {
            None
        },
        None => None,
    }
}

/// How many entries a chain that starts at `link` can have at most.
pub open spec fn span(link: Option<usize>) -> nat {
    match link {
        Some(to) => (to + 1) as nat,
        None => 0,
    }
}

/// The entry that `link` leads to, if it is older than the entry at `from`.
pub fn older_link(link: Option<usize>, from: usize) -> (to: Option<usize>)
    ensures
        to == older(link, from),
{
    match link {
        Some(to) => if to < from {
            Some(to)
        } else {
            None
        },
        None => None,
    }
}

} // verus!
