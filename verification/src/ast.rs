//! The syntax tree, kept in one table.
//!
//! Every node of a program lives in a table of nodes and names its parts by
//! their places in that table. A part is always made before the node that
//! holds it, so its place is the smaller one. Names, string contents and
//! the digits of numbers live in a table of texts, each text once.

use vstd::prelude::*;
use vstd::string::*;

verus! {

/// The unary operators.
#[derive(Eq, PartialEq, Debug, Copy, Clone, Structural)]
pub enum UnaryOp {
    Not,
    Negate,
}

/// The binary operators, `and` and `or` among them.
#[derive(Eq, PartialEq, Debug, Copy, Clone, Structural)]
pub enum BinaryOp {
    Or,
    And,
    Equal,
    NotEqual,
    Less,
    LessEqual,
    Greater,
    GreaterEqual,
    Add,
    Subtract,
    Multiply,
    Divide,
}

/// One node of the syntax tree: a list cell, an expression or a statement.
///
/// A field named `line` is the source line that a fault in the node is
/// reported at. A field that holds a list names the first cell of the list.
#[derive(Eq, PartialEq, Debug, Copy, Clone, Structural)]
pub enum Node {
    /// The empty list.
    Empty,
    /// A list of `head` followed by the list at `tail`. In a list of
    /// parameters `head` is a text, elsewhere a node.
    Cons { head: usize, tail: usize },
    // Expressions.
    Nil,
    Bool { value: bool },
    /// A number, by the text of its digits.
    Number { text: usize },
    /// A string, by the text of its content.
    Str { text: usize },
    Variable { name: usize, line: usize },
    Assign { name: usize, value: usize, line: usize },
    Unary { op: UnaryOp, operand: usize, line: usize },
    /// `and` and `or` evaluate `right` only where `left` does not decide.
    Binary { op: BinaryOp, left: usize, right: usize, line: usize },
    Call { callee: usize, arguments: usize, line: usize },
    GetProperty { object: usize, name: usize, line: usize },
    SetProperty { object: usize, name: usize, value: usize, line: usize },
    This { line: usize },
    Super { method: usize, line: usize },
    /// An anonymous function.
    Lambda { parameters: usize, body: usize },
    Grouping { inner: usize },
    // Statements.
    Expression { expression: usize },
    Print { expression: usize },
    /// A variable declaration; without an initializer the variable is nil.
    Var { name: usize, initializer: Option<usize> },
    Block { body: usize },
    If { condition: usize, then_branch: usize, else_branch: Option<usize> },
    While { condition: usize, body: usize },
    Function { name: usize, parameters: usize, body: usize },
    Return { value: Option<usize>, line: usize },
    /// A class; `superclass` is a `Variable` node, `methods` a list of
    /// `Function` nodes.
    Class { name: usize, superclass: Option<usize>, methods: usize, line: usize },
}

/// The place of `text` in `texts`: that of its first occurrence, or the
/// length of `texts` where it does not occur.
pub open spec fn place_of(texts: Seq<Seq<char>>, text: Seq<char>) -> int
    decreases texts.len(),
{
    if texts.len() == 0 {
        0
    } else if texts.first() == text {
        0
    } else {
        1 + place_of(texts.drop_first(), text)
    }
}

/// `texts` with `text` in it: unchanged where it occurs already, with
/// `text` at the end where it does not.
pub open spec fn with_text(texts: Seq<Seq<char>>, text: Seq<char>) -> Seq<Seq<char>> {
    if place_of(texts, text) < texts.len() {
        texts
    } else {
        texts.push(text)
    }
}

/// The place of `text` is within the table or just behind it; within the
/// table the text stands there, and nowhere before.
pub proof fn lemma_place_of(texts: Seq<Seq<char>>, text: Seq<char>)
    ensures
        0 <= place_of(texts, text) <= texts.len(),
        place_of(texts, text) < texts.len() ==> texts[place_of(texts, text)] == text,
        forall|i: int| 0 <= i < place_of(texts, text) ==> texts[i] != text,
    decreases texts.len(),
{
    if texts.len() > 0 && texts.first() != text {
        let rest = texts.drop_first();
        lemma_place_of(rest, text);
        assert forall|i: int| 0 <= i < place_of(texts, text) implies texts[i] != text by {
            if i > 0 {
                assert(texts[i] == rest[i - 1]);
            }
        }
    }
}

/// The place of `text` is the first place it stands at.
pub proof fn lemma_place_is_first(texts: Seq<Seq<char>>, text: Seq<char>, at: int)
    requires
        0 <= at <= texts.len(),
        forall|i: int| 0 <= i < at ==> texts[i] != text,
        at < texts.len() ==> texts[at] == text,
    ensures
        place_of(texts, text) == at,
{
    lemma_place_of(texts, text);
}

/// The views of a sequence of strings.
pub open spec fn text_views(texts: Seq<String>) -> Seq<Seq<char>> {
    texts.map_values(|s: String| s@)
}

/// The two tables that hold a program.
pub struct Code {
    pub nodes: Vec<Node>,
    pub texts: Vec<String>,
}

impl Code {
    /// Tables that hold nothing.
    pub fn new() -> (code: Code)
        ensures
            code.nodes@ == Seq::<Node>::empty(),
            text_views(code.texts@) == Seq::<Seq<char>>::empty(),
    {
        let code = Code { nodes: Vec::new(), texts: Vec::new() };
        assert(text_views(code.texts@) =~= Seq::<Seq<char>>::empty());
        code
    }

    /// Puts `node` at the end of the table of nodes and returns its place.
    pub fn add(&mut self, node: Node) -> (place: usize)
        ensures
            place == old(self).nodes@.len(),
            final(self).nodes@ == old(self).nodes@.push(node),
            final(self).texts == old(self).texts,
    {
        let place = self.nodes.len();
        self.nodes.push(node);
        place
    }

    /// Returns the place of `text` in the table of texts, after putting it
    /// at the end if it was not there.
    pub fn intern(&mut self, text: &str) -> (place: usize)
        ensures
            place == place_of(text_views(old(self).texts@), text@),
            text_views(final(self).texts@) == with_text(text_views(old(self).texts@), text@),
            final(self).nodes == old(self).nodes,
    {
        let n = self.texts.len();
        let mut i: usize = 0;
        while i < n
            invariant
                0 <= i <= n,
                n == self.texts@.len(),
                self.texts == old(self).texts,
                self.nodes == old(self).nodes,
                forall|j: int| 0 <= j < i ==> text_views(self.texts@)[j] != text@,
            decreases n - i,
        {
            if spells_same(self.texts[i].as_str(), text) {
                proof {
                    lemma_place_is_first(text_views(self.texts@), text@, i as int);
                }
                return i;
            }
            i += 1;
        }
        proof {
            lemma_place_is_first(text_views(self.texts@), text@, n as int);
        }
        self.texts.push(text.to_owned());
        assert(text_views(self.texts@) =~= text_views(old(self).texts@).push(text@));
        n
    }
}

/// Whether two texts are the same.
pub fn spells_same(a: &str, b: &str) -> (same: bool)
    ensures
        same == (a@ == b@),
{
    let n = a.unicode_len();
    if n != b.unicode_len() {
        return false;
    }
    let mut i: usize = 0;
    while i < n
        invariant
            n == a@.len(),
            n == b@.len(),
            0 <= i <= n,
            forall|j: int| 0 <= j < i ==> a@[j] == b@[j],
        decreases n - i,
    {
        if a.get_char(i) != b.get_char(i) {
            return false;
        }
        i += 1;
    }
    assert(a@ =~= b@);
    true
}

} // verus!
