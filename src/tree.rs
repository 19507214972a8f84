use vstd::prelude::*;
use vstd::string::*;

verus! {

/// The parser expression built for one field, in the vocabulary of the
/// combinator runtime that the generated code calls into.
pub enum ParserTree {
    /// `cond!(predicate, inner)`: parse `inner` only when the predicate holds.
    Cond(Box<ParserTree>, String),
    /// `verify!(inner, |binding| { predicate })`: parse, bind, then check.
    Verify(Box<ParserTree>, String, String),
    /// `complete!(inner)`: running out of input is a hard failure.
    Complete(Box<ParserTree>),
    /// `opt!(inner)`: parse if possible, else `None`.
    Opt(Box<ParserTree>),
    /// `many0!(inner)`: parse zero or more times.
    Many0(Box<ParserTree>),
    /// `call!(Name::parse)`: the parser generated for another record.
    CallParse(String),
    /// A fixed-width integer reader of the runtime, by name.
    Primitive(String),
    /// Expression text given verbatim by the schema's author.
    Raw(String),
}

/// The mathematical value of a [`ParserTree`]: the same shape, with text as
/// sequences of characters.
pub enum TreeModel {
    Cond(Box<TreeModel>, Seq<char>),
    Verify(Box<TreeModel>, Seq<char>, Seq<char>),
    Complete(Box<TreeModel>),
    Opt(Box<TreeModel>),
    Many0(Box<TreeModel>),
    CallParse(Seq<char>),
    Primitive(Seq<char>),
    Raw(Seq<char>),
}

pub open spec fn tree_model(t: ParserTree) -> TreeModel
    decreases t,
{
    match t {
        ParserTree::Cond(p, c) => TreeModel::Cond(Box::new(tree_model(*p)), c@),
        ParserTree::Verify(p, i, c) => TreeModel::Verify(Box::new(tree_model(*p)), i@, c@),
        ParserTree::Complete(p) => TreeModel::Complete(Box::new(tree_model(*p))),
        ParserTree::Opt(p) => TreeModel::Opt(Box::new(tree_model(*p))),
        ParserTree::Many0(p) => TreeModel::Many0(Box::new(tree_model(*p))),
        ParserTree::CallParse(s) => TreeModel::CallParse(s@),
        ParserTree::Primitive(s) => TreeModel::Primitive(s@),
        ParserTree::Raw(s) => TreeModel::Raw(s@),
    }
}

impl View for ParserTree {
    type V = TreeModel;

    open spec fn view(&self) -> TreeModel {
        tree_model(*self)
    }
}

/// The canonical text of a tree, as the combinator runtime reads it.
pub open spec fn render_model(t: TreeModel) -> Seq<char>
    decreases t,
{
    match t {
        TreeModel::Cond(p, c) => "cond!("@ + c + ", "@ + render_model(*p) + ")"@,
        TreeModel::Verify(p, i, c) => "verify!("@ + render_model(*p) + ", |"@ + i + "| { "@ + c
            + " })"@,
        TreeModel::Complete(p) => "complete!("@ + render_model(*p) + ")"@,
        TreeModel::Opt(p) => "opt!("@ + render_model(*p) + ")"@,
        TreeModel::Many0(p) => "many0!("@ + render_model(*p) + ")"@,
        TreeModel::CallParse(s) => "call!("@ + s + "::parse)"@,
        TreeModel::Primitive(s) => s,
        TreeModel::Raw(s) => s,
    }
}

/// Wraps `inner` in `open`, then `close`.
fn wrap(open: &str, inner: String, close: &str) -> (r: String)
    ensures
        r@ == open@ + inner@ + close@,
{
    let mut s = String::from_str(open);
    s.append(inner.as_str());
    s.append(close);
    s
}

impl ParserTree {
    /// Renders the tree as the combinator runtime's expression text.
    pub fn render(&self) -> (r: String)
        ensures
            r@ == render_model(self@),
        decreases self,
    {
        match self {
            ParserTree::Cond(p, c) => {
                let mut s = String::from_str("cond!(");
                s.append(c.as_str());
                s.append(", ");
                let inner = p.render();
                s.append(inner.as_str());
                s.append(")");
                s
            },
            ParserTree::Verify(p, i, c) => {
                let mut s = String::from_str("verify!(");
                let inner = p.render();
                s.append(inner.as_str());
                s.append(", |");
                s.append(i.as_str());
                s.append("| { ");
                s.append(c.as_str());
                s.append(" })");
                s
            },
            ParserTree::Complete(p) => wrap("complete!(", p.render(), ")"),
            ParserTree::Opt(p) => wrap("opt!(", p.render(), ")"),
            ParserTree::Many0(p) => wrap("many0!(", p.render(), ")"),
            ParserTree::CallParse(s) => wrap("call!(", s.clone(), "::parse)"),
            ParserTree::Primitive(s) => s.clone(),
            ParserTree::Raw(s) => s.clone(),
        }
    }
}

} // verus!
