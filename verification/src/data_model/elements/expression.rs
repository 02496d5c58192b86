//! Expressions: `{…}` units pairing an operand (or none) with an optional
//! annotation and a list of attributes.
//!
//! Attributes are accepted structurally on every expression form but are
//! not yet emitted by rendering: they stay inert until the format
//! standardizes their syntax.

use vstd::prelude::*;

use crate::data_model::elements::annotation::{Annotation, FunctionAnnotation, UnsupportedAnnotation};
use crate::data_model::elements::attribute::Attribute;
use crate::data_model::elements::primitives::{Literal, VariableRef};

verus! {

/// An expression wrapping a literal operand.
pub struct LiteralExpression {
    pub arg: Literal,
    pub annotation: Option<Annotation>,
    /// Reserved for future standardization; not emitted by rendering.
    pub attributes: Vec<Attribute>,
}

impl LiteralExpression {
    /// Canonical text of a literal expression: the operand inside `{ }`,
    /// with the annotation after a space when one is present.
    pub open spec fn render(&self) -> Seq<char> {
        match self.annotation {
            Some(a) => "{"@ + self.arg.value@ + " "@ + a.render() + "}"@,
            None => "{"@ + self.arg.value@ + "}"@,
        }
    }

    pub fn to_string(&self) -> (r: String)
        ensures
            r@ == self.render(),
    {
        let mut r = String::from_str("{");
        r.append(self.arg.value.as_str());
        match &self.annotation {
            Some(a) => {
                r.append(" ");
                let s = a.to_string();
                r.append(s.as_str());
            },
            None => {},
        }
        r.append("}");
        r
    }
}

/// An expression wrapping a variable-reference operand.
pub struct VariableExpression {
    pub arg: VariableRef,
    pub annotation: Option<Annotation>,
    /// Reserved for future standardization; not emitted by rendering.
    pub attributes: Vec<Attribute>,
}

impl VariableExpression {
    /// Canonical text of a variable expression: the `$`-prefixed operand
    /// inside `{ }`, with the annotation after a space when one is present.
    pub open spec fn render(&self) -> Seq<char> {
        match self.annotation {
            Some(a) => "{"@ + self.arg.render() + " "@ + a.render() + "}"@,
            None => "{"@ + self.arg.render() + "}"@,
        }
    }

    pub fn to_string(&self) -> (r: String)
        ensures
            r@ == self.render(),
    {
        let mut r = String::from_str("{");
        let arg = self.arg.to_string();
        r.append(arg.as_str());
        match &self.annotation {
            Some(a) => {
                r.append(" ");
                let s = a.to_string();
                r.append(s.as_str());
            },
            None => {},
        }
        r.append("}");
        r
    }
}

/// An operand-less expression carrying only a function annotation.
pub struct FunctionExpression {
    pub annotation: FunctionAnnotation,
    /// Reserved for future standardization; not emitted by rendering.
    pub attributes: Vec<Attribute>,
}

impl FunctionExpression {
    /// Canonical text of a function expression: the annotation inside `{ }`.
    pub open spec fn render(&self) -> Seq<char> {
        "{"@ + self.annotation.render() + "}"@
    }

    pub fn to_string(&self) -> (r: String)
        ensures
            r@ == self.render(),
    {
        let mut r = String::from_str("{");
        let s = self.annotation.to_string();
        r.append(s.as_str());
        r.append("}");
        r
    }
}

/// An opaque expression in reserved or private-use syntax.
pub struct UnsupportedExpression {
    pub annotation: UnsupportedAnnotation,
    /// Reserved for future standardization; not emitted by rendering.
    pub attributes: Vec<Attribute>,
}

impl UnsupportedExpression {
    /// Canonical text of an unsupported expression: the annotation alone;
    /// its opaque source already contains its own delimiters.
    pub open spec fn render(&self) -> Seq<char> {
        self.annotation.render()
    }

    pub fn to_string(&self) -> (r: String)
        ensures
            r@ == self.render(),
    {
        self.annotation.to_string()
    }
}

/// An expression: one of the four forms above.
pub enum Expression {
    Literal(LiteralExpression),
    Variable(VariableExpression),
    Function(FunctionExpression),
    Unsupported(UnsupportedExpression),
}

impl Expression {
    /// Canonical text of an expression: whichever form it holds.
    pub open spec fn render(&self) -> Seq<char> {
        match self {
            Expression::Literal(l) => l.render(),
            Expression::Variable(v) => v.render(),
            Expression::Function(f) => f.render(),
            Expression::Unsupported(u) => u.render(),
        }
    }

    pub fn to_string(&self) -> (r: String)
        ensures
            r@ == self.render(),
    {
        match self {
            Expression::Literal(l) => l.to_string(),
            Expression::Variable(v) => v.to_string(),
            Expression::Function(f) => f.to_string(),
            Expression::Unsupported(u) => u.to_string(),
        }
    }
}

/// Canonical text of a selector list: the expressions in list order,
/// separated by single spaces.
pub open spec fn render_selectors(sels: Seq<Expression>) -> Seq<char>
    decreases sels.len(),
{
    if sels.len() == 0 {
        Seq::empty()
    } else if sels.len() == 1 {
        sels[0].render()
    } else {
        render_selectors(sels.drop_last()) + " "@ + sels.last().render()
    }
}

/// Serializes a selector list, space-separated, in list order.
pub fn selectors_to_string(sels: &Vec<Expression>) -> (r: String)
    ensures
        r@ == render_selectors(sels@),
{
    let mut r = String::new();
    let mut i: usize = 0;
    while i < sels.len()
        invariant
            i <= sels.len(),
            r@ == render_selectors(sels@.take(i as int)),
        decreases sels.len() - i,
    {
        if i > 0 {
            r.append(" ");
        }
        let s = sels[i].to_string();
        r.append(s.as_str());
        proof {
            let post = sels@.take(i as int + 1);
            assert(post.drop_last() =~= sels@.take(i as int));
            assert(post.last() == sels@[i as int]);
            assert(r@ =~= render_selectors(post));
        }
        i = i + 1;
    }
    proof {
        assert(sels@.take(sels.len() as int) =~= sels@);
    }
    r
}

} // verus!
