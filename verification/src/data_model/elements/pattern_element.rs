//! Pattern elements: the ordered pieces of a pattern — literal text runs,
//! expressions, and markup tags. Order is significant: a pattern is the
//! concatenation of its elements' text, with no separator.

use vstd::prelude::*;

use crate::data_model::elements::expression::Expression;
use crate::data_model::elements::markup::Markup;

verus! {

/// One element of a pattern.
pub enum PatternElement {
    Literal(String),
    Expression(Expression),
    Markup(Markup),
}

impl PatternElement {
    /// Canonical text of a pattern element: literal text verbatim, or the
    /// expression's or markup tag's own text.
    pub open spec fn render(&self) -> Seq<char> {
        match self {
            PatternElement::Literal(l) => l@,
            PatternElement::Expression(e) => e.render(),
            PatternElement::Markup(m) => m.render(),
        }
    }

    pub fn to_string(&self) -> (r: String)
        ensures
            r@ == self.render(),
    {
        match self {
            PatternElement::Literal(l) => l.clone(),
            PatternElement::Expression(e) => e.to_string(),
            PatternElement::Markup(m) => m.to_string(),
        }
    }
}

/// Canonical text of a pattern: its elements' text concatenated in order,
/// with no separator.
pub open spec fn render_pattern(p: Seq<PatternElement>) -> Seq<char>
    decreases p.len(),
{
    if p.len() == 0 {
        Seq::empty()
    } else {
        render_pattern(p.drop_last()) + p.last().render()
    }
}

/// Serializes a pattern: each element in order, concatenated.
pub fn pattern_to_string(p: &Vec<PatternElement>) -> (r: String)
    ensures
        r@ == render_pattern(p@),
{
    let mut r = String::new();
    let mut i: usize = 0;
    while i < p.len()
        invariant
            i <= p.len(),
            r@ == render_pattern(p@.take(i as int)),
        decreases p.len() - i,
    {
        let s = p[i].to_string();
        r.append(s.as_str());
        proof {
            let post = p@.take(i as int + 1);
            assert(post.drop_last() =~= p@.take(i as int));
            assert(post.last() == p@[i as int]);
            assert(r@ =~= render_pattern(post));
        }
        i = i + 1;
    }
    proof {
        assert(p@.take(p.len() as int) =~= p@);
    }
    r
}

} // verus!
