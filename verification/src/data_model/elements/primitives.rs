//! Leaf nodes: quoted literals, variable references, and named options.

use vstd::prelude::*;

verus! {

/// A literal string value. The value is carried raw: escaping for
/// characters that would require quoting is the producer's duty on input,
/// and this layer does not re-escape literal contents.
pub struct Literal {
    pub value: String,
}

impl Literal {
    /// Canonical text of a literal: its value, verbatim.
    pub open spec fn render(&self) -> Seq<char> {
        self.value@
    }

    pub fn to_string(&self) -> (r: String)
        ensures
            r@ == self.render(),
    {
        self.value.clone()
    }
}

/// A reference to a named variable.
pub struct VariableRef {
    pub name: String,
}

impl VariableRef {
    /// Canonical text of a variable reference: the `$` sigil, then the name.
    pub open spec fn render(&self) -> Seq<char> {
        "$"@ + self.name@
    }

    pub fn to_string(&self) -> (r: String)
        ensures
            r@ == self.render(),
    {
        let mut r = String::from_str("$");
        r.append(self.name.as_str());
        r
    }
}

/// The value side of an option: a literal or a variable reference.
pub enum OptionValue {
    Literal(Literal),
    Variable(VariableRef),
}

impl OptionValue {
    /// Canonical text of an option value: whichever operand it holds.
    pub open spec fn render(&self) -> Seq<char> {
        match self {
            OptionValue::Literal(l) => l.render(),
            OptionValue::Variable(v) => v.render(),
        }
    }

    pub fn to_string(&self) -> (r: String)
        ensures
            r@ == self.render(),
    {
        match self {
            OptionValue::Literal(l) => l.to_string(),
            OptionValue::Variable(v) => v.to_string(),
        }
    }
}

/// A named argument to a function or markup tag. The message format calls
/// this an "option"; the `MF` prefix keeps it apart from Rust's `Option`.
pub struct MFOption {
    pub name: String,
    pub value: OptionValue,
}

impl MFOption {
    /// Canonical text of an option: `name=value`.
    pub open spec fn render(&self) -> Seq<char> {
        self.name@ + "="@ + self.value.render()
    }

    pub fn to_string(&self) -> (r: String)
        ensures
            r@ == self.render(),
    {
        let mut r = self.name.clone();
        r.append("=");
        let v = self.value.to_string();
        r.append(v.as_str());
        r
    }
}

/// Canonical text of an option list: the options in list order (insertion
/// order, never sorted), separated by single spaces.
pub open spec fn render_options(opts: Seq<MFOption>) -> Seq<char>
    decreases opts.len(),
{
    if opts.len() == 0 {
        Seq::empty()
    } else if opts.len() == 1 {
        opts[0].render()
    } else {
        render_options(opts.drop_last()) + " "@ + opts.last().render()
    }
}

/// Serializes an option list, space-separated, in list order.
pub fn options_to_string(opts: &Vec<MFOption>) -> (r: String)
    ensures
        r@ == render_options(opts@),
{
    let mut r = String::new();
    let mut i: usize = 0;
    while i < opts.len()
        invariant
            i <= opts.len(),
            r@ == render_options(opts@.take(i as int)),
        decreases opts.len() - i,
    {
        if i > 0 {
            r.append(" ");
        }
        let s = opts[i].to_string();
        r.append(s.as_str());
        proof {
            let post = opts@.take(i as int + 1);
            assert(post.drop_last() =~= opts@.take(i as int));
            assert(post.last() == opts@[i as int]);
            assert(r@ =~= render_options(post));
        }
        i = i + 1;
    }
    proof {
        assert(opts@.take(opts.len() as int) =~= opts@);
    }
    r
}

} // verus!
