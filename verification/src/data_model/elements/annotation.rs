//! Annotations: a named function with options, or opaque reserved syntax.

use vstd::prelude::*;

use crate::data_model::elements::primitives::{MFOption, render_options, options_to_string};

verus! {

/// Reserved or private-use syntax, retained verbatim for round-tripping.
pub struct UnsupportedAnnotation {
    pub source: String,
}

impl UnsupportedAnnotation {
    /// Canonical text of an unsupported annotation: its source, verbatim;
    /// the opaque source carries its own delimiters.
    pub open spec fn render(&self) -> Seq<char> {
        self.source@
    }

    pub fn to_string(&self) -> (r: String)
        ensures
            r@ == self.render(),
    {
        self.source.clone()
    }
}

/// A function reference: a name plus its ordered options.
pub struct FunctionAnnotation {
    pub name: String,
    pub options: Vec<MFOption>,
}

impl FunctionAnnotation {
    /// Canonical text of a function annotation: the `:` sigil and the name,
    /// then, when options are present, a space and the space-separated
    /// options in list order.
    pub open spec fn render(&self) -> Seq<char> {
        if self.options@.len() == 0 {
            ":"@ + self.name@
        } else {
            ":"@ + self.name@ + " "@ + render_options(self.options@)
        }
    }

    pub fn to_string(&self) -> (r: String)
        ensures
            r@ == self.render(),
    {
        let mut r = String::from_str(":");
        r.append(self.name.as_str());
        if !self.options.is_empty() {
            r.append(" ");
            let o = options_to_string(&self.options);
            r.append(o.as_str());
        }
        r
    }
}

/// An annotation attached to an expression: a function reference, or
/// opaque reserved syntax.
pub enum Annotation {
    Function(FunctionAnnotation),
    Unsupported(UnsupportedAnnotation),
}

impl Annotation {
    /// Canonical text of an annotation: whichever form it holds.
    pub open spec fn render(&self) -> Seq<char> {
        match self {
            Annotation::Function(f) => f.render(),
            Annotation::Unsupported(u) => u.render(),
        }
    }

    pub fn to_string(&self) -> (r: String)
        ensures
            r@ == self.render(),
    {
        match self {
            Annotation::Function(f) => f.to_string(),
            Annotation::Unsupported(u) => u.to_string(),
        }
    }
}

} // verus!
