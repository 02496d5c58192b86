//! Markup tags embedded in a pattern: open, standalone, or close.
//!
//! Open and close tags are unpaired at the data-model level; pairing is a
//! presentation-layer concern.

use vstd::prelude::*;

use crate::data_model::elements::attribute::Attribute;
use crate::data_model::elements::primitives::{MFOption, render_options, options_to_string};

verus! {

/// The three kinds of markup tag.
pub enum MarkupKind {
    Open,
    Standalone,
    Close,
}

/// A markup tag: a kind, a name, ordered options, and reserved attributes.
pub struct Markup {
    pub kind: MarkupKind,
    pub name: String,
    pub options: Vec<MFOption>,
    /// Reserved for future standardization; not emitted by rendering.
    pub attributes: Vec<Attribute>,
}

impl Markup {
    /// Canonical text of a markup tag.
    ///
    /// - open: `{#name}`, or `{#name opt… }` — with options, a space stands
    ///   before the closing brace;
    /// - standalone: `{#name/}`, or `{#name opt… /}`;
    /// - close: `{/name}` — a close tag carries no options.
    pub open spec fn render(&self) -> Seq<char> {
        match self.kind {
            MarkupKind::Open => if self.options@.len() == 0 {
                "{#"@ + self.name@ + "}"@
            } else {
                "{#"@ + self.name@ + " "@ + render_options(self.options@) + " }"@
            },
            MarkupKind::Standalone => if self.options@.len() == 0 {
                "{#"@ + self.name@ + "/}"@
            } else {
                "{#"@ + self.name@ + " "@ + render_options(self.options@) + " /}"@
            },
            MarkupKind::Close => "{/"@ + self.name@ + "}"@,
        }
    }

    pub fn to_string(&self) -> (r: String)
        ensures
            r@ == self.render(),
    {
        match self.kind {
            MarkupKind::Open => {
                let mut r = String::from_str("{#");
                r.append(self.name.as_str());
                if self.options.is_empty() {
                    r.append("}");
                } else {
                    r.append(" ");
                    let o = options_to_string(&self.options);
                    r.append(o.as_str());
                    r.append(" }");
                }
                r
            },
            MarkupKind::Standalone => {
                let mut r = String::from_str("{#");
                r.append(self.name.as_str());
                if self.options.is_empty() {
                    r.append("/}");
                } else {
                    r.append(" ");
                    let o = options_to_string(&self.options);
                    r.append(o.as_str());
                    r.append(" /}");
                }
                r
            },
            MarkupKind::Close => {
                let mut r = String::from_str("{/");
                r.append(self.name.as_str());
                r.append("}");
                r
            },
        }
    }
}

} // verus!
