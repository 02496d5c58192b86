//! Attributes: reserved key/value pairs attached to expressions, a
//! forward-compatibility placeholder not yet emitted by expression
//! rendering.

use vstd::prelude::*;

use crate::data_model::elements::primitives::{Literal, VariableRef};

verus! {

/// The value side of an attribute: a literal or a variable reference.
pub enum AttributeValue {
    Literal(Literal),
    Variable(VariableRef),
}

impl AttributeValue {
    /// Canonical text of an attribute value: whichever operand it holds.
    pub open spec fn render(&self) -> Seq<char> {
        match self {
            AttributeValue::Literal(l) => l.render(),
            AttributeValue::Variable(v) => v.render(),
        }
    }

    pub fn to_string(&self) -> (r: String)
        ensures
            r@ == self.render(),
    {
        match self {
            AttributeValue::Literal(l) => l.to_string(),
            AttributeValue::Variable(v) => v.to_string(),
        }
    }
}

/// A reserved attribute: a name with an optional value.
pub struct Attribute {
    pub name: String,
    pub value: Option<AttributeValue>,
}

impl Attribute {
    /// Canonical self-rendering of an attribute: `@name=value` when it has
    /// a value, the bare name otherwise.
    pub open spec fn render(&self) -> Seq<char> {
        match self.value {
            Some(v) => "@"@ + self.name@ + "="@ + v.render(),
            None => self.name@,
        }
    }

    pub fn to_string(&self) -> (r: String)
        ensures
            r@ == self.render(),
    {
        match &self.value {
            Some(v) => {
                let mut r = String::from_str("@");
                r.append(self.name.as_str());
                r.append("=");
                let vs = v.to_string();
                r.append(vs.as_str());
                r
            },
            None => self.name.clone(),
        }
    }
}

} // verus!
