//! Declarations: `.input` and `.local` bindings, and opaque reserved
//! statements.

use vstd::prelude::*;

use crate::data_model::elements::expression::{Expression, VariableExpression};

verus! {

/// Binds an external variable. Well-formedness asks that `name` equal the
/// name inside the value's variable reference; the type leaves that to its
/// producer, as the tree must also be able to carry ill-formed input for a
/// validator to flag.
pub struct InputDeclaration {
    pub name: String,
    pub value: VariableExpression,
}

impl InputDeclaration {
    /// An input declaration is well-formed when its name equals the name
    /// in the variable reference of its value.
    pub open spec fn well_formed(&self) -> bool {
        self.name@ == self.value.arg.name@
    }

    /// Checks the well-formedness invariant: the declared name against the
    /// name inside the value's variable reference.
    pub fn is_well_formed(&self) -> (r: bool)
        ensures
            r == self.well_formed(),
    {
        self.name == self.value.arg.name
    }

    /// Canonical text of an input declaration: `.input name={…}`.
    pub open spec fn render(&self) -> Seq<char> {
        ".input "@ + self.name@ + "="@ + self.value.render()
    }

    pub fn to_string(&self) -> (r: String)
        ensures
            r@ == self.render(),
    {
        let mut r = String::from_str(".input ");
        r.append(self.name.as_str());
        r.append("=");
        let v = self.value.to_string();
        r.append(v.as_str());
        r
    }
}

/// Binds a name to a computed value.
pub struct LocalDeclaration {
    pub name: String,
    pub value: Expression,
}

impl LocalDeclaration {
    /// Canonical text of a local declaration: `.local name={…}`.
    pub open spec fn render(&self) -> Seq<char> {
        ".local "@ + self.name@ + "="@ + self.value.render()
    }

    pub fn to_string(&self) -> (r: String)
        ensures
            r@ == self.render(),
    {
        let mut r = String::from_str(".local ");
        r.append(self.name.as_str());
        r.append("=");
        let v = self.value.to_string();
        r.append(v.as_str());
        r
    }
}

/// An opaque reserved statement: a keyword, an optional raw body, and the
/// expressions that followed it, preserved for round-tripping and
/// semantically inert.
pub struct UnsupportedStatement {
    pub keyword: String,
    pub body: Option<String>,
    pub expressions: Vec<Expression>,
}

impl UnsupportedStatement {
    /// Canonical text of a reserved statement: `.keyword ` followed by the
    /// raw body, or by nothing when there is none.
    pub open spec fn render(&self) -> Seq<char> {
        "."@ + self.keyword@ + " "@ + match self.body {
            Some(b) => b@,
            None => Seq::empty(),
        }
    }

    pub fn to_string(&self) -> (r: String)
        ensures
            r@ == self.render(),
    {
        let mut r = String::from_str(".");
        r.append(self.keyword.as_str());
        r.append(" ");
        match &self.body {
            Some(b) => {
                r.append(b.as_str());
            },
            None => {
                proof {
                    assert(r@ =~= self.render());
                }
            },
        }
        r
    }
}

/// A declaration: an input binding, a local binding, or a reserved
/// statement.
pub enum Declaration {
    Input(InputDeclaration),
    Local(LocalDeclaration),
    UnsupportedStatement(UnsupportedStatement),
}

impl Declaration {
    /// Canonical text of a declaration: whichever form it holds.
    pub open spec fn render(&self) -> Seq<char> {
        match self {
            Declaration::Input(i) => i.render(),
            Declaration::Local(l) => l.render(),
            Declaration::UnsupportedStatement(u) => u.render(),
        }
    }

    pub fn to_string(&self) -> (r: String)
        ensures
            r@ == self.render(),
    {
        match self {
            Declaration::Input(i) => i.to_string(),
            Declaration::Local(l) => l.to_string(),
            Declaration::UnsupportedStatement(u) => u.to_string(),
        }
    }
}

/// Canonical text of a declaration list: the declarations in list order,
/// separated by single newlines.
pub open spec fn render_declarations(decls: Seq<Declaration>) -> Seq<char>
    decreases decls.len(),
{
    if decls.len() == 0 {
        Seq::empty()
    } else if decls.len() == 1 {
        decls[0].render()
    } else {
        render_declarations(decls.drop_last()) + "\n"@ + decls.last().render()
    }
}

/// Serializes a declaration list, newline-separated, in list order.
pub fn declarations_to_string(decls: &Vec<Declaration>) -> (r: String)
    ensures
        r@ == render_declarations(decls@),
{
    let mut r = String::new();
    let mut i: usize = 0;
    while i < decls.len()
        invariant
            i <= decls.len(),
            r@ == render_declarations(decls@.take(i as int)),
        decreases decls.len() - i,
    {
        if i > 0 {
            r.append("\n");
        }
        let s = decls[i].to_string();
        r.append(s.as_str());
        proof {
            let post = decls@.take(i as int + 1);
            assert(post.drop_last() =~= decls@.take(i as int));
            assert(post.last() == decls@[i as int]);
            assert(r@ =~= render_declarations(post));
        }
        i = i + 1;
    }
    proof {
        assert(decls@.take(decls.len() as int) =~= decls@);
    }
    r
}

} // verus!
