//! Variants of a selection message: a key per selector, and a pattern.

use vstd::prelude::*;

use crate::data_model::elements::pattern_element::{PatternElement, render_pattern, pattern_to_string};
use crate::data_model::elements::primitives::Literal;

verus! {

/// A variant key: a literal value, or the catch-all.
///
/// The model keeps no identifier for the catch-all token: it is always
/// canonicalized to `*`.
pub enum VariantKey {
    Literal(Literal),
    Catchall,
}

impl VariantKey {
    /// Whether this key is the catch-all.
    pub open spec fn is_catchall(&self) -> bool {
        self is Catchall
    }

    /// Canonical text of a variant key: the literal's value, or `*`.
    pub open spec fn render(&self) -> Seq<char> {
        match self {
            VariantKey::Literal(l) => l.render(),
            VariantKey::Catchall => "*"@,
        }
    }

    pub fn to_string(&self) -> (r: String)
        ensures
            r@ == self.render(),
    {
        match self {
            VariantKey::Literal(l) => l.to_string(),
            VariantKey::Catchall => String::from_str("*"),
        }
    }
}

/// Canonical text of a key list: the keys in list order, separated by
/// single spaces.
pub open spec fn render_keys(keys: Seq<VariantKey>) -> Seq<char>
    decreases keys.len(),
{
    if keys.len() == 0 {
        Seq::empty()
    } else if keys.len() == 1 {
        keys[0].render()
    } else {
        render_keys(keys.drop_last()) + " "@ + keys.last().render()
    }
}

/// Serializes a key list, space-separated, in list order.
pub fn keys_to_string(keys: &Vec<VariantKey>) -> (r: String)
    ensures
        r@ == render_keys(keys@),
{
    let mut r = String::new();
    let mut i: usize = 0;
    while i < keys.len()
        invariant
            i <= keys.len(),
            r@ == render_keys(keys@.take(i as int)),
        decreases keys.len() - i,
    {
        if i > 0 {
            r.append(" ");
        }
        let s = keys[i].to_string();
        r.append(s.as_str());
        proof {
            let post = keys@.take(i as int + 1);
            assert(post.drop_last() =~= keys@.take(i as int));
            assert(post.last() == keys@[i as int]);
            assert(r@ =~= render_keys(post));
        }
        i = i + 1;
    }
    proof {
        assert(keys@.take(keys.len() as int) =~= keys@);
    }
    r
}

/// One arm of a selection message: its keys and its pattern.
pub struct Variant {
    pub keys: Vec<VariantKey>,
    pub value: Vec<PatternElement>,
}

impl Variant {
    /// Whether every key of this variant is the catch-all. A variant with
    /// only catch-all keys is a fallback variant.
    pub open spec fn is_fallback(&self) -> bool {
        forall|i: int| 0 <= i < self.keys@.len() ==> (#[trigger] self.keys@[i]).is_catchall()
    }

    /// Canonical text of a variant: the space-separated keys, a space, and
    /// the pattern — always wrapped in `{{ }}`, whatever it contains.
    pub open spec fn render(&self) -> Seq<char> {
        render_keys(self.keys@) + " {{"@ + render_pattern(self.value@) + "}}"@
    }

    pub fn to_string(&self) -> (r: String)
        ensures
            r@ == self.render(),
    {
        let mut r = keys_to_string(&self.keys);
        r.append(" {{");
        let p = pattern_to_string(&self.value);
        r.append(p.as_str());
        r.append("}}");
        r
    }

    /// Reports whether every key of this variant is the catch-all.
    pub fn is_fallback_variant(&self) -> (r: bool)
        ensures
            r == self.is_fallback(),
    {
        let mut i: usize = 0;
        while i < self.keys.len()
            invariant
                i <= self.keys.len(),
                forall|j: int| 0 <= j < i ==> (#[trigger] self.keys@[j]).is_catchall(),
            decreases self.keys.len() - i,
        {
            match &self.keys[i] {
                VariantKey::Catchall => {},
                VariantKey::Literal(_) => {
                    return false;
                },
            }
            i = i + 1;
        }
        true
    }
}

/// Law: a variant's rendering always wraps the variant's pattern in
/// `{{ }}` — unconditionally, unlike a top-level pattern, and independent
/// of any declarations of the surrounding message.
pub proof fn lemma_variant_pattern_always_quoted(v: &Variant)
    ensures
        v.render() == render_keys(v.keys@) + " {{"@ + render_pattern(v.value@) + "}}"@,
{
}

/// Canonical text of a variant list: the variants in list order, separated
/// by single newlines.
pub open spec fn render_variants(vs: Seq<Variant>) -> Seq<char>
    decreases vs.len(),
{
    if vs.len() == 0 {
        Seq::empty()
    } else if vs.len() == 1 {
        vs[0].render()
    } else {
        render_variants(vs.drop_last()) + "\n"@ + vs.last().render()
    }
}

/// Serializes a variant list, newline-separated, in list order.
pub fn variants_to_string(vs: &Vec<Variant>) -> (r: String)
    ensures
        r@ == render_variants(vs@),
{
    let mut r = String::new();
    let mut i: usize = 0;
    while i < vs.len()
        invariant
            i <= vs.len(),
            r@ == render_variants(vs@.take(i as int)),
        decreases vs.len() - i,
    {
        if i > 0 {
            r.append("\n");
        }
        let s = vs[i].to_string();
        r.append(s.as_str());
        proof {
            let post = vs@.take(i as int + 1);
            assert(post.drop_last() =~= vs@.take(i as int));
            assert(post.last() == vs@[i as int]);
            assert(r@ =~= render_variants(post));
        }
        i = i + 1;
    }
    proof {
        assert(vs@.take(vs.len() as int) =~= vs@);
    }
    r
}

} // verus!
