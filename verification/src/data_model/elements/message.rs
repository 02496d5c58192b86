//! Message roots: a single-pattern message, or a selector/variant message.

use vstd::prelude::*;

use crate::data_model::elements::declaration::{Declaration, render_declarations, declarations_to_string};
use crate::data_model::elements::expression::{Expression, render_selectors, selectors_to_string};
use crate::data_model::elements::pattern_element::{PatternElement, render_pattern, pattern_to_string};
use crate::data_model::elements::variant::{Variant, render_variants, variants_to_string};
use crate::data_model::errors::{VariantKeyMismatch, MissingFallbackVariant};

verus! {

/// A message without selectors, carrying exactly one pattern.
pub struct PatternMessage {
    pub declarations: Vec<Declaration>,
    pub pattern: Vec<PatternElement>,
}

impl PatternMessage {
    /// Whether the rendered pattern must be wrapped in `{{ }}`: when its
    /// text starts with `.` (a bare pattern would be ambiguous with a
    /// keyword line), or when declarations are present (a bare pattern
    /// right after declarations would be ambiguous with a `.match`).
    pub open spec fn needs_quoting(&self) -> bool {
        let p = render_pattern(self.pattern@);
        (p.len() > 0 && p[0] == '.') || self.declarations@.len() > 0
    }

    /// Canonical text of a pattern message: the pattern's text, wrapped in
    /// `{{ }}` when quoting is needed; with declarations, the
    /// newline-separated declarations, a blank line, then the (always
    /// quoted) pattern.
    pub open spec fn render(&self) -> Seq<char> {
        let p = render_pattern(self.pattern@);
        let q = if self.needs_quoting() {
            "{{"@ + p + "}}"@
        } else {
            p
        };
        if self.declarations@.len() == 0 {
            q
        } else {
            render_declarations(self.declarations@) + "\n\n"@ + q
        }
    }

    pub fn to_string(&self) -> (r: String)
        ensures
            r@ == self.render(),
    {
        let p = pattern_to_string(&self.pattern);
        let starts_with_dot = !p.as_str().is_empty() && p.as_str().get_char(0) == '.';
        let should_quote = starts_with_dot || !self.declarations.is_empty();

        let quoted = if should_quote {
            let mut q = String::from_str("{{");
            q.append(p.as_str());
            q.append("}}");
            q
        } else {
            p
        };

        if self.declarations.is_empty() {
            return quoted;
        }

        let mut r = declarations_to_string(&self.declarations);
        r.append("\n\n");
        r.append(quoted.as_str());
        r
    }
}

/// A message that selects one of its variants by a list of selectors.
pub struct SelectMessage {
    pub declarations: Vec<Declaration>,
    pub selectors: Vec<Expression>,
    pub variants: Vec<Variant>,
}

impl SelectMessage {
    /// Whether every variant carries exactly one key per selector.
    pub open spec fn variant_keys_match(&self) -> bool {
        forall|i: int| 0 <= i < self.variants@.len()
            ==> (#[trigger] self.variants@[i]).keys@.len() == self.selectors@.len()
    }

    /// Whether some variant consists entirely of catch-all keys, so that
    /// selection is total.
    pub open spec fn has_fallback_variant(&self) -> bool {
        exists|i: int| 0 <= i < self.variants@.len()
            && (#[trigger] self.variants@[i]).is_fallback()
    }

    /// Canonical text of a selection message: `.match `, the
    /// space-separated selectors, a newline, and the newline-separated
    /// variants; with declarations, the newline-separated declarations and
    /// a single newline come first — no blank line, unlike a pattern
    /// message.
    pub open spec fn render(&self) -> Seq<char> {
        let m = ".match "@ + render_selectors(self.selectors@) + "\n"@
            + render_variants(self.variants@);
        if self.declarations@.len() == 0 {
            m
        } else {
            render_declarations(self.declarations@) + "\n"@ + m
        }
    }

    pub fn to_string(&self) -> (r: String)
        ensures
            r@ == self.render(),
    {
        let mut m = String::from_str(".match ");
        let sel = selectors_to_string(&self.selectors);
        m.append(sel.as_str());
        m.append("\n");
        let var = variants_to_string(&self.variants);
        m.append(var.as_str());

        if self.declarations.is_empty() {
            return m;
        }

        let mut r = declarations_to_string(&self.declarations);
        r.append("\n");
        r.append(m.as_str());
        r
    }

    /// Checks the variant-arity invariant: succeeds exactly when every
    /// variant's key count equals the selector count, and flags a
    /// [`VariantKeyMismatch`] otherwise.
    pub fn check_variant_keys(&self) -> (r: Result<(), VariantKeyMismatch>)
        ensures
            r is Ok <==> self.variant_keys_match(),
    {
        let mut i: usize = 0;
        while i < self.variants.len()
            invariant
                i <= self.variants.len(),
                forall|j: int| 0 <= j < i
                    ==> (#[trigger] self.variants@[j]).keys@.len() == self.selectors@.len(),
            decreases self.variants.len() - i,
        {
            if self.variants[i].keys.len() != self.selectors.len() {
                return Err(VariantKeyMismatch);
            }
            i = i + 1;
        }
        Ok(())
    }

    /// Checks the fallback invariant: succeeds exactly when some variant
    /// consists entirely of catch-all keys, and flags a
    /// [`MissingFallbackVariant`] otherwise.
    pub fn check_fallback_variant(&self) -> (r: Result<(), MissingFallbackVariant>)
        ensures
            r is Ok <==> self.has_fallback_variant(),
    {
        let mut i: usize = 0;
        while i < self.variants.len()
            invariant
                i <= self.variants.len(),
                forall|j: int| 0 <= j < i ==> !(#[trigger] self.variants@[j]).is_fallback(),
            decreases self.variants.len() - i,
        {
            if self.variants[i].is_fallback_variant() {
                return Ok(());
            }
            i = i + 1;
        }
        Err(MissingFallbackVariant)
    }
}

/// Law: a pattern message with no declarations, whose pattern's text does
/// not start with `.`, renders as the plain concatenation of its elements'
/// text — no quoting is added.
pub proof fn lemma_unquoted_pattern_message(m: &PatternMessage)
    requires
        m.declarations@.len() == 0,
        render_pattern(m.pattern@).len() == 0 || render_pattern(m.pattern@)[0] != '.',
    ensures
        m.render() == render_pattern(m.pattern@),
{
}

/// Law: a pattern message with declarations always wraps its pattern in
/// `{{ }}`, whatever the pattern's text holds.
pub proof fn lemma_declared_pattern_message_quoted(m: &PatternMessage)
    requires
        m.declarations@.len() > 0,
    ensures
        m.render() == render_declarations(m.declarations@) + "\n\n"@
            + ("{{"@ + render_pattern(m.pattern@) + "}}"@),
{
}

/// A message: the root of the tree.
pub enum Message {
    Pattern(PatternMessage),
    Select(SelectMessage),
}

impl Message {
    /// Canonical text of a message: whichever form it holds.
    pub open spec fn render(&self) -> Seq<char> {
        match self {
            Message::Pattern(p) => p.render(),
            Message::Select(s) => s.render(),
        }
    }

    pub fn to_string(&self) -> (r: String)
        ensures
            r@ == self.render(),
    {
        match self {
            Message::Pattern(p) => p.to_string(),
            Message::Select(s) => s.to_string(),
        }
    }
}

/// Law: rendering is deterministic. Every serializer's result is pinned to
/// the one canonical rendering of the tree, so any two renderings of the
/// same message are the same text.
pub proof fn lemma_render_deterministic(m: &Message, r1: Seq<char>, r2: Seq<char>)
    requires
        r1 == m.render(),
        r2 == m.render(),
    ensures
        r1 == r2,
{
}

} // verus!
