//! Node types of the message tree, one module per layer, leaves first.

mod annotation;
mod attribute;
mod declaration;
mod expression;
mod markup;
mod message;
mod pattern_element;
mod primitives;
mod variant;

pub use annotation::{Annotation, UnsupportedAnnotation, FunctionAnnotation};
pub use attribute::{Attribute, AttributeValue};
pub use declaration::{Declaration, LocalDeclaration, InputDeclaration, UnsupportedStatement};
pub use declaration::{render_declarations, declarations_to_string};
pub use expression::{Expression, LiteralExpression, VariableExpression, FunctionExpression, UnsupportedExpression};
pub use expression::{render_selectors, selectors_to_string};
pub use markup::{Markup, MarkupKind};
pub use message::{Message, PatternMessage, SelectMessage};
pub use message::{lemma_unquoted_pattern_message, lemma_declared_pattern_message_quoted, lemma_render_deterministic};
pub use pattern_element::PatternElement;
pub use pattern_element::{render_pattern, pattern_to_string};
pub use primitives::{VariableRef, Literal, MFOption, OptionValue};
pub use primitives::{render_options, options_to_string};
pub use variant::{Variant, VariantKey};
pub use variant::{render_keys, keys_to_string, render_variants, variants_to_string};
pub use variant::lemma_variant_pattern_always_quoted;
