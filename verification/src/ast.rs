//! Flat view of the message tree: every node type under one path.
//!
//! The node types live in [`crate::data_model::elements`], one module per
//! layer; this module re-exports them so the whole abstract syntax can be
//! imported from a single place.

pub use crate::data_model::elements::{
    Message, PatternMessage, SelectMessage,
    Declaration, InputDeclaration, LocalDeclaration, UnsupportedStatement,
    Variant, VariantKey,
    PatternElement,
    Expression, LiteralExpression, VariableExpression, FunctionExpression, UnsupportedExpression,
    Annotation, FunctionAnnotation, UnsupportedAnnotation,
    Attribute, AttributeValue,
    Markup, MarkupKind,
    VariableRef, Literal, MFOption, OptionValue,
};
