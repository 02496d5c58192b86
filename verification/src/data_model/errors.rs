//! The error taxonomy of the message format, grouped by phase.
//!
//! Each kind is a data-less marker. This crate's serializer never fails,
//! so it raises none of them itself; they are the contract through which a
//! validator or resolution engine built on this data model reports
//! failures, so tooling can handle all five groups uniformly.

use vstd::prelude::*;

verus! {

// Syntax errors

/// A syntax error occurs when the source text of a message is not
/// well-formed. It is detected by a parser, before any tree exists.
#[derive(Debug)]
pub struct SyntaxError;

// Data-model errors: statically checkable from the tree shape alone.

/// A variant key mismatch occurs when the number of keys on a variant does
/// not equal the number of selectors of its message.
#[derive(Debug)]
pub struct VariantKeyMismatch;

/// A missing fallback variant error occurs when a selection message has no
/// variant whose keys are all catch-all.
#[derive(Debug)]
pub struct MissingFallbackVariant;

/// A missing selector annotation error occurs when a message contains a
/// selector that has no annotation, and whose variable does not directly
/// or indirectly reference a declaration with an annotation.
#[derive(Debug)]
pub struct MissingSelectorAnnotation;

/// A duplicate declaration error occurs when a variable is declared more
/// than once. An input variable is implicitly declared when first used, so
/// explicitly declaring it after such a use is also an error.
#[derive(Debug)]
pub struct DuplicateDeclaration;

/// A duplicate option name error occurs when the same identifier appears
/// on the left-hand side of more than one option in the same expression.
#[derive(Debug)]
pub struct DuplicateOptionName;

// Resolution errors: raised while evaluating against a runtime environment.

/// An unresolved variable error occurs when a variable reference cannot be
/// resolved.
#[derive(Debug)]
pub struct UnresolvedVariable;

/// An unknown function error occurs when an expression refers to a
/// function that cannot be resolved.
#[derive(Debug)]
pub struct UnknownFunction;

/// An unsupported expression error occurs when an expression uses syntax
/// reserved for future standardization, or private-use syntax the current
/// implementation does not support.
#[derive(Debug)]
pub struct UnsupportedExpression;

/// An invalid expression error occurs when an expression's
/// implementation-defined internal requirements produce an error during
/// function resolution, or a function returns a value the implementation
/// does not support.
#[derive(Debug)]
pub struct InvalidExpression;

/// An unsupported statement error occurs when a message includes a
/// reserved statement.
#[derive(Debug)]
pub struct UnsupportedStatement;

// Selection errors

/// A selection error occurs when message selection fails.
#[derive(Debug)]
pub struct SelectionError;

// Formatting errors

/// A formatting error occurs while formatting a resolved value, for
/// example on a value with an unsupported type or an internally
/// inconsistent set of options.
#[derive(Debug)]
pub struct FormattingError;

} // verus!
