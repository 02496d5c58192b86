//! Tests for the rendering laws, the edge cases of quoting and joining,
//! and the data-model invariant checkers.

use message_format::data_model::elements::{
    Annotation, Attribute, AttributeValue, Declaration, Expression, FunctionAnnotation,
    FunctionExpression, InputDeclaration, Literal, LiteralExpression, LocalDeclaration,
    MFOption, Markup, MarkupKind, Message, OptionValue, PatternElement, PatternMessage,
    SelectMessage,
    UnsupportedAnnotation, UnsupportedExpression, UnsupportedStatement, VariableExpression,
    VariableRef, Variant, VariantKey,
};

fn local_declaration(name: &str, var: &str) -> LocalDeclaration {
    LocalDeclaration {
        name: name.into(),
        value: Expression::Variable(VariableExpression {
            arg: VariableRef { name: var.into() },
            annotation: None,
            attributes: vec![],
        }),
    }
}

fn variable_expression(name: &str) -> VariableExpression {
    VariableExpression {
        arg: VariableRef { name: name.into() },
        annotation: None,
        attributes: vec![],
    }
}

fn text_variant(keys: Vec<VariantKey>, text: &str) -> Variant {
    Variant {
        keys,
        value: vec![PatternElement::Literal(text.into())],
    }
}

// A pattern whose text merely contains a dot is not quoted: only a leading
// dot, or declarations, force quoting.
#[test]
fn dot_inside_pattern_is_not_quoted() {
    let message = PatternMessage {
        declarations: vec![],
        pattern: vec![
            PatternElement::Literal("version ".into()),
            PatternElement::Literal("2.0".into()),
        ],
    };

    assert_eq!(message.to_string(), "version 2.0");
}

// With declarations the pattern is always wrapped in {{ }}, even when its
// own text would not need it, and a blank line separates the two parts.
#[test]
fn declarations_force_quoting() {
    let message = PatternMessage {
        declarations: vec![Declaration::Input(InputDeclaration {
            name: "count".into(),
            value: variable_expression("count"),
        })],
        pattern: vec![PatternElement::Literal("plain".into())],
    };

    assert_eq!(
        message.to_string(),
        ".input count={$count}\n\n{{plain}}"
    );
}

// Both quoting reasons at once: a leading dot and declarations.
#[test]
fn declarations_and_leading_dot() {
    let message = PatternMessage {
        declarations: vec![
            Declaration::Local(local_declaration("a", "b")),
            Declaration::Local(local_declaration("c", "d")),
        ],
        pattern: vec![PatternElement::Literal(".match".into())],
    };

    assert_eq!(
        message.to_string(),
        ".local a={$b}\n.local c={$d}\n\n{{.match}}"
    );
}

// A variant's pattern is always wrapped in {{ }}, even when empty.
#[test]
fn variant_pattern_always_quoted() {
    let empty = Variant {
        keys: vec![VariantKey::Catchall],
        value: vec![],
    };
    assert_eq!(empty.to_string(), "* {{}}");

    let plain = text_variant(
        vec![VariantKey::Literal(Literal { value: "one".into() })],
        "item",
    );
    assert_eq!(plain.to_string(), "one {{item}}");
}

// Rendering is deterministic: the same tree gives the same text, always.
#[test]
fn rendering_is_deterministic() {
    let message = Message::Select(SelectMessage {
        declarations: vec![],
        selectors: vec![Expression::Variable(variable_expression("n"))],
        variants: vec![
            text_variant(
                vec![VariantKey::Literal(Literal { value: "1".into() })],
                "one",
            ),
            text_variant(vec![VariantKey::Catchall], "many"),
        ],
    });

    assert_eq!(message.to_string(), message.to_string());
    assert_eq!(message.to_string(), ".match {$n}\n1 {{one}}\n* {{many}}");
}

// Markup rendering: all three kinds, with and without options. With
// options, an open or standalone tag keeps a space before its closing
// delimiter.
#[test]
fn markup_forms() {
    let open_bare = Markup {
        kind: MarkupKind::Open,
        name: "b".into(),
        options: vec![],
        attributes: vec![],
    };
    assert_eq!(open_bare.to_string(), "{#b}");

    let open_with_options = Markup {
        kind: MarkupKind::Open,
        name: "link".into(),
        options: vec![MFOption {
            name: "to".into(),
            value: OptionValue::Literal(Literal { value: "home".into() }),
        }],
        attributes: vec![],
    };
    assert_eq!(open_with_options.to_string(), "{#link to=home }");

    let standalone_bare = Markup {
        kind: MarkupKind::Standalone,
        name: "img".into(),
        options: vec![],
        attributes: vec![],
    };
    assert_eq!(standalone_bare.to_string(), "{#img/}");

    let close = Markup {
        kind: MarkupKind::Close,
        name: "b".into(),
        options: vec![],
        attributes: vec![],
    };
    assert_eq!(close.to_string(), "{/b}");
}

// Options render in list order, never sorted.
#[test]
fn options_keep_list_order() {
    let annotation = FunctionAnnotation {
        name: "number".into(),
        options: vec![
            MFOption {
                name: "z".into(),
                value: OptionValue::Literal(Literal { value: "1".into() }),
            },
            MFOption {
                name: "a".into(),
                value: OptionValue::Variable(VariableRef { name: "v".into() }),
            },
        ],
    };

    assert_eq!(annotation.to_string(), ":number z=1 a=$v");
}

// A function annotation without options is the sigil and the name alone.
#[test]
fn bare_function_annotation() {
    let annotation = FunctionAnnotation {
        name: "date".into(),
        options: vec![],
    };

    assert_eq!(annotation.to_string(), ":date");
}

// A reserved statement renders its keyword and raw body; without a body
// the trailing space after the keyword remains.
#[test]
fn unsupported_statement_forms() {
    let with_body = UnsupportedStatement {
        keyword: "always".into(),
        body: Some("when ready".into()),
        expressions: vec![],
    };
    assert_eq!(with_body.to_string(), ".always when ready");

    let without_body = UnsupportedStatement {
        keyword: "always".into(),
        body: None,
        expressions: vec![],
    };
    assert_eq!(without_body.to_string(), ".always ");
}

// An unsupported expression passes its opaque source through verbatim: the
// source carries its own delimiters.
#[test]
fn unsupported_expression_is_verbatim() {
    let expression = UnsupportedExpression {
        annotation: UnsupportedAnnotation {
            source: "{!private}".into(),
        },
        attributes: vec![],
    };

    assert_eq!(expression.to_string(), "{!private}");
}

// A literal expression with an annotation that carries options.
#[test]
fn literal_expression_with_options() {
    let expression = LiteralExpression {
        arg: Literal { value: "42".into() },
        annotation: Some(Annotation::Function(FunctionAnnotation {
            name: "number".into(),
            options: vec![MFOption {
                name: "style".into(),
                value: OptionValue::Literal(Literal {
                    value: "ordinal".into(),
                }),
            }],
        })),
        attributes: vec![],
    };

    assert_eq!(expression.to_string(), "{42 :number style=ordinal}");
}

// Attributes render themselves as @name=value, or the bare name when they
// carry no value; expressions do not yet emit them.
#[test]
fn attribute_self_rendering() {
    let with_literal = Attribute {
        name: "id".into(),
        value: Some(AttributeValue::Literal(Literal { value: "7".into() })),
    };
    assert_eq!(with_literal.to_string(), "@id=7");

    let with_variable = Attribute {
        name: "ref".into(),
        value: Some(AttributeValue::Variable(VariableRef { name: "x".into() })),
    };
    assert_eq!(with_variable.to_string(), "@ref=$x");

    let bare = Attribute {
        name: "draft".into(),
        value: None,
    };
    assert_eq!(bare.to_string(), "draft");

    let expression = LiteralExpression {
        arg: Literal { value: "foo".into() },
        annotation: None,
        attributes: vec![Attribute {
            name: "id".into(),
            value: None,
        }],
    };
    assert_eq!(expression.to_string(), "{foo}");
}

// An input declaration is well-formed exactly when its name matches the
// name inside its value's variable reference.
#[test]
fn input_declaration_well_formedness() {
    let matching = InputDeclaration {
        name: "count".into(),
        value: variable_expression("count"),
    };
    assert!(matching.is_well_formed());
    assert_eq!(matching.to_string(), ".input count={$count}");

    let mismatched = InputDeclaration {
        name: "count".into(),
        value: variable_expression("total"),
    };
    assert!(!mismatched.is_well_formed());
}

// A select message whose variant key-count disagrees with its selector
// count is flagged as a variant key mismatch.
#[test]
fn variant_key_mismatch_is_flagged() {
    let message = SelectMessage {
        declarations: vec![],
        selectors: vec![
            Expression::Variable(variable_expression("a")),
            Expression::Variable(variable_expression("b")),
        ],
        variants: vec![
            text_variant(
                vec![
                    VariantKey::Literal(Literal { value: "1".into() }),
                    VariantKey::Catchall,
                ],
                "ok",
            ),
            text_variant(vec![VariantKey::Catchall], "short"),
        ],
    };

    assert!(message.check_variant_keys().is_err());

    let consistent = SelectMessage {
        declarations: vec![],
        selectors: vec![Expression::Variable(variable_expression("a"))],
        variants: vec![text_variant(vec![VariantKey::Catchall], "ok")],
    };

    assert!(consistent.check_variant_keys().is_ok());
}

// A select message with no all-catch-all variant is flagged as missing its
// fallback variant.
#[test]
fn missing_fallback_variant_is_flagged() {
    let missing = SelectMessage {
        declarations: vec![],
        selectors: vec![Expression::Variable(variable_expression("n"))],
        variants: vec![
            text_variant(
                vec![VariantKey::Literal(Literal { value: "1".into() })],
                "one",
            ),
            text_variant(
                vec![VariantKey::Literal(Literal { value: "2".into() })],
                "two",
            ),
        ],
    };

    assert!(missing.check_fallback_variant().is_err());

    let covered = SelectMessage {
        declarations: vec![],
        selectors: vec![Expression::Variable(variable_expression("n"))],
        variants: vec![
            text_variant(
                vec![VariantKey::Literal(Literal { value: "1".into() })],
                "one",
            ),
            text_variant(vec![VariantKey::Catchall], "many"),
        ],
    };

    assert!(covered.check_fallback_variant().is_ok());
}

// A select message with a function selector and declarations: declarations
// and the match block are separated by a single newline, with no blank
// line.
#[test]
fn select_message_with_function_selector() {
    let message = SelectMessage {
        declarations: vec![Declaration::Input(InputDeclaration {
            name: "n".into(),
            value: variable_expression("n"),
        })],
        selectors: vec![Expression::Function(FunctionExpression {
            annotation: FunctionAnnotation {
                name: "plural".into(),
                options: vec![],
            },
            attributes: vec![],
        })],
        variants: vec![text_variant(vec![VariantKey::Catchall], "x")],
    };

    assert_eq!(
        message.to_string(),
        ".input n={$n}\n.match {:plural}\n* {{x}}"
    );
}

// The message root dispatches to whichever form it holds.
#[test]
fn message_root_dispatch() {
    let pattern = Message::Pattern(PatternMessage {
        declarations: vec![],
        pattern: vec![PatternElement::Literal("hi".into())],
    });
    assert_eq!(pattern.to_string(), "hi");

    let markup_pattern = Message::Pattern(PatternMessage {
        declarations: vec![],
        pattern: vec![
            PatternElement::Markup(Markup {
                kind: MarkupKind::Open,
                name: "b".into(),
                options: vec![],
                attributes: vec![],
            }),
            PatternElement::Literal("bold".into()),
            PatternElement::Markup(Markup {
                kind: MarkupKind::Close,
                name: "b".into(),
                options: vec![],
                attributes: vec![],
            }),
        ],
    });
    assert_eq!(markup_pattern.to_string(), "{#b}bold{/b}");
}
