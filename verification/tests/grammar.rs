use graphql_parser::position::Pos;
use graphql_parser::schema::ast::{
    Definition, Directive, Document, ObjectType, ScalarType, SchemaDefinition, TypeDefinition,
};
use graphql_parser::schema::error::ParseError;
use graphql_parser::schema::grammar::parse_schema;

fn ast(s: &str) -> Document {
    parse_schema(s).unwrap()
}

fn errors_of(s: &str) -> Vec<ParseError> {
    parse_schema(s).unwrap_err().errors
}

#[test]
fn one_field() {
    assert_eq!(
        ast("schema { query: Query }"),
        Document {
            definitions: vec![Definition::SchemaDefinition(SchemaDefinition {
                position: Pos { line: 1, column: 1 },
                directives: vec![],
                query: Some("Query".into()),
                mutation: None,
                subscription: None,
            })],
        }
    );
}

#[test]
fn all_roles_recorded() {
    assert_eq!(
        ast("schema { query: Q mutation: M subscription: S }"),
        Document {
            definitions: vec![Definition::SchemaDefinition(SchemaDefinition {
                position: Pos { line: 1, column: 1 },
                directives: vec![],
                query: Some("Q".into()),
                mutation: Some("M".into()),
                subscription: Some("S".into()),
            })],
        }
    );
}

#[test]
fn commas_are_separators() {
    assert_eq!(
        ast("schema { query: Q, mutation: M }"),
        Document {
            definitions: vec![Definition::SchemaDefinition(SchemaDefinition {
                position: Pos { line: 1, column: 1 },
                directives: vec![],
                query: Some("Q".into()),
                mutation: Some("M".into()),
                subscription: None,
            })],
        }
    );
}

#[test]
fn duplicate_query_reported() {
    let errs = errors_of("schema { query: A query: B }");
    assert!(errs.iter().any(|e| matches!(
        e,
        ParseError::DuplicateOperationRole { role, position }
            if role == "query" && *position == Pos { line: 1, column: 19 }
    )));
}

#[test]
fn duplicate_does_not_lose_other_roles() {
    // The block still fails as a whole, with exactly one diagnostic.
    let err = parse_schema("schema { query: A query: B }").unwrap_err();
    assert_eq!(err.position, Pos { line: 1, column: 1 });
    assert_eq!(err.errors.len(), 1);
}

#[test]
fn duplicate_mutation_and_subscription_reported() {
    let errs = errors_of("schema { mutation: A mutation: B }");
    assert!(errs.iter().any(|e| matches!(
        e,
        ParseError::DuplicateOperationRole { role, .. } if role == "mutation"
    )));
    let errs = errors_of("schema { subscription: A subscription: B }");
    assert!(errs.iter().any(|e| matches!(
        e,
        ParseError::DuplicateOperationRole { role, .. } if role == "subscription"
    )));
}

#[test]
fn empty_schema_block() {
    assert_eq!(
        ast("schema { }"),
        Document {
            definitions: vec![Definition::SchemaDefinition(SchemaDefinition {
                position: Pos { line: 1, column: 1 },
                directives: vec![],
                query: None,
                mutation: None,
                subscription: None,
            })],
        }
    );
}

#[test]
fn invalid_role_reported_with_expectations() {
    let errs = errors_of("schema { foo: Bar }");
    let at = Pos { line: 1, column: 10 };
    assert!(errs.iter().any(|e| matches!(
        e,
        ParseError::InvalidOperationRole { found, position } if found == "foo" && *position == at
    )));
    for kw in ["query", "mutation", "subscription"] {
        assert!(errs.iter().any(|e| matches!(
            e,
            ParseError::ExpectedOneOf { alternatives, position }
                if alternatives.len() == 1 && alternatives[0] == kw && *position == at
        )));
    }
    assert_eq!(errs.len(), 4);
}

#[test]
fn scalar_definition() {
    assert_eq!(
        ast("scalar Foo"),
        Document {
            definitions: vec![Definition::TypeDefinition(TypeDefinition::Scalar(ScalarType {
                position: Pos { line: 1, column: 1 },
                description: None,
                name: "Foo".into(),
                directives: vec![],
            }))],
        }
    );
}

#[test]
fn described_scalar() {
    assert_eq!(
        ast("\"desc\" scalar Foo"),
        Document {
            definitions: vec![Definition::TypeDefinition(TypeDefinition::Scalar(ScalarType {
                position: Pos { line: 1, column: 8 },
                description: Some("desc".into()),
                name: "Foo".into(),
                directives: vec![],
            }))],
        }
    );
}

#[test]
fn object_implements_in_order() {
    assert_eq!(
        ast("type A implements B & C"),
        Document {
            definitions: vec![Definition::TypeDefinition(TypeDefinition::Object(ObjectType {
                position: Pos { line: 1, column: 1 },
                description: None,
                name: "A".into(),
                implements_interfaces: vec!["B".into(), "C".into()],
                directives: vec![],
                fields: vec![],
            }))],
        }
    );
}

#[test]
fn leading_ampersand_is_cosmetic() {
    let doc = ast("type A implements & B & C");
    match &doc.definitions[0] {
        Definition::TypeDefinition(TypeDefinition::Object(o)) => {
            assert_eq!(o.implements_interfaces, vec!["B".to_string(), "C".to_string()]);
        }
        other => panic!("not an object type: {:?}", other),
    }
}

#[test]
fn described_object() {
    let doc = ast("\"d\" type A");
    match &doc.definitions[0] {
        Definition::TypeDefinition(TypeDefinition::Object(o)) => {
            assert_eq!(o.description, Some("d".to_string()));
            assert_eq!(o.name, "A");
            assert_eq!(o.fields, vec![]);
        }
        other => panic!("not an object type: {:?}", other),
    }
}

#[test]
fn directives_attached_to_scalar() {
    assert_eq!(
        ast("scalar Foo @deprecated"),
        Document {
            definitions: vec![Definition::TypeDefinition(TypeDefinition::Scalar(ScalarType {
                position: Pos { line: 1, column: 1 },
                description: None,
                name: "Foo".into(),
                directives: vec![Directive {
                    position: Pos { line: 1, column: 12 },
                    name: "deprecated".into(),
                }],
            }))],
        }
    );
}

#[test]
fn directives_attached_to_schema() {
    assert_eq!(
        ast("schema @strict { query: Q }"),
        Document {
            definitions: vec![Definition::SchemaDefinition(SchemaDefinition {
                position: Pos { line: 1, column: 1 },
                directives: vec![Directive {
                    position: Pos { line: 1, column: 8 },
                    name: "strict".into(),
                }],
                query: Some("Q".into()),
                mutation: None,
                subscription: None,
            })],
        }
    );
}

#[test]
fn definitions_keep_source_order() {
    let doc = ast("scalar A\nscalar B\ntype C");
    assert_eq!(doc.definitions.len(), 3);
    let names: Vec<String> = doc
        .definitions
        .iter()
        .map(|d| match d {
            Definition::TypeDefinition(TypeDefinition::Scalar(s)) => s.name.clone(),
            Definition::TypeDefinition(TypeDefinition::Object(o)) => o.name.clone(),
            other => panic!("unexpected definition: {:?}", other),
        })
        .collect();
    assert_eq!(names, vec!["A".to_string(), "B".to_string(), "C".to_string()]);
    match &doc.definitions[1] {
        Definition::TypeDefinition(TypeDefinition::Scalar(s)) => {
            assert_eq!(s.position, Pos { line: 2, column: 1 });
        }
        other => panic!("not a scalar: {:?}", other),
    }
}

#[test]
fn empty_input_fails() {
    let errs = errors_of("");
    assert!(errs.iter().any(|e| matches!(e, ParseError::UnexpectedEnd { .. })));
}

#[test]
fn blank_input_fails() {
    assert!(parse_schema(" \n\t ").is_err());
}

#[test]
fn trailing_garbage_fails() {
    assert!(parse_schema("scalar Foo }").is_err());
    assert!(parse_schema("schema { query: Q } &").is_err());
}

#[test]
fn missing_colon_fails() {
    let errs = errors_of("schema { query Query }");
    assert!(errs.iter().any(|e| matches!(
        e,
        ParseError::UnexpectedToken { found, .. } if found == "Query"
    )));
}

#[test]
fn truncated_scalar_fails() {
    let errs = errors_of("scalar");
    assert!(errs.iter().any(|e| matches!(e, ParseError::UnexpectedEnd { .. })));
}

#[test]
fn unterminated_string_fails() {
    assert!(parse_schema("\"abc").is_err());
    assert!(parse_schema("\"a\nb\" scalar X").is_err());
}

#[test]
fn unknown_character_fails() {
    let errs = errors_of("scalar Foo %");
    assert!(errs.iter().any(|e| matches!(
        e,
        ParseError::UnexpectedToken { found, position }
            if found == "%" && *position == Pos { line: 1, column: 12 }
    )));
}

#[test]
fn unknown_keyword_fails() {
    let errs = errors_of("fragment X");
    assert!(errs.iter().any(|e| matches!(
        e,
        ParseError::ExpectedOneOf { alternatives, .. }
            if alternatives == &vec!["scalar".to_string(), "type".to_string()]
    )));
}

#[test]
fn described_unknown_keyword_fails() {
    assert!(parse_schema("\"d\" enum X").is_err());
}

#[test]
fn reparse_yields_equal_documents() {
    let text = "\"d\" scalar Foo\nschema @s { query: Q }\ntype A implements B & C @t";
    let first = ast(text);
    let second = ast(text);
    assert_eq!(first, second);
}
