//! The document model: an ordered list of top-level definitions, each a
//! schema block or a type definition.  Every node is paired with a
//! specification-level mirror (`Spec*`) holding mathematical sequences in
//! place of vectors and strings; contracts speak of those mirrors through
//! `View` / `DeepView`.

use vstd::prelude::*;
use crate::position::Pos;

verus! {

/// A reference to a type by name; no resolution is performed at parse time.
pub type NamedType = String;

/// An attached annotation, opaque to the grammar rules: `@` followed by a
/// name.
#[derive(Clone, Debug, PartialEq, Eq)]
pub struct Directive {
    pub position: Pos,
    pub name: String,
}

#[verifier::ext_equal]
pub struct SpecDirective {
    pub position: Pos,
    pub name: Seq<char>,
}

impl View for Directive {
    type V = SpecDirective;

    open spec fn view(&self) -> SpecDirective {
        SpecDirective { position: self.position, name: self.name@ }
    }
}

impl DeepView for Directive {
    type V = SpecDirective;

    open spec fn deep_view(&self) -> SpecDirective {
        self.view()
    }
}

/// A field of an object type.  Field-list parsing is deliberately not part
/// of this grammar, so no rule here ever constructs one and every parsed
/// object type carries an empty field list.
#[derive(Clone, Debug, PartialEq, Eq)]
pub struct Field {
    pub position: Pos,
    pub name: String,
}

#[verifier::ext_equal]
pub struct SpecField {
    pub position: Pos,
    pub name: Seq<char>,
}

impl View for Field {
    type V = SpecField;

    open spec fn view(&self) -> SpecField {
        SpecField { position: self.position, name: self.name@ }
    }
}

impl DeepView for Field {
    type V = SpecField;

    open spec fn deep_view(&self) -> SpecField {
        self.view()
    }
}

/// A `schema { ... }` block: optional directives and at most one type name
/// for each of the three operation roles.
#[derive(Clone, Debug, PartialEq, Eq)]
pub struct SchemaDefinition {
    pub position: Pos,
    pub directives: Vec<Directive>,
    pub query: Option<NamedType>,
    pub mutation: Option<NamedType>,
    pub subscription: Option<NamedType>,
}

#[verifier::ext_equal]
pub struct SpecSchemaDefinition {
    pub position: Pos,
    pub directives: Seq<SpecDirective>,
    pub query: Option<Seq<char>>,
    pub mutation: Option<Seq<char>>,
    pub subscription: Option<Seq<char>>,
}

impl View for SchemaDefinition {
    type V = SpecSchemaDefinition;

    open spec fn view(&self) -> SpecSchemaDefinition {
        SpecSchemaDefinition {
            position: self.position,
            directives: self.directives.deep_view(),
            query: self.query.deep_view(),
            mutation: self.mutation.deep_view(),
            subscription: self.subscription.deep_view(),
        }
    }
}

impl DeepView for SchemaDefinition {
    type V = SpecSchemaDefinition;

    open spec fn deep_view(&self) -> SpecSchemaDefinition {
        self.view()
    }
}

/// A `scalar Name` definition.
#[derive(Clone, Debug, PartialEq, Eq)]
pub struct ScalarType {
    pub position: Pos,
    pub description: Option<String>,
    pub name: String,
    pub directives: Vec<Directive>,
}

#[verifier::ext_equal]
pub struct SpecScalarType {
    pub position: Pos,
    pub description: Option<Seq<char>>,
    pub name: Seq<char>,
    pub directives: Seq<SpecDirective>,
}

impl View for ScalarType {
    type V = SpecScalarType;

    open spec fn view(&self) -> SpecScalarType {
        SpecScalarType {
            position: self.position,
            description: self.description.deep_view(),
            name: self.name@,
            directives: self.directives.deep_view(),
        }
    }
}

impl DeepView for ScalarType {
    type V = SpecScalarType;

    open spec fn deep_view(&self) -> SpecScalarType {
        self.view()
    }
}

/// A `type Name implements ...` definition.  The field list is always
/// empty: field parsing lies outside this grammar.
#[derive(Clone, Debug, PartialEq, Eq)]
pub struct ObjectType {
    pub position: Pos,
    pub description: Option<String>,
    pub name: String,
    pub implements_interfaces: Vec<NamedType>,
    pub directives: Vec<Directive>,
    pub fields: Vec<Field>,
}

#[verifier::ext_equal]
pub struct SpecObjectType {
    pub position: Pos,
    pub description: Option<Seq<char>>,
    pub name: Seq<char>,
    pub implements_interfaces: Seq<Seq<char>>,
    pub directives: Seq<SpecDirective>,
    pub fields: Seq<SpecField>,
}

impl View for ObjectType {
    type V = SpecObjectType;

    open spec fn view(&self) -> SpecObjectType {
        SpecObjectType {
            position: self.position,
            description: self.description.deep_view(),
            name: self.name@,
            implements_interfaces: self.implements_interfaces.deep_view(),
            directives: self.directives.deep_view(),
            fields: self.fields.deep_view(),
        }
    }
}

impl DeepView for ObjectType {
    type V = SpecObjectType;

    open spec fn deep_view(&self) -> SpecObjectType {
        self.view()
    }
}

/// An `interface` definition.  No rule of this grammar constructs one; the
/// variant exists so that the description patch in `type_definition` stays
/// exhaustive when such a rule is added.
#[derive(Clone, Debug, PartialEq, Eq)]
pub struct InterfaceType {
    pub position: Pos,
    pub description: Option<String>,
    pub name: String,
    pub directives: Vec<Directive>,
}

#[verifier::ext_equal]
pub struct SpecInterfaceType {
    pub position: Pos,
    pub description: Option<Seq<char>>,
    pub name: Seq<char>,
    pub directives: Seq<SpecDirective>,
}

impl View for InterfaceType {
    type V = SpecInterfaceType;

    open spec fn view(&self) -> SpecInterfaceType {
        SpecInterfaceType {
            position: self.position,
            description: self.description.deep_view(),
            name: self.name@,
            directives: self.directives.deep_view(),
        }
    }
}

impl DeepView for InterfaceType {
    type V = SpecInterfaceType;

    open spec fn deep_view(&self) -> SpecInterfaceType {
        self.view()
    }
}

/// A `union` definition; constructed by no rule of this grammar.
#[derive(Clone, Debug, PartialEq, Eq)]
pub struct UnionType {
    pub position: Pos,
    pub description: Option<String>,
    pub name: String,
    pub directives: Vec<Directive>,
}

#[verifier::ext_equal]
pub struct SpecUnionType {
    pub position: Pos,
    pub description: Option<Seq<char>>,
    pub name: Seq<char>,
    pub directives: Seq<SpecDirective>,
}

impl View for UnionType {
    type V = SpecUnionType;

    open spec fn view(&self) -> SpecUnionType {
        SpecUnionType {
            position: self.position,
            description: self.description.deep_view(),
            name: self.name@,
            directives: self.directives.deep_view(),
        }
    }
}

impl DeepView for UnionType {
    type V = SpecUnionType;

    open spec fn deep_view(&self) -> SpecUnionType {
        self.view()
    }
}

/// An `enum` definition; constructed by no rule of this grammar.
#[derive(Clone, Debug, PartialEq, Eq)]
pub struct EnumType {
    pub position: Pos,
    pub description: Option<String>,
    pub name: String,
    pub directives: Vec<Directive>,
}

#[verifier::ext_equal]
pub struct SpecEnumType {
    pub position: Pos,
    pub description: Option<Seq<char>>,
    pub name: Seq<char>,
    pub directives: Seq<SpecDirective>,
}

impl View for EnumType {
    type V = SpecEnumType;

    open spec fn view(&self) -> SpecEnumType {
        SpecEnumType {
            position: self.position,
            description: self.description.deep_view(),
            name: self.name@,
            directives: self.directives.deep_view(),
        }
    }
}

impl DeepView for EnumType {
    type V = SpecEnumType;

    open spec fn deep_view(&self) -> SpecEnumType {
        self.view()
    }
}

/// An `input` object definition; constructed by no rule of this grammar.
#[derive(Clone, Debug, PartialEq, Eq)]
pub struct InputObjectType {
    pub position: Pos,
    pub description: Option<String>,
    pub name: String,
    pub directives: Vec<Directive>,
}

#[verifier::ext_equal]
pub struct SpecInputObjectType {
    pub position: Pos,
    pub description: Option<Seq<char>>,
    pub name: Seq<char>,
    pub directives: Seq<SpecDirective>,
}

impl View for InputObjectType {
    type V = SpecInputObjectType;

    open spec fn view(&self) -> SpecInputObjectType {
        SpecInputObjectType {
            position: self.position,
            description: self.description.deep_view(),
            name: self.name@,
            directives: self.directives.deep_view(),
        }
    }
}

impl DeepView for InputObjectType {
    type V = SpecInputObjectType;

    open spec fn deep_view(&self) -> SpecInputObjectType {
        self.view()
    }
}

/// The tagged union of type definitions.  Only `Scalar` and `Object` are
/// produced by the rules of this grammar; the remaining variants keep the
/// union, and every match over it, ready for further rules.
#[derive(Clone, Debug, PartialEq, Eq)]
pub enum TypeDefinition {
    Scalar(ScalarType),
    Object(ObjectType),
    Interface(InterfaceType),
    Union(UnionType),
    Enum(EnumType),
    InputObject(InputObjectType),
}

#[verifier::ext_equal]
pub enum SpecTypeDefinition {
    Scalar(SpecScalarType),
    Object(SpecObjectType),
    Interface(SpecInterfaceType),
    Union(SpecUnionType),
    Enum(SpecEnumType),
    InputObject(SpecInputObjectType),
}

impl View for TypeDefinition {
    type V = SpecTypeDefinition;

    open spec fn view(&self) -> SpecTypeDefinition {
        match self {
            TypeDefinition::Scalar(t) => SpecTypeDefinition::Scalar(t.view()),
            TypeDefinition::Object(t) => SpecTypeDefinition::Object(t.view()),
            TypeDefinition::Interface(t) => SpecTypeDefinition::Interface(t.view()),
            TypeDefinition::Union(t) => SpecTypeDefinition::Union(t.view()),
            TypeDefinition::Enum(t) => SpecTypeDefinition::Enum(t.view()),
            TypeDefinition::InputObject(t) => SpecTypeDefinition::InputObject(t.view()),
        }
    }
}

impl DeepView for TypeDefinition {
    type V = SpecTypeDefinition;

    open spec fn deep_view(&self) -> SpecTypeDefinition {
        self.view()
    }
}

/// A top-level definition: a schema block or a type definition.
#[derive(Clone, Debug, PartialEq, Eq)]
pub enum Definition {
    SchemaDefinition(SchemaDefinition),
    TypeDefinition(TypeDefinition),
}

#[verifier::ext_equal]
pub enum SpecDefinition {
    SchemaDefinition(SpecSchemaDefinition),
    TypeDefinition(SpecTypeDefinition),
}

impl View for Definition {
    type V = SpecDefinition;

    open spec fn view(&self) -> SpecDefinition {
        match self {
            Definition::SchemaDefinition(d) => SpecDefinition::SchemaDefinition(d.view()),
            Definition::TypeDefinition(d) => SpecDefinition::TypeDefinition(d.view()),
        }
    }
}

impl DeepView for Definition {
    type V = SpecDefinition;

    open spec fn deep_view(&self) -> SpecDefinition {
        self.view()
    }
}

/// A parsed document: the top-level definitions in source order.
#[derive(Clone, Debug, PartialEq, Eq)]
pub struct Document {
    pub definitions: Vec<Definition>,
}

#[verifier::ext_equal]
pub struct SpecDocument {
    pub definitions: Seq<SpecDefinition>,
}

impl View for Document {
    type V = SpecDocument;

    open spec fn view(&self) -> SpecDocument {
        SpecDocument { definitions: self.definitions.deep_view() }
    }
}

impl DeepView for Document {
    type V = SpecDocument;

    open spec fn deep_view(&self) -> SpecDocument {
        self.view()
    }
}

} // verus!
