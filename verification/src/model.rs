//! The data that generation works on: a declaration as the host wrote it,
//! with its annotations and, for a tagged union, its variants.
//!
//! Every type has a view that holds its texts as sequences of characters;
//! the contracts of the crate are stated over these views.

use vstd::prelude::*;

verus! {

/// The views of a list of texts, in the same order.
pub open spec fn texts(items: Seq<String>) -> Seq<Seq<char>> {
    items.map_values(|s: String| s@)
}

/// A field that the host declared with a name.
#[derive(Debug, Clone, PartialEq, Eq)]
pub struct NamedField {
    /// The field's name.
    pub name: String,
    /// The field's type, as written.
    pub ty: String,
}

pub struct NamedFieldView {
    pub name: Seq<char>,
    pub ty: Seq<char>,
}

impl View for NamedField {
    type V = NamedFieldView;

    open spec fn view(&self) -> NamedFieldView {
        NamedFieldView { name: self.name@, ty: self.ty@ }
    }
}

/// The fields of a variant.
#[derive(Debug, Clone, PartialEq, Eq)]
pub enum Shape {
    /// The variant carries no data and is written without a field list.
    NoFields,
    /// Anonymous slots in declaration order, each given by its type as
    /// written.
    PositionalFields(Vec<String>),
    /// Named fields in declaration order.
    NamedFields(Vec<NamedField>),
}

pub enum ShapeView {
    NoFields,
    PositionalFields(Seq<Seq<char>>),
    NamedFields(Seq<NamedFieldView>),
}

impl View for Shape {
    type V = ShapeView;

    open spec fn view(&self) -> ShapeView {
        match self {
            Shape::NoFields => ShapeView::NoFields,
            Shape::PositionalFields(slots) => ShapeView::PositionalFields(texts(slots@)),
            Shape::NamedFields(fields) => ShapeView::NamedFields(
                fields@.map_values(|f: NamedField| f@),
            ),
        }
    }
}

impl ShapeView {
    /// How many fields the shape has.
    pub open spec fn arity(self) -> nat {
        match self {
            ShapeView::NoFields => 0,
            ShapeView::PositionalFields(slots) => slots.len(),
            ShapeView::NamedFields(fields) => fields.len(),
        }
    }
}

/// One named alternative of a tagged union.
#[derive(Debug, Clone, PartialEq, Eq)]
pub struct Variant {
    /// The variant's identifier.
    pub name: String,
    /// The variant's fields.
    pub shape: Shape,
}

pub struct VariantView {
    pub name: Seq<char>,
    pub shape: ShapeView,
}

impl View for Variant {
    type V = VariantView;

    open spec fn view(&self) -> VariantView {
        VariantView { name: self.name@, shape: self.shape@ }
    }
}

/// A tagged union: its name and its variants in declaration order.
#[derive(Debug, Clone, PartialEq, Eq)]
pub struct UnionDefinition {
    pub name: String,
    pub variants: Vec<Variant>,
}

pub struct UnionDefinitionView {
    pub name: Seq<char>,
    pub variants: Seq<VariantView>,
}

impl View for UnionDefinition {
    type V = UnionDefinitionView;

    open spec fn view(&self) -> UnionDefinitionView {
        UnionDefinitionView {
            name: self.name@,
            variants: self.variants@.map_values(|v: Variant| v@),
        }
    }
}

impl UnionDefinitionView {
    /// A union is valid when no two of its variants share a name.
    pub open spec fn valid(self) -> bool {
        forall|i: int, j: int|
            0 <= i < j < self.variants.len() ==> self.variants[i].name != self.variants[j].name
    }
}

/// What follows the name of an annotation.
#[derive(Debug, Clone, PartialEq, Eq)]
pub enum AnnotationArguments {
    /// Nothing: the annotation is its name alone.
    Absent,
    /// A value assigned with `=`.
    Assigned,
    /// A delimited list, given by the text between the delimiters.
    Listed(String),
}

pub enum AnnotationArgumentsView {
    Absent,
    Assigned,
    Listed(Seq<char>),
}

impl View for AnnotationArguments {
    type V = AnnotationArgumentsView;

    open spec fn view(&self) -> AnnotationArgumentsView {
        match self {
            AnnotationArguments::Absent => AnnotationArgumentsView::Absent,
            AnnotationArguments::Assigned => AnnotationArgumentsView::Assigned,
            AnnotationArguments::Listed(text) => AnnotationArgumentsView::Listed(text@),
        }
    }
}

/// An annotation on a declaration.
#[derive(Debug, Clone, PartialEq, Eq)]
pub struct Annotation {
    /// The annotation's path, as written.
    pub name: String,
    /// What follows the path.
    pub arguments: AnnotationArguments,
}

pub struct AnnotationView {
    pub name: Seq<char>,
    pub arguments: AnnotationArgumentsView,
}

impl View for Annotation {
    type V = AnnotationView;

    open spec fn view(&self) -> AnnotationView {
        AnnotationView { name: self.name@, arguments: self.arguments@ }
    }
}

/// The views of a list of annotations, in the same order.
pub open spec fn annotation_views(items: Seq<Annotation>) -> Seq<AnnotationView> {
    items.map_values(|a: Annotation| a@)
}

/// A declaration that the host put the generator on.
#[derive(Debug, Clone, PartialEq, Eq)]
pub enum Declaration {
    /// A tagged union, with the annotations written on it.
    TaggedUnion { annotations: Vec<Annotation>, definition: UnionDefinition },
    /// A record type, which has fields but no variants.
    Record { name: String },
    /// An untagged union.
    UntaggedUnion { name: String },
}

pub enum DeclarationView {
    TaggedUnion { annotations: Seq<AnnotationView>, definition: UnionDefinitionView },
    Record { name: Seq<char> },
    UntaggedUnion { name: Seq<char> },
}

impl DeclarationView {
    /// The name of the declared type.
    pub open spec fn name(self) -> Seq<char> {
        match self {
            DeclarationView::TaggedUnion { definition, .. } => definition.name,
            DeclarationView::Record { name } => name,
            DeclarationView::UntaggedUnion { name } => name,
        }
    }
}

impl View for Declaration {
    type V = DeclarationView;

    open spec fn view(&self) -> DeclarationView {
        match self {
            Declaration::TaggedUnion { annotations, definition } => DeclarationView::TaggedUnion {
                annotations: annotation_views(annotations@),
                definition: definition@,
            },
            Declaration::Record { name } => DeclarationView::Record { name: name@ },
            Declaration::UntaggedUnion { name } => DeclarationView::UntaggedUnion { name: name@ },
        }
    }
}

} // verus!
