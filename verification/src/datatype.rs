//! The shape model: what a data type looks like, as a value.

use crate::specta_id::{ImplLocation, SpectaID, SpectaIDView};
use vstd::prelude::*;

verus! {

/// The scalar kinds.
#[derive(Debug, Clone, Copy, PartialEq, Eq, Structural)]
pub enum PrimitiveType {
    I8,
    I16,
    I32,
    I64,
    I128,
    Isize,
    U8,
    U16,
    U32,
    U64,
    U128,
    Usize,
    F32,
    F64,
    Bool,
    Char,
    String,
}

/// A shape that stands for itself and carries no value.
#[derive(Debug, Clone, Copy, PartialEq, Eq, Structural)]
pub enum LiteralType {
    /// The shape of a unit or empty type.
    Unit,
}

/// One field of a struct or of an enum variant.
#[derive(Debug, PartialEq, Eq)]
pub struct Field {
    /// The field is left out of what is exported.
    pub skip: bool,
    /// The field may be absent.
    pub optional: bool,
    /// The fields of this field's shape are merged into the fields around it.
    pub flatten: bool,
    /// Why the field should no longer be used, if it should not.
    pub deprecated: Option<String>,
    /// The documentation of the field.
    pub docs: String,
    /// The shape of the field.
    pub ty: DataType,
}

/// The fields of a struct or the payload of an enum variant.
#[derive(Debug, PartialEq, Eq)]
pub enum Fields {
    /// No payload at all.
    Unit,
    /// Fields known by their position. A single one is a transparent wrapper
    /// around its shape.
    Unnamed(Vec<Field>),
    /// Fields known by their name, in the order of their declaration.
    Named(Vec<(String, Field)>),
}

/// A struct: its name, the names of its generic parameters, and its fields.
#[derive(Debug, PartialEq, Eq)]
pub struct StructType {
    pub name: String,
    pub generics: Vec<String>,
    pub fields: Fields,
}

/// How the variant of an enum value is told from the others.
#[derive(Debug, PartialEq, Eq)]
pub enum EnumRepr {
    /// The variant's name is the key of the payload.
    External,
    /// The variant's name is stored under `tag`, beside the payload's fields.
    Internal { tag: String },
    /// The variant's name is stored under `tag`, the payload under `content`.
    Adjacent { tag: String, content: String },
    /// Nothing but the payload's shape tells the variants apart.
    Untagged,
}

/// One variant of an enum.
#[derive(Debug, PartialEq, Eq)]
pub struct EnumVariant {
    pub name: String,
    /// The variant is left out of what is exported.
    pub skip: bool,
    /// The documentation of the variant.
    pub docs: String,
    /// Why the variant should no longer be used, if it should not.
    pub deprecated: Option<String>,
    /// The payload.
    pub fields: Fields,
}

/// An enum: its name, its representation, the names of its generic
/// parameters, and its variants in the order of their declaration.
#[derive(Debug, PartialEq, Eq)]
pub struct EnumType {
    pub name: String,
    pub repr: EnumRepr,
    pub generics: Vec<String>,
    pub variants: Vec<EnumVariant>,
}

/// A pointer to a named definition: its name, its identity, and the shapes
/// that take the place of its generic parameters.
#[derive(Debug, PartialEq, Eq)]
pub struct DataTypeReference {
    pub name: String,
    pub sid: SpectaID,
    pub generics: Vec<DataType>,
}

/// The shape of a data type.
#[derive(Debug, PartialEq, Eq)]
pub enum DataType {
    /// A value of which nothing is known.
    Any,
    Primitive(PrimitiveType),
    Literal(LiteralType),
    /// An ordered collection of one element shape.
    List(Box<DataType>),
    /// An unordered collection of one element shape.
    Unordered(Box<DataType>),
    /// A mapping from a key shape to a value shape.
    Record(Box<DataType>, Box<DataType>),
    /// A value that may be missing.
    Nullable(Box<DataType>),
    /// A sequence of fixed length, each position with its own shape.
    Tuple(Vec<DataType>),
    /// A success or a failure, each with its own shape.
    Result(Box<DataType>, Box<DataType>),
    /// One of two shapes, neither of which stands for success.
    Either(Box<DataType>, Box<DataType>),
    Struct(StructType),
    Enum(EnumType),
    /// The name of a generic parameter that no shape has replaced yet.
    Generic(String),
    /// A named definition, referred to and not repeated.
    Reference(DataTypeReference),
}

/// A named definition with what is needed to export it.
#[derive(Debug, PartialEq, Eq)]
pub struct DataTypeExt {
    /// The name under which the definition is exported.
    pub name: String,
    /// The documentation of the type.
    pub docs: String,
    /// The identity of the type.
    pub sid: SpectaID,
    /// Where the type was declared.
    pub impl_location: ImplLocation,
    /// Whether the definition is exported; `None` leaves it to the configuration.
    pub export: Option<bool>,
    /// The shape of the type.
    pub inner: DataType,
}

pub ghost struct FieldView {
    pub skip: bool,
    pub optional: bool,
    pub flatten: bool,
    pub deprecated: Option<Seq<char>>,
    pub docs: Seq<char>,
    pub ty: DataTypeView,
}

pub ghost enum FieldsView {
    Unit,
    Unnamed(Seq<FieldView>),
    Named(Seq<(Seq<char>, FieldView)>),
}

pub ghost struct StructTypeView {
    pub name: Seq<char>,
    pub generics: Seq<Seq<char>>,
    pub fields: FieldsView,
}

pub ghost enum EnumReprView {
    External,
    Internal { tag: Seq<char> },
    Adjacent { tag: Seq<char>, content: Seq<char> },
    Untagged,
}

pub ghost struct EnumVariantView {
    pub name: Seq<char>,
    pub skip: bool,
    pub docs: Seq<char>,
    pub deprecated: Option<Seq<char>>,
    pub fields: FieldsView,
}

pub ghost struct EnumTypeView {
    pub name: Seq<char>,
    pub repr: EnumReprView,
    pub generics: Seq<Seq<char>>,
    pub variants: Seq<EnumVariantView>,
}

pub ghost struct DataTypeReferenceView {
    pub name: Seq<char>,
    pub sid: SpectaIDView,
    pub generics: Seq<DataTypeView>,
}

pub ghost enum DataTypeView {
    Any,
    Primitive(PrimitiveType),
    Literal(LiteralType),
    List(Box<DataTypeView>),
    Unordered(Box<DataTypeView>),
    Record(Box<DataTypeView>, Box<DataTypeView>),
    Nullable(Box<DataTypeView>),
    Tuple(Seq<DataTypeView>),
    Result(Box<DataTypeView>, Box<DataTypeView>),
    Either(Box<DataTypeView>, Box<DataTypeView>),
    Struct(StructTypeView),
    Enum(EnumTypeView),
    Generic(Seq<char>),
    Reference(DataTypeReferenceView),
}

pub ghost struct DataTypeExtView {
    pub name: Seq<char>,
    pub docs: Seq<char>,
    pub sid: SpectaIDView,
    pub impl_location: Seq<char>,
    pub export: Option<bool>,
    pub inner: DataTypeView,
}

/// What a list of names holds.
pub open spec fn view_names(v: Vec<String>) -> Seq<Seq<char>> {
    Seq::new(v@.len(), |i: int| v@[i]@)
}

/// What an optional text holds.
pub open spec fn view_note(n: Option<String>) -> Option<Seq<char>> {
    match n {
        Some(s) => Some(s@),
        None => None,
    }
}

pub open spec fn view_repr(r: EnumRepr) -> EnumReprView {
    match r {
        EnumRepr::External => EnumReprView::External,
        EnumRepr::Internal { tag } => EnumReprView::Internal { tag: tag@ },
        EnumRepr::Adjacent { tag, content } => EnumReprView::Adjacent {
            tag: tag@,
            content: content@,
        },
        EnumRepr::Untagged => EnumReprView::Untagged,
    }
}

pub open spec fn view_types(v: Vec<DataType>) -> Seq<DataTypeView>
    decreases v,
{
    Seq::new(
        v@.len(),
        |i: int|
            if 0 <= i < v@.len() {
                view_datatype(v@[i])
            } else {
                DataTypeView::Any
            },
    )
}

pub open spec fn view_field(f: Field) -> FieldView
    decreases f,
{
    FieldView {
        skip: f.skip,
        optional: f.optional,
        flatten: f.flatten,
        deprecated: view_note(f.deprecated),
        docs: f.docs@,
        ty: view_datatype(f.ty),
    }
}

pub open spec fn view_unnamed(v: Vec<Field>) -> Seq<FieldView>
    decreases v,
{
    Seq::new(
        v@.len(),
        |i: int|
            if 0 <= i < v@.len() {
                view_field(v@[i])
            } else {
                arbitrary()
            },
    )
}

pub open spec fn view_named(v: Vec<(String, Field)>) -> Seq<(Seq<char>, FieldView)>
    decreases v,
{
    Seq::new(
        v@.len(),
        |i: int|
            if 0 <= i < v@.len() {
                (v@[i].0@, view_field(v@[i].1))
            } else {
                arbitrary()
            },
    )
}

pub open spec fn view_fields(f: Fields) -> FieldsView
    decreases f,
{
    match f {
        Fields::Unit => FieldsView::Unit,
        Fields::Unnamed(v) => FieldsView::Unnamed(view_unnamed(v)),
        Fields::Named(v) => FieldsView::Named(view_named(v)),
    }
}

pub open spec fn view_variant(v: EnumVariant) -> EnumVariantView
    decreases v,
{
    EnumVariantView {
        name: v.name@,
        skip: v.skip,
        docs: v.docs@,
        deprecated: view_note(v.deprecated),
        fields: view_fields(v.fields),
    }
}

pub open spec fn view_variants(v: Vec<EnumVariant>) -> Seq<EnumVariantView>
    decreases v,
{
    Seq::new(
        v@.len(),
        |i: int|
            if 0 <= i < v@.len() {
                view_variant(v@[i])
            } else {
                arbitrary()
            },
    )
}

pub open spec fn view_datatype(d: DataType) -> DataTypeView
    decreases d,
{
    match d {
        DataType::Any => DataTypeView::Any,
        DataType::Primitive(p) => DataTypeView::Primitive(p),
        DataType::Literal(l) => DataTypeView::Literal(l),
        DataType::List(e) => DataTypeView::List(Box::new(view_datatype(*e))),
        DataType::Unordered(e) => DataTypeView::Unordered(Box::new(view_datatype(*e))),
        DataType::Record(k, v) => DataTypeView::Record(
            Box::new(view_datatype(*k)),
            Box::new(view_datatype(*v)),
        ),
        DataType::Nullable(e) => DataTypeView::Nullable(Box::new(view_datatype(*e))),
        DataType::Tuple(v) => DataTypeView::Tuple(view_types(v)),
        DataType::Result(a, b) => DataTypeView::Result(
            Box::new(view_datatype(*a)),
            Box::new(view_datatype(*b)),
        ),
        DataType::Either(a, b) => DataTypeView::Either(
            Box::new(view_datatype(*a)),
            Box::new(view_datatype(*b)),
        ),
        DataType::Struct(s) => DataTypeView::Struct(
            StructTypeView {
                name: s.name@,
                generics: view_names(s.generics),
                fields: view_fields(s.fields),
            },
        ),
        DataType::Enum(e) => DataTypeView::Enum(
            EnumTypeView {
                name: e.name@,
                repr: view_repr(e.repr),
                generics: view_names(e.generics),
                variants: view_variants(e.variants),
            },
        ),
        DataType::Generic(n) => DataTypeView::Generic(n@),
        DataType::Reference(r) => DataTypeView::Reference(
            DataTypeReferenceView { name: r.name@, sid: r.sid@, generics: view_types(r.generics) },
        ),
    }
}

impl View for Field {
    type V = FieldView;

    open spec fn view(&self) -> FieldView {
        view_field(*self)
    }
}

impl View for Fields {
    type V = FieldsView;

    open spec fn view(&self) -> FieldsView {
        view_fields(*self)
    }
}

impl View for EnumVariant {
    type V = EnumVariantView;

    open spec fn view(&self) -> EnumVariantView {
        view_variant(*self)
    }
}

impl View for DataTypeReference {
    type V = DataTypeReferenceView;

    open spec fn view(&self) -> DataTypeReferenceView {
        DataTypeReferenceView {
            name: self.name@,
            sid: self.sid@,
            generics: view_types(self.generics),
        }
    }
}

impl View for DataType {
    type V = DataTypeView;

    open spec fn view(&self) -> DataTypeView {
        view_datatype(*self)
    }
}

impl View for DataTypeExt {
    type V = DataTypeExtView;

    open spec fn view(&self) -> DataTypeExtView {
        DataTypeExtView {
            name: self.name@,
            docs: self.docs@,
            sid: self.sid@,
            impl_location: self.impl_location@,
            export: self.export,
            inner: view_datatype(self.inner),
        }
    }
}

} // verus!
