//! The shapes of the types that need no declaration: scalars, the types of
//! the standard library, and the types of other libraries that are exported
//! as one of those.

use crate::datatype::{
    view_datatype, view_types, DataType, DataTypeExt, DataTypeExtView, DataTypeView, EnumRepr,
    EnumReprView, EnumType, EnumTypeView, EnumVariant, EnumVariantView, Field, FieldView, Fields,
    FieldsView, LiteralType, PrimitiveType, StructType, StructTypeView,
};
use crate::specta_id::{ImplLocation, SpectaID, SpectaIDView};
use crate::text::fingerprint_of;
use crate::ts::render;
use vstd::prelude::*;
use vstd::string::StringExecFns;

verus! {

/// The types that are exported as text.
#[derive(Debug, Clone, Copy, PartialEq, Eq, Structural)]
pub enum TextAlias {
    Str,
    CString,
    CStr,
    OsString,
    OsStr,
    Path,
    PathBuf,
    IpAddr,
    Ipv4Addr,
    Ipv6Addr,
    SocketAddr,
    SocketAddrV4,
    SocketAddrV6,
    Uuid,
    UuidHyphenated,
    NaiveDateTime,
    NaiveDate,
    NaiveTime,
    ChronoDuration,
    ChronoDateTime,
    ChronoDate,
    FixedOffset,
    Utc,
    Local,
    PrimitiveDateTime,
    OffsetDateTime,
    TimeDate,
    TimeTime,
    BigDecimal,
    Decimal,
    IpNetwork,
    Ipv4Network,
    Ipv6Network,
    MacAddress,
    ObjectId,
    BsonDateTime,
    BsonUuid,
    Url,
}

/// The atomic types, each exported as the scalar it holds.
#[derive(Debug, Clone, Copy, PartialEq, Eq, Structural)]
pub enum AtomicKind {
    Bool,
    I8,
    I16,
    I32,
    I64,
    Isize,
    U8,
    U16,
    U32,
    U64,
    Usize,
}

/// The integers that are never zero, each exported as the integer it holds.
#[derive(Debug, Clone, Copy, PartialEq, Eq, Structural)]
pub enum NonZeroKind {
    I8,
    I16,
    I32,
    I64,
    I128,
    Isize,
    U8,
    U16,
    U32,
    U64,
    U128,
    Usize,
}

/// A type that is exported as a scalar kind.
#[derive(Debug, Clone, Copy, PartialEq, Eq, Structural)]
pub enum Alias {
    Text(TextAlias),
    Atomic(AtomicKind),
    NonZero(NonZeroKind),
    /// A decimal number of 128 bits.
    Decimal128,
    /// A number of bytes.
    ByteSize,
    /// A timestamp of 64 bits.
    Ntp64,
    /// The identifier of a clock.
    ClockId,
}

/// The wrappers that own, share, lock or borrow one value. They decide how
/// long a value lives and who may change it, not what it looks like.
#[derive(Debug, Clone, Copy, PartialEq, Eq, Structural)]
pub enum Wrapper {
    Ref,
    Cow,
    Box,
    Rc,
    Arc,
    Cell,
    RefCell,
    Mutex,
    RwLock,
    AsyncMutex,
    AsyncRwLock,
}

/// The collections of one element type.
#[derive(Debug, Clone, Copy, PartialEq, Eq, Structural)]
pub enum ListKind {
    Vec,
    VecDeque,
    BinaryHeap,
    LinkedList,
    HashSet,
    BTreeSet,
    IndexSet,
    Slice,
    SliceRef,
    Array,
}

/// The collections that map keys to values.
#[derive(Debug, Clone, Copy, PartialEq, Eq, Structural)]
pub enum MapKind {
    HashMap,
    BTreeMap,
    IndexMap,
    JsonMap,
    TomlMap,
}

/// The values of which only the data at hand tells the shape.
#[derive(Debug, Clone, Copy, PartialEq, Eq, Structural)]
pub enum DynamicKind {
    JsonValue,
    YamlValue,
    YamlMapping,
    YamlTaggedValue,
    TomlValue,
}

/// The numbers that are a float, a signed or an unsigned integer.
#[derive(Debug, Clone, Copy, PartialEq, Eq, Structural)]
pub enum NumberKind {
    Json,
    Yaml,
}

/// The ranges; with or without their upper end they hold the same two bounds.
#[derive(Debug, Clone, Copy, PartialEq, Eq, Structural)]
pub enum RangeKind {
    Exclusive,
    Inclusive,
}

/// A type whose shape is known without a declaration.
#[derive(Debug, PartialEq, Eq)]
pub enum TypeExpr {
    Primitive(PrimitiveType),
    Alias(Alias),
    Dynamic(DynamicKind),
    Number(NumberKind),
    /// A marker that holds no value.
    Phantom,
    Wrapper(Wrapper, Box<TypeExpr>),
    List(ListKind, Box<TypeExpr>),
    Record(MapKind, Box<TypeExpr>, Box<TypeExpr>),
    Optional(Box<TypeExpr>),
    Result(Box<TypeExpr>, Box<TypeExpr>),
    Either(Box<TypeExpr>, Box<TypeExpr>),
    Range(RangeKind, Box<TypeExpr>),
    Tuple(Vec<TypeExpr>),
    /// A type that was resolved elsewhere, as the shape that resolving gave.
    Shape(DataType),
}

pub open spec fn atomic_target(k: AtomicKind) -> PrimitiveType {
    match k {
        AtomicKind::Bool => PrimitiveType::Bool,
        AtomicKind::I8 => PrimitiveType::I8,
        AtomicKind::I16 => PrimitiveType::I16,
        AtomicKind::I32 => PrimitiveType::I32,
        AtomicKind::I64 => PrimitiveType::I64,
        AtomicKind::Isize => PrimitiveType::Isize,
        AtomicKind::U8 => PrimitiveType::U8,
        AtomicKind::U16 => PrimitiveType::U16,
        AtomicKind::U32 => PrimitiveType::U32,
        AtomicKind::U64 => PrimitiveType::U64,
        AtomicKind::Usize => PrimitiveType::Usize,
    }
}

pub open spec fn nonzero_target(k: NonZeroKind) -> PrimitiveType {
    match k {
        NonZeroKind::I8 => PrimitiveType::I8,
        NonZeroKind::I16 => PrimitiveType::I16,
        NonZeroKind::I32 => PrimitiveType::I32,
        NonZeroKind::I64 => PrimitiveType::I64,
        NonZeroKind::I128 => PrimitiveType::I128,
        NonZeroKind::Isize => PrimitiveType::Isize,
        NonZeroKind::U8 => PrimitiveType::U8,
        NonZeroKind::U16 => PrimitiveType::U16,
        NonZeroKind::U32 => PrimitiveType::U32,
        NonZeroKind::U64 => PrimitiveType::U64,
        NonZeroKind::U128 => PrimitiveType::U128,
        NonZeroKind::Usize => PrimitiveType::Usize,
    }
}

/// The scalar kind that an alias is exported as.
pub open spec fn alias_target(a: Alias) -> PrimitiveType {
    match a {
        Alias::Text(_) => PrimitiveType::String,
        Alias::Atomic(k) => atomic_target(k),
        Alias::NonZero(k) => nonzero_target(k),
        Alias::Decimal128 => PrimitiveType::I128,
        Alias::ByteSize => PrimitiveType::U64,
        Alias::Ntp64 => PrimitiveType::U64,
        Alias::ClockId => PrimitiveType::U128,
    }
}

impl Alias {
    /// The scalar kind that this alias is exported as.
    pub fn target(&self) -> (r: PrimitiveType)
        ensures
            r == alias_target(*self),
    {
        match self {
            Alias::Text(_) => PrimitiveType::String,
            Alias::Atomic(k) => match k {
                AtomicKind::Bool => PrimitiveType::Bool,
                AtomicKind::I8 => PrimitiveType::I8,
                AtomicKind::I16 => PrimitiveType::I16,
                AtomicKind::I32 => PrimitiveType::I32,
                AtomicKind::I64 => PrimitiveType::I64,
                AtomicKind::Isize => PrimitiveType::Isize,
                AtomicKind::U8 => PrimitiveType::U8,
                AtomicKind::U16 => PrimitiveType::U16,
                AtomicKind::U32 => PrimitiveType::U32,
                AtomicKind::U64 => PrimitiveType::U64,
                AtomicKind::Usize => PrimitiveType::Usize,
            },
            Alias::NonZero(k) => match k {
                NonZeroKind::I8 => PrimitiveType::I8,
                NonZeroKind::I16 => PrimitiveType::I16,
                NonZeroKind::I32 => PrimitiveType::I32,
                NonZeroKind::I64 => PrimitiveType::I64,
                NonZeroKind::I128 => PrimitiveType::I128,
                NonZeroKind::Isize => PrimitiveType::Isize,
                NonZeroKind::U8 => PrimitiveType::U8,
                NonZeroKind::U16 => PrimitiveType::U16,
                NonZeroKind::U32 => PrimitiveType::U32,
                NonZeroKind::U64 => PrimitiveType::U64,
                NonZeroKind::U128 => PrimitiveType::U128,
                NonZeroKind::Usize => PrimitiveType::Usize,
            },
            Alias::Decimal128 => PrimitiveType::I128,
            Alias::ByteSize => PrimitiveType::U64,
            Alias::Ntp64 => PrimitiveType::U64,
            Alias::ClockId => PrimitiveType::U128,
        }
    }
}

/// A field that is exported as it stands: not skipped, not optional, not
/// flattened, not deprecated, without documentation.
pub open spec fn plain_field(ty: DataTypeView) -> FieldView {
    FieldView {
        skip: false,
        optional: false,
        flatten: false,
        deprecated: None,
        docs: Seq::empty(),
        ty,
    }
}

/// The shape of a range: a struct `Range` with the fields `start` and
/// `end`, both of the shape of the bound.
pub open spec fn range_view(bound: DataTypeView) -> DataTypeView {
    DataTypeView::Struct(
        StructTypeView {
            name: "Range"@,
            generics: Seq::empty(),
            fields: FieldsView::Named(
                seq![("start"@, plain_field(bound)), ("end"@, plain_field(bound))],
            ),
        },
    )
}

/// A variant that wraps one scalar.
pub open spec fn scalar_variant(name: Seq<char>, p: PrimitiveType) -> EnumVariantView {
    EnumVariantView {
        name,
        skip: false,
        docs: Seq::empty(),
        deprecated: None,
        fields: FieldsView::Unnamed(seq![plain_field(DataTypeView::Primitive(p))]),
    }
}

/// The shape of a number that is a float, a signed or an unsigned integer:
/// an untagged enum `Number` of the three, in this order.
pub open spec fn number_view() -> DataTypeView {
    DataTypeView::Enum(
        EnumTypeView {
            name: "Number"@,
            repr: EnumReprView::Untagged,
            generics: Seq::empty(),
            variants: seq![
                scalar_variant("f64"@, PrimitiveType::F64),
                scalar_variant("i64"@, PrimitiveType::I64),
                scalar_variant("u64"@, PrimitiveType::U64),
            ],
        },
    )
}

/// The shape at position `i` of `generics`, or `otherwise` where there is none.
pub open spec fn generic_or(generics: Seq<DataTypeView>, i: int, otherwise: DataTypeView) -> DataTypeView {
    if 0 <= i < generics.len() {
        generics[i]
    } else {
        otherwise
    }
}

/// The shapes of a tuple's positions: for each the shape that `generics`
/// gives it, else its own.
pub open spec fn inline_positions(ts: Vec<TypeExpr>, generics: Seq<DataTypeView>) -> Seq<DataTypeView>
    decreases ts,
{
    Seq::new(
        ts@.len(),
        |i: int|
            if 0 <= i < ts@.len() {
                generic_or(generics, i, inline_shape(ts@[i], generics))
            } else {
                DataTypeView::Any
            },
    )
}

/// The shape of a type. The shapes of `generics` take the place of the
/// type's own parameters, position by position: the element of a
/// collection or of an optional value, the key and the value of a map, the
/// positions of a tuple. A wrapper, a result and an either hand `generics`
/// on to what they hold; a range takes its bound as declared.
pub open spec fn inline_shape(e: TypeExpr, generics: Seq<DataTypeView>) -> DataTypeView
    decreases e,
{
    match e {
        TypeExpr::Primitive(p) => DataTypeView::Primitive(p),
        TypeExpr::Alias(a) => DataTypeView::Primitive(alias_target(a)),
        TypeExpr::Dynamic(_) => DataTypeView::Any,
        TypeExpr::Number(_) => number_view(),
        TypeExpr::Phantom => DataTypeView::Literal(LiteralType::Unit),
        TypeExpr::Wrapper(_, t) => inline_shape(*t, generics),
        TypeExpr::List(_, t) => DataTypeView::List(
            Box::new(generic_or(generics, 0, inline_shape(*t, generics))),
        ),
        TypeExpr::Record(_, k, v) => DataTypeView::Record(
            Box::new(generic_or(generics, 0, inline_shape(*k, generics))),
            Box::new(generic_or(generics, 1, inline_shape(*v, generics))),
        ),
        TypeExpr::Optional(t) => DataTypeView::Nullable(
            Box::new(generic_or(generics, 0, inline_shape(*t, generics))),
        ),
        TypeExpr::Result(t, x) => DataTypeView::Result(
            Box::new(inline_shape(*t, generics)),
            Box::new(inline_shape(*x, generics)),
        ),
        TypeExpr::Either(l, r) => DataTypeView::Either(
            Box::new(inline_shape(*l, generics)),
            Box::new(inline_shape(*r, generics)),
        ),
        TypeExpr::Range(_, t) => range_view(inline_shape(*t, Seq::empty())),
        TypeExpr::Tuple(ts) => DataTypeView::Tuple(inline_positions(ts, generics)),
        TypeExpr::Shape(d) => view_datatype(d),
    }
}

fn plain(ty: DataType) -> (f: Field)
    ensures
        f@ == plain_field(ty@),
{
    Field {
        skip: false,
        optional: false,
        flatten: false,
        deprecated: None,
        docs: String::new(),
        ty,
    }
}

/// The shape of a range with the given bound.
pub fn range_shape(bound: DataType) -> (r: DataType)
    ensures
        r@ == range_view(bound@),
{
    let start = plain(bound.duplicate());
    let end = plain(bound);
    let mut fields: Vec<(String, Field)> = Vec::new();
    fields.push((String::from_str("start"), start));
    fields.push((String::from_str("end"), end));
    let generics: Vec<String> = Vec::new();
    let r = DataType::Struct(
        StructType { name: String::from_str("Range"), generics, fields: Fields::Named(fields) },
    );
    proof {
        assert(crate::datatype::view_names(generics) =~= Seq::<Seq<char>>::empty());
        assert(crate::datatype::view_named(fields) =~= seq![
            ("start"@, plain_field(bound@)),
            ("end"@, plain_field(bound@)),
        ]);
        assert(crate::datatype::view_fields(Fields::Named(fields)) == FieldsView::Named(
            crate::datatype::view_named(fields),
        ));
    }
    r
}

fn scalar(name: &str, p: PrimitiveType) -> (v: EnumVariant)
    ensures
        v@ == scalar_variant(name@, p),
{
    let mut fields: Vec<Field> = Vec::new();
    fields.push(plain(DataType::Primitive(p)));
    let ghost f = fields;
    let v = EnumVariant {
        name: String::from_str(name),
        skip: false,
        docs: String::new(),
        deprecated: None,
        fields: Fields::Unnamed(fields),
    };
    proof {
        assert(crate::datatype::view_unnamed(f) =~= seq![plain_field(DataTypeView::Primitive(p))]);
    }
    v
}

/// The shape of a number that is a float, a signed or an unsigned integer.
pub fn number_shape() -> (r: DataType)
    ensures
        r@ == number_view(),
{
    let mut variants: Vec<EnumVariant> = Vec::new();
    variants.push(scalar("f64", PrimitiveType::F64));
    variants.push(scalar("i64", PrimitiveType::I64));
    variants.push(scalar("u64", PrimitiveType::U64));
    let generics: Vec<String> = Vec::new();
    let r = DataType::Enum(
        EnumType {
            name: String::from_str("Number"),
            repr: EnumRepr::Untagged,
            generics,
            variants,
        },
    );
    proof {
        assert(crate::datatype::view_names(generics) =~= Seq::<Seq<char>>::empty());
        assert(crate::datatype::view_variants(variants) =~= seq![
            scalar_variant("f64"@, PrimitiveType::F64),
            scalar_variant("i64"@, PrimitiveType::I64),
            scalar_variant("u64"@, PrimitiveType::U64),
        ]);
    }
    r
}

impl TypeExpr {
    /// The shape of this type, with the shapes of `generics` in the place
    /// of its own parameters.
    #[verifier::loop_isolation(false)]
    pub fn inline(&self, generics: &Vec<DataType>) -> (r: DataType)
        ensures
            r@ == inline_shape(*self, view_types(*generics)),
        decreases self,
    {
        match self {
            TypeExpr::Primitive(p) => DataType::Primitive(*p),
            TypeExpr::Alias(a) => DataType::Primitive(a.target()),
            TypeExpr::Dynamic(_) => DataType::Any,
            TypeExpr::Number(_) => number_shape(),
            TypeExpr::Phantom => DataType::Literal(LiteralType::Unit),
            TypeExpr::Wrapper(_, t) => t.inline(generics),
            TypeExpr::List(_, t) => {
                let e = if generics.len() > 0 {
                    generics[0].duplicate()
                } else {
                    t.inline(generics)
                };
                DataType::List(Box::new(e))
            },
            TypeExpr::Record(_, k, v) => {
                let key = if generics.len() > 0 {
                    generics[0].duplicate()
                } else {
                    k.inline(generics)
                };
                let value = if generics.len() > 1 {
                    generics[1].duplicate()
                } else {
                    v.inline(generics)
                };
                DataType::Record(Box::new(key), Box::new(value))
            },
            TypeExpr::Optional(t) => {
                let e = if generics.len() > 0 {
                    generics[0].duplicate()
                } else {
                    t.inline(generics)
                };
                DataType::Nullable(Box::new(e))
            },
            TypeExpr::Result(t, x) => DataType::Result(
                Box::new(t.inline(generics)),
                Box::new(x.inline(generics)),
            ),
            TypeExpr::Either(l, r) => DataType::Either(
                Box::new(l.inline(generics)),
                Box::new(r.inline(generics)),
            ),
            TypeExpr::Range(_, t) => {
                let none: Vec<DataType> = Vec::new();
                assert(view_types(none) =~= Seq::<DataTypeView>::empty());
                range_shape(t.inline(&none))
            },
            TypeExpr::Tuple(ts) => {
                let mut out: Vec<DataType> = Vec::new();
                let mut i: usize = 0;
                while i < ts.len()
                    invariant
                        i <= ts.len(),
                        out@.len() == i,
                        forall|j: int|
                            0 <= j < i ==> view_datatype(out@[j]) == inline_positions(
                                *ts,
                                view_types(*generics),
                            )[j],
                    decreases ts.len() - i,
                {
                    let e = if i < generics.len() {
                        generics[i].duplicate()
                    } else {
                        ts[i].inline(generics)
                    };
                    out.push(e);
                    i += 1;
                }
                assert(view_types(out) =~= inline_positions(*ts, view_types(*generics)));
                DataType::Tuple(out)
            },
            TypeExpr::Shape(d) => d.duplicate(),
        }
    }

    /// The shape by which this type is referred to. A type that needs no
    /// declaration has no definition to point to: it is referred to by its
    /// shape.
    pub fn reference(&self, generics: &Vec<DataType>) -> (r: DataType)
        ensures
            r@ == inline_shape(*self, view_types(*generics)),
    {
        self.inline(generics)
    }
}

/// A wrapper leaves the shape of what it holds as it is, whatever the
/// wrapper and whatever the generic arguments, and so the rendered text too.
pub proof fn lemma_wrappers_are_transparent(
    w: Wrapper,
    t: TypeExpr,
    generics: Seq<DataTypeView>,
    name: Seq<char>,
    declared: Seq<Seq<char>>,
)
    ensures
        inline_shape(TypeExpr::Wrapper(w, Box::new(t)), generics) == inline_shape(t, generics),
        render(inline_shape(TypeExpr::Wrapper(w, Box::new(t)), generics), name, declared) == render(
            inline_shape(t, generics),
            name,
            declared,
        ),
{
}

/// The kind of a collection, of a map, of a range or of a dynamic value
/// plays no part in its shape.
pub proof fn lemma_kinds_do_not_show(
    a: ListKind,
    b: ListKind,
    m: MapKind,
    n: MapKind,
    r: RangeKind,
    s: RangeKind,
    t: TypeExpr,
    u: TypeExpr,
    generics: Seq<DataTypeView>,
)
    ensures
        inline_shape(TypeExpr::List(a, Box::new(t)), generics) == inline_shape(
            TypeExpr::List(b, Box::new(t)),
            generics,
        ),
        inline_shape(TypeExpr::Record(m, Box::new(t), Box::new(u)), generics) == inline_shape(
            TypeExpr::Record(n, Box::new(t), Box::new(u)),
            generics,
        ),
        inline_shape(TypeExpr::Range(r, Box::new(t)), generics) == inline_shape(
            TypeExpr::Range(s, Box::new(t)),
            generics,
        ),
{
}

/// The type of a value that cannot exist: its one variant holds a value of
/// the standard library's type of that kind, of which there is none.
#[derive(Debug, Clone, Copy, PartialEq, Eq)]
pub enum Infallible {
    Never(std::convert::Infallible),
}

/// The declaration of `Infallible`: an enum without variants, under the
/// fingerprint of the path `std::convert::Infallible`.
pub open spec fn infallible_view() -> DataTypeExtView {
    DataTypeExtView {
        name: "Infallible"@,
        docs: Seq::empty(),
        sid: SpectaIDView {
            name: "Infallible"@,
            hash: fingerprint_of("std::convert::Infallible"@),
        },
        impl_location: "src/impls.rs"@,
        export: None,
        inner: DataTypeView::Enum(
            EnumTypeView {
                name: "Infallible"@,
                repr: EnumReprView::External,
                generics: Seq::empty(),
                variants: Seq::empty(),
            },
        ),
    }
}

impl Infallible {
    /// The declaration of this type.
    pub fn definition() -> (r: DataTypeExt)
        ensures
            r@ == infallible_view(),
    {
        let generics: Vec<String> = Vec::new();
        let variants: Vec<EnumVariant> = Vec::new();
        proof {
            assert(crate::datatype::view_names(generics) =~= Seq::<Seq<char>>::empty());
            assert(crate::datatype::view_variants(variants) =~= Seq::<EnumVariantView>::empty());
        }
        DataTypeExt {
            name: String::from_str("Infallible"),
            docs: String::new(),
            sid: SpectaID::from_path("Infallible", "std::convert::Infallible"),
            impl_location: ImplLocation::new("src/impls.rs"),
            export: None,
            inner: DataType::Enum(
                EnumType {
                    name: String::from_str("Infallible"),
                    repr: EnumRepr::External,
                    generics,
                    variants,
                },
            ),
        }
    }
}

} // verus!
