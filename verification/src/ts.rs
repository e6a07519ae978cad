//! Rendering shapes as TypeScript.

use crate::datatype::{
    view_fields, view_named, view_names, view_repr, view_types, view_unnamed, view_variant,
    view_variants, DataType, DataTypeExt, DataTypeExtView, DataTypeView, EnumRepr, EnumReprView,
    EnumVariant, EnumVariantView, Field, FieldView, Fields, FieldsView, PrimitiveType,
};
use vstd::prelude::*;
use vstd::string::StringExecFns;

verus! {

/// The options of an export.
#[derive(Debug, Clone, Copy, PartialEq, Eq, Structural)]
pub struct ExportConfiguration {
    /// Whether a definition that does not say so itself is exported.
    /// `None` stands for `true`.
    pub export_by_default: Option<bool>,
}

impl Default for ExportConfiguration {
    fn default() -> (r: Self)
        ensures
            r.export_by_default is None,
    {
        ExportConfiguration { export_by_default: None }
    }
}

/// A shape that TypeScript cannot express. Each error names the definition
/// that was being exported.
#[derive(Debug, PartialEq, Eq)]
pub enum TsExportError {
    /// A map's key is neither text nor a number.
    UnsupportedMapKey(String),
    /// A tuple has more positions than `MAX_TUPLE_LEN`.
    TupleTooLong(String),
    /// A generic parameter, the second text, is not one that the definition declares.
    UnresolvedGeneric(String, String),
}

pub ghost enum TsExportErrorView {
    UnsupportedMapKey(Seq<char>),
    TupleTooLong(Seq<char>),
    UnresolvedGeneric(Seq<char>, Seq<char>),
}

impl View for TsExportError {
    type V = TsExportErrorView;

    open spec fn view(&self) -> TsExportErrorView {
        match self {
            TsExportError::UnsupportedMapKey(n) => TsExportErrorView::UnsupportedMapKey(n@),
            TsExportError::TupleTooLong(n) => TsExportErrorView::TupleTooLong(n@),
            TsExportError::UnresolvedGeneric(n, g) => TsExportErrorView::UnresolvedGeneric(n@, g@),
        }
    }
}

impl TsExportError {
    /// The name of the definition that could not be exported.
    pub fn type_of(&self) -> (r: &String)
        ensures
            r@ == match self@ {
                TsExportErrorView::UnsupportedMapKey(n) => n,
                TsExportErrorView::TupleTooLong(n) => n,
                TsExportErrorView::UnresolvedGeneric(n, _) => n,
            },
    {
        match self {
            TsExportError::UnsupportedMapKey(n) => n,
            TsExportError::TupleTooLong(n) => n,
            TsExportError::UnresolvedGeneric(n, _) => n,
        }
    }
}

/// The longest tuple that is exported.
pub const MAX_TUPLE_LEN: usize = 12;

/// What rendering gives: the text, or the reason why there is none.
pub type Rendered = Result<Seq<char>, TsExportErrorView>;

/// What a rendering function's result holds.
pub open spec fn result_view(r: Result<String, TsExportError>) -> Rendered {
    match r {
        Ok(s) => Ok(s@),
        Err(e) => Err(e@),
    }
}

/// The TypeScript type of a scalar kind.
pub open spec fn primitive_text(p: PrimitiveType) -> Seq<char> {
    match p {
        PrimitiveType::Bool => "boolean"@,
        PrimitiveType::Char => "string"@,
        PrimitiveType::String => "string"@,
        _ => "number"@,
    }
}

/// The shapes that render as a union, and so stand in brackets before `[]`.
pub open spec fn is_union(d: DataTypeView) -> bool {
    d is Nullable || d is Result || d is Either || d is Enum
}

/// The shapes that can be the key of a map: text and numbers.
pub open spec fn is_key(d: DataTypeView) -> bool {
    match d {
        DataTypeView::Primitive(p) => p != PrimitiveType::Bool,
        _ => false,
    }
}

/// A name between double quotes.
pub open spec fn quoted(n: Seq<char>) -> Seq<char> {
    "\""@ + n + "\""@
}

/// The first `n` names, with `, ` between them.
pub open spec fn join_names(g: Seq<Seq<char>>, n: nat) -> Seq<char>
    decreases n,
{
    if n == 0 || n > g.len() {
        Seq::empty()
    } else if n == 1 {
        join_names(g, 0) + g[0]
    } else {
        join_names(g, (n - 1) as nat) + ", "@ + g[n - 1]
    }
}

/// The generic parameters after a definition's name: nothing where there
/// are none, else the names between `<` and `>`.
pub open spec fn generics_decl(g: Seq<Seq<char>>) -> Seq<char> {
    if g.len() == 0 {
        Seq::empty()
    } else {
        "<"@ + join_names(g, g.len()) + ">"@
    }
}

/// How many of the first `n` fields are exported.
pub open spec fn live_fields(fs: Seq<FieldView>, n: nat) -> nat
    decreases n,
{
    if n == 0 || n > fs.len() {
        0
    } else {
        live_fields(fs, (n - 1) as nat) + if fs[n - 1].skip {
            0nat
        } else {
            1nat
        }
    }
}

/// How many of the first `n` variants are exported.
pub open spec fn live_variants(vs: Seq<EnumVariantView>, n: nat) -> nat
    decreases n,
{
    if n == 0 || n > vs.len() {
        0
    } else {
        live_variants(vs, (n - 1) as nat) + if vs[n - 1].skip {
            0nat
        } else {
            1nat
        }
    }
}

/// The first `n` shapes, each rendered, with `, ` between them.
pub open spec fn render_types(es: Seq<DataTypeView>, n: nat, name: Seq<char>, generics: Seq<Seq<char>>) -> Rendered
    decreases es, n,
{
    if n == 0 || n > es.len() {
        Ok(Seq::empty())
    } else {
        match render_types(es, (n - 1) as nat, name, generics) {
            Err(e) => Err(e),
            Ok(prev) => match render(es[n - 1], name, generics) {
                Err(e) => Err(e),
                Ok(cur) => Ok(
                    if n == 1 {
                        prev + cur
                    } else {
                        prev + ", "@ + cur
                    },
                ),
            },
        }
    }
}

/// Those of the first `n` unnamed fields that are exported, each rendered,
/// with `, ` between them. Whether such a field is optional or flattened
/// does not show.
pub open spec fn render_items(fs: Seq<FieldView>, n: nat, name: Seq<char>, generics: Seq<Seq<char>>) -> Rendered
    decreases fs, n,
{
    if n == 0 || n > fs.len() {
        Ok(Seq::empty())
    } else {
        match render_items(fs, (n - 1) as nat, name, generics) {
            Err(e) => Err(e),
            Ok(prev) => if fs[n - 1].skip {
                Ok(prev)
            } else {
                match render(fs[n - 1].ty, name, generics) {
                    Err(e) => Err(e),
                    Ok(cur) => Ok(
                        if live_fields(fs, (n - 1) as nat) == 0 {
                            prev + cur
                        } else {
                            prev + ", "@ + cur
                        },
                    ),
                }
            },
        }
    }
}

/// Unnamed fields: `null` where none is exported, the field's own shape
/// where one is, else the shapes between `[` and `]`.
pub open spec fn render_unnamed(fs: Seq<FieldView>, name: Seq<char>, generics: Seq<Seq<char>>) -> Rendered
    decreases fs, fs.len() + 1,
{
    match render_items(fs, fs.len(), name, generics) {
        Err(e) => Err(e),
        Ok(items) => Ok(
            if live_fields(fs, fs.len()) == 0 {
                "null"@
            } else if live_fields(fs, fs.len()) == 1 {
                items
            } else {
                "["@ + items + "]"@
            },
        ),
    }
}

/// Those of the first `n` named fields that are exported and whose
/// `flatten` is `flat`. A flattened field reads ` & (shape)`, any other
/// ` name: shape;`, with `?` after the name of an optional one.
pub open spec fn render_members(
    fs: Seq<(Seq<char>, FieldView)>,
    n: nat,
    flat: bool,
    name: Seq<char>,
    generics: Seq<Seq<char>>,
) -> Rendered
    decreases fs, n,
{
    if n == 0 || n > fs.len() {
        Ok(Seq::empty())
    } else {
        match render_members(fs, (n - 1) as nat, flat, name, generics) {
            Err(e) => Err(e),
            Ok(prev) => if fs[n - 1].1.skip || fs[n - 1].1.flatten != flat {
                Ok(prev)
            } else {
                match render(fs[n - 1].1.ty, name, generics) {
                    Err(e) => Err(e),
                    Ok(cur) => Ok(
                        if flat {
                            prev + " & ("@ + cur + ")"@
                        } else if fs[n - 1].1.optional {
                            prev + " "@ + fs[n - 1].0 + "?: "@ + cur + ";"@
                        } else {
                            prev + " "@ + fs[n - 1].0 + ": "@ + cur + ";"@
                        },
                    ),
                }
            },
        }
    }
}

/// Named fields: an object type that opens with `head`, then holds the
/// fields that are not flattened, and is followed by the flattened ones.
pub open spec fn render_named(
    fs: Seq<(Seq<char>, FieldView)>,
    head: Seq<char>,
    name: Seq<char>,
    generics: Seq<Seq<char>>,
) -> Rendered
    decreases fs, fs.len() + 1,
{
    match render_members(fs, fs.len(), false, name, generics) {
        Err(e) => Err(e),
        Ok(body) => match render_members(fs, fs.len(), true, name, generics) {
            Err(e) => Err(e),
            Ok(flat) => Ok("{"@ + head + body + " }"@ + flat),
        },
    }
}

/// The fields of a struct, or the payload of a variant.
pub open spec fn render_fields(f: FieldsView, name: Seq<char>, generics: Seq<Seq<char>>) -> Rendered
    decreases f, 0nat,
{
    match f {
        FieldsView::Unit => Ok("null"@),
        FieldsView::Unnamed(fs) => render_unnamed(fs, name, generics),
        FieldsView::Named(fs) => render_named(fs, Seq::empty(), name, generics),
    }
}

/// One variant, as the representation of its enum asks.
pub open spec fn render_variant(
    v: EnumVariantView,
    repr: EnumReprView,
    name: Seq<char>,
    generics: Seq<Seq<char>>,
) -> Rendered
    decreases v, 0nat,
{
    match repr {
        EnumReprView::External => match v.fields {
            FieldsView::Unit => Ok(quoted(v.name)),
            _ => match render_fields(v.fields, name, generics) {
                Err(e) => Err(e),
                Ok(p) => Ok("{ "@ + v.name + ": "@ + p + " }"@),
            },
        },
        EnumReprView::Internal { tag } => match v.fields {
            FieldsView::Unit => Ok("{ "@ + tag + ": "@ + quoted(v.name) + " }"@),
            FieldsView::Named(fs) => render_named(
                fs,
                " "@ + tag + ": "@ + quoted(v.name) + ";"@,
                name,
                generics,
            ),
            FieldsView::Unnamed(fs) => match render_unnamed(fs, name, generics) {
                Err(e) => Err(e),
                Ok(p) => Ok("({ "@ + tag + ": "@ + quoted(v.name) + " } & "@ + p + ")"@),
            },
        },
        EnumReprView::Adjacent { tag, content } => match v.fields {
            FieldsView::Unit => Ok("{ "@ + tag + ": "@ + quoted(v.name) + " }"@),
            _ => match render_fields(v.fields, name, generics) {
                Err(e) => Err(e),
                Ok(p) => Ok(
                    "{ "@ + tag + ": "@ + quoted(v.name) + "; "@ + content + ": "@ + p + " }"@,
                ),
            },
        },
        EnumReprView::Untagged => render_fields(v.fields, name, generics),
    }
}

/// Those of the first `n` variants that are exported, in the order of their
/// declaration, with ` | ` between them.
pub open spec fn render_variants(
    vs: Seq<EnumVariantView>,
    n: nat,
    repr: EnumReprView,
    name: Seq<char>,
    generics: Seq<Seq<char>>,
) -> Rendered
    decreases vs, n,
{
    if n == 0 || n > vs.len() {
        Ok(Seq::empty())
    } else {
        match render_variants(vs, (n - 1) as nat, repr, name, generics) {
            Err(e) => Err(e),
            Ok(prev) => if vs[n - 1].skip {
                Ok(prev)
            } else {
                match render_variant(vs[n - 1], repr, name, generics) {
                    Err(e) => Err(e),
                    Ok(cur) => Ok(
                        if live_variants(vs, (n - 1) as nat) == 0 {
                            prev + cur
                        } else {
                            prev + " | "@ + cur
                        },
                    ),
                }
            },
        }
    }
}

/// The TypeScript type of a shape, inside the definition called `name`
/// whose generic parameters are `generics`.
pub open spec fn render(d: DataTypeView, name: Seq<char>, generics: Seq<Seq<char>>) -> Rendered
    decreases d, 0nat,
{
    match d {
        DataTypeView::Any => Ok("any"@),
        DataTypeView::Primitive(p) => Ok(primitive_text(p)),
        DataTypeView::Literal(_) => Ok("null"@),
        DataTypeView::List(e) | DataTypeView::Unordered(e) => match render(*e, name, generics) {
            Err(x) => Err(x),
            Ok(s) => Ok(
                if is_union(*e) {
                    "("@ + s + ")[]"@
                } else {
                    s + "[]"@
                },
            ),
        },
        DataTypeView::Record(k, v) => if !is_key(*k) {
            Err(TsExportErrorView::UnsupportedMapKey(name))
        } else {
            match render(*k, name, generics) {
                Err(x) => Err(x),
                Ok(ks) => match render(*v, name, generics) {
                    Err(x) => Err(x),
                    Ok(vs) => Ok("{ [key: "@ + ks + "]: "@ + vs + " }"@),
                },
            }
        },
        DataTypeView::Nullable(e) => match render(*e, name, generics) {
            Err(x) => Err(x),
            Ok(s) => Ok(s + " | null"@),
        },
        DataTypeView::Tuple(es) => if es.len() > MAX_TUPLE_LEN {
            Err(TsExportErrorView::TupleTooLong(name))
        } else {
            match render_types(es, es.len(), name, generics) {
                Err(x) => Err(x),
                Ok(items) => Ok(
                    if es.len() == 0 {
                        "null"@
                    } else {
                        "["@ + items + "]"@
                    },
                ),
            }
        },
        DataTypeView::Result(a, b) | DataTypeView::Either(a, b) => match render(
            *a,
            name,
            generics,
        ) {
            Err(x) => Err(x),
            Ok(x) => match render(*b, name, generics) {
                Err(y) => Err(y),
                Ok(y) => Ok(x + " | "@ + y),
            },
        },
        DataTypeView::Struct(s) => render_fields(s.fields, name, generics),
        DataTypeView::Enum(e) => match render_variants(
            e.variants,
            e.variants.len(),
            e.repr,
            name,
            generics,
        ) {
            Err(x) => Err(x),
            Ok(items) => Ok(
                if live_variants(e.variants, e.variants.len()) == 0 {
                    "never"@
                } else {
                    items
                },
            ),
        },
        DataTypeView::Generic(n) => if generics.contains(n) {
            Ok(n)
        } else {
            Err(TsExportErrorView::UnresolvedGeneric(name, n))
        },
        DataTypeView::Reference(r) => if r.generics.len() == 0 {
            Ok(r.name)
        } else {
            match render_types(r.generics, r.generics.len(), name, generics) {
                Err(x) => Err(x),
                Ok(items) => Ok(r.name + "<"@ + items + ">"@),
            }
        },
    }
}

/// A reference without generic arguments renders as the name it holds,
/// whatever the definition of that name holds: a definition that refers to
/// itself is named, not unfolded.
pub proof fn lemma_reference_renders_as_name(
    r: crate::datatype::DataTypeReferenceView,
    name: Seq<char>,
    generics: Seq<Seq<char>>,
)
    requires
        r.generics.len() == 0,
    ensures
        render(DataTypeView::Reference(r), name, generics) == Ok::<Seq<char>, TsExportErrorView>(
            r.name,
        ),
{
}

/// The generic parameters that a definition declares: those of its struct
/// or enum, and none for any other shape.
pub open spec fn declared_generics(d: DataTypeView) -> Seq<Seq<char>> {
    match d {
        DataTypeView::Struct(s) => s.generics,
        DataTypeView::Enum(e) => e.generics,
        _ => Seq::empty(),
    }
}

/// The declaration of a named definition:
/// `export type`, its name and generic parameters, `=`, and its shape.
pub open spec fn export_text(t: DataTypeExtView) -> Rendered {
    match render(t.inner, t.name, declared_generics(t.inner)) {
        Err(e) => Err(e),
        Ok(body) => Ok(
            "export type "@ + t.name + generics_decl(declared_generics(t.inner)) + " = "@ + body,
        ),
    }
}

proof fn lemma_types_error_sticks(es: Seq<DataTypeView>, i: nat, n: nat, name: Seq<char>, generics: Seq<Seq<char>>)
    requires
        i <= n <= es.len(),
        render_types(es, i, name, generics) is Err,
    ensures
        render_types(es, n, name, generics) == render_types(es, i, name, generics),
    decreases n - i,
{
    if i < n {
        lemma_types_error_sticks(es, i, (n - 1) as nat, name, generics);
    }
}

proof fn lemma_items_error_sticks(fs: Seq<FieldView>, i: nat, n: nat, name: Seq<char>, generics: Seq<Seq<char>>)
    requires
        i <= n <= fs.len(),
        render_items(fs, i, name, generics) is Err,
    ensures
        render_items(fs, n, name, generics) == render_items(fs, i, name, generics),
    decreases n - i,
{
    if i < n {
        lemma_items_error_sticks(fs, i, (n - 1) as nat, name, generics);
    }
}

proof fn lemma_members_error_sticks(
    fs: Seq<(Seq<char>, FieldView)>,
    i: nat,
    n: nat,
    flat: bool,
    name: Seq<char>,
    generics: Seq<Seq<char>>,
)
    requires
        i <= n <= fs.len(),
        render_members(fs, i, flat, name, generics) is Err,
    ensures
        render_members(fs, n, flat, name, generics) == render_members(fs, i, flat, name, generics),
    decreases n - i,
{
    if i < n {
        lemma_members_error_sticks(fs, i, (n - 1) as nat, flat, name, generics);
    }
}

proof fn lemma_variants_error_sticks(
    vs: Seq<EnumVariantView>,
    i: nat,
    n: nat,
    repr: EnumReprView,
    name: Seq<char>,
    generics: Seq<Seq<char>>,
)
    requires
        i <= n <= vs.len(),
        render_variants(vs, i, repr, name, generics) is Err,
    ensures
        render_variants(vs, n, repr, name, generics) == render_variants(
            vs,
            i,
            repr,
            name,
            generics,
        ),
    decreases n - i,
{
    if i < n {
        lemma_variants_error_sticks(vs, i, (n - 1) as nat, repr, name, generics);
    }
}

fn primitive_name(p: PrimitiveType) -> (s: &'static str)
    ensures
        s@ == primitive_text(p),
{
    match p {
        PrimitiveType::Bool => "boolean",
        PrimitiveType::Char => "string",
        PrimitiveType::String => "string",
        _ => "number",
    }
}

fn is_union_shape(d: &DataType) -> (b: bool)
    ensures
        b == is_union(d@),
{
    match d {
        DataType::Nullable(_) => true,
        DataType::Result(_, _) => true,
        DataType::Either(_, _) => true,
        DataType::Enum(_) => true,
        _ => false,
    }
}

fn is_key_shape(d: &DataType) -> (b: bool)
    ensures
        b == is_key(d@),
{
    match d {
        DataType::Primitive(p) => match p {
            PrimitiveType::Bool => false,
            _ => true,
        },
        _ => false,
    }
}

fn quote(n: &str) -> (s: String)
    ensures
        s@ == quoted(n@),
{
    let mut s = String::from_str("\"");
    s.append(n);
    s.append("\"");
    s
}

fn has_name(generics: &Vec<String>, n: &String) -> (b: bool)
    ensures
        b == view_names(*generics).contains(n@),
{
    let mut i: usize = 0;
    while i < generics.len()
        invariant
            i <= generics.len(),
            forall|j: int| 0 <= j < i ==> view_names(*generics)[j] != n@,
        decreases generics.len() - i,
    {
        if generics[i] == *n {
            assert(view_names(*generics)[i as int] == n@);
            return true;
        }
        i += 1;
    }
    false
}

fn join_generics(g: &Vec<String>) -> (s: String)
    ensures
        s@ == generics_decl(view_names(*g)),
{
    if g.len() == 0 {
        return String::new();
    }
    let mut items = String::new();
    let mut i: usize = 0;
    while i < g.len()
        invariant
            i <= g.len(),
            items@ == join_names(view_names(*g), i as nat),
        decreases g.len() - i,
    {
        if i > 0 {
            items.append(", ");
        }
        items.append(g[i].as_str());
        i += 1;
    }
    let mut s = String::from_str("<");
    s.append(items.as_str());
    s.append(">");
    s
}

#[verifier::loop_isolation(false)]
fn render_type_list(v: &Vec<DataType>, name: &str, generics: &Vec<String>) -> (r: Result<String, TsExportError>)
    ensures
        result_view(r) == render_types(view_types(*v), v@.len() as nat, name@, view_names(*generics)),
    decreases v, 0nat,
{
    let mut out = String::new();
    let mut i: usize = 0;
    while i < v.len()
        invariant
            i <= v.len(),
            render_types(view_types(*v), i as nat, name@, view_names(*generics)) == Ok::<
                Seq<char>,
                TsExportErrorView,
            >(out@),
        decreases v.len() - i,
    {
        match render_type(&v[i], name, generics) {
            Err(e) => {
                proof {
                    lemma_types_error_sticks(
                        view_types(*v),
                        (i + 1) as nat,
                        v@.len() as nat,
                        name@,
                        view_names(*generics),
                    );
                }
                return Err(e);
            },
            Ok(cur) => {
                if i > 0 {
                    out.append(", ");
                }
                out.append(cur.as_str());
            },
        }
        i += 1;
    }
    Ok(out)
}

#[verifier::loop_isolation(false)]
fn render_unnamed_fields(fs: &Vec<Field>, name: &str, generics: &Vec<String>) -> (r: Result<String, TsExportError>)
    ensures
        result_view(r) == render_unnamed(view_unnamed(*fs), name@, view_names(*generics)),
    decreases fs, 0nat,
{
    let mut items = String::new();
    let mut live: usize = 0;
    let mut i: usize = 0;
    while i < fs.len()
        invariant
            i <= fs.len(),
            live <= i,
            live == live_fields(view_unnamed(*fs), i as nat),
            render_items(view_unnamed(*fs), i as nat, name@, view_names(*generics)) == Ok::<
                Seq<char>,
                TsExportErrorView,
            >(items@),
        decreases fs.len() - i,
    {
        if !fs[i].skip {
            match render_type(&fs[i].ty, name, generics) {
                Err(e) => {
                    proof {
                        lemma_items_error_sticks(
                            view_unnamed(*fs),
                            (i + 1) as nat,
                            fs@.len() as nat,
                            name@,
                            view_names(*generics),
                        );
                    }
                    return Err(e);
                },
                Ok(cur) => {
                    if live > 0 {
                        items.append(", ");
                    }
                    items.append(cur.as_str());
                    live += 1;
                },
            }
        }
        i += 1;
    }
    if live == 0 {
        Ok(String::from_str("null"))
    } else if live == 1 {
        Ok(items)
    } else {
        let mut out = String::from_str("[");
        out.append(items.as_str());
        out.append("]");
        Ok(out)
    }
}

#[verifier::loop_isolation(false)]
fn render_member_list(
    fs: &Vec<(String, Field)>,
    flat: bool,
    name: &str,
    generics: &Vec<String>,
) -> (r: Result<String, TsExportError>)
    ensures
        result_view(r) == render_members(
            view_named(*fs),
            fs@.len() as nat,
            flat,
            name@,
            view_names(*generics),
        ),
    decreases fs, 0nat,
{
    let mut out = String::new();
    let mut i: usize = 0;
    while i < fs.len()
        invariant
            i <= fs.len(),
            render_members(view_named(*fs), i as nat, flat, name@, view_names(*generics)) == Ok::<
                Seq<char>,
                TsExportErrorView,
            >(out@),
        decreases fs.len() - i,
    {
        let f = &fs[i].1;
        if !f.skip && f.flatten == flat {
            match render_type(&f.ty, name, generics) {
                Err(e) => {
                    proof {
                        lemma_members_error_sticks(
                            view_named(*fs),
                            (i + 1) as nat,
                            fs@.len() as nat,
                            flat,
                            name@,
                            view_names(*generics),
                        );
                    }
                    return Err(e);
                },
                Ok(cur) => {
                    if flat {
                        out.append(" & (");
                        out.append(cur.as_str());
                        out.append(")");
                    } else {
                        out.append(" ");
                        out.append(fs[i].0.as_str());
                        if f.optional {
                            out.append("?: ");
                        } else {
                            out.append(": ");
                        }
                        out.append(cur.as_str());
                        out.append(";");
                    }
                },
            }
        }
        i += 1;
    }
    Ok(out)
}

fn render_named_fields(
    fs: &Vec<(String, Field)>,
    head: &str,
    name: &str,
    generics: &Vec<String>,
) -> (r: Result<String, TsExportError>)
    ensures
        result_view(r) == render_named(view_named(*fs), head@, name@, view_names(*generics)),
    decreases fs, 1nat,
{
    let body = render_member_list(fs, false, name, generics)?;
    let flat = render_member_list(fs, true, name, generics)?;
    let mut out = String::from_str("{");
    out.append(head);
    out.append(body.as_str());
    out.append(" }");
    out.append(flat.as_str());
    Ok(out)
}

fn render_field_set(f: &Fields, name: &str, generics: &Vec<String>) -> (r: Result<String, TsExportError>)
    ensures
        result_view(r) == render_fields(view_fields(*f), name@, view_names(*generics)),
    decreases f, 0nat,
{
    match f {
        Fields::Unit => Ok(String::from_str("null")),
        Fields::Unnamed(fs) => render_unnamed_fields(fs, name, generics),
        Fields::Named(fs) => {
            let r = render_named_fields(fs, "", name, generics);
            proof {
                reveal_strlit("");
                assert(""@ =~= Seq::<char>::empty());
            }
            r
        },
    }
}

fn render_one_variant(v: &EnumVariant, repr: &EnumRepr, name: &str, generics: &Vec<String>) -> (r: Result<
    String,
    TsExportError,
>)
    ensures
        result_view(r) == render_variant(
            view_variant(*v),
            view_repr(*repr),
            name@,
            view_names(*generics),
        ),
    decreases v, 0nat,
{
    let q = quote(v.name.as_str());
    match repr {
        EnumRepr::External => match &v.fields {
            Fields::Unit => Ok(q),
            _ => {
                let p = render_field_set(&v.fields, name, generics)?;
                let mut out = String::from_str("{ ");
                out.append(v.name.as_str());
                out.append(": ");
                out.append(p.as_str());
                out.append(" }");
                Ok(out)
            },
        },
        EnumRepr::Internal { tag } => match &v.fields {
            Fields::Unit => {
                let mut out = String::from_str("{ ");
                out.append(tag.as_str());
                out.append(": ");
                out.append(q.as_str());
                out.append(" }");
                Ok(out)
            },
            Fields::Named(fs) => {
                let mut head = String::from_str(" ");
                head.append(tag.as_str());
                head.append(": ");
                head.append(q.as_str());
                head.append(";");
                render_named_fields(fs, head.as_str(), name, generics)
            },
            Fields::Unnamed(fs) => {
                let p = render_unnamed_fields(fs, name, generics)?;
                let mut out = String::from_str("({ ");
                out.append(tag.as_str());
                out.append(": ");
                out.append(q.as_str());
                out.append(" } & ");
                out.append(p.as_str());
                out.append(")");
                Ok(out)
            },
        },
        EnumRepr::Adjacent { tag, content } => match &v.fields {
            Fields::Unit => {
                let mut out = String::from_str("{ ");
                out.append(tag.as_str());
                out.append(": ");
                out.append(q.as_str());
                out.append(" }");
                Ok(out)
            },
            _ => {
                let p = render_field_set(&v.fields, name, generics)?;
                let mut out = String::from_str("{ ");
                out.append(tag.as_str());
                out.append(": ");
                out.append(q.as_str());
                out.append("; ");
                out.append(content.as_str());
                out.append(": ");
                out.append(p.as_str());
                out.append(" }");
                Ok(out)
            },
        },
        EnumRepr::Untagged => render_field_set(&v.fields, name, generics),
    }
}

#[verifier::loop_isolation(false)]
fn render_variant_list(vs: &Vec<EnumVariant>, repr: &EnumRepr, name: &str, generics: &Vec<String>) -> (r: Result<
    String,
    TsExportError,
>)
    ensures
        result_view(r) == match render_variants(
            view_variants(*vs),
            vs@.len() as nat,
            view_repr(*repr),
            name@,
            view_names(*generics),
        ) {
            Err(x) => Err(x),
            Ok(items) => Ok(
                if live_variants(view_variants(*vs), vs@.len() as nat) == 0 {
                    "never"@
                } else {
                    items
                },
            ),
        },
    decreases vs, 0nat,
{
    let mut out = String::new();
    let mut live: usize = 0;
    let mut i: usize = 0;
    while i < vs.len()
        invariant
            i <= vs.len(),
            live <= i,
            live == live_variants(view_variants(*vs), i as nat),
            render_variants(
                view_variants(*vs),
                i as nat,
                view_repr(*repr),
                name@,
                view_names(*generics),
            ) == Ok::<Seq<char>, TsExportErrorView>(out@),
        decreases vs.len() - i,
    {
        if !vs[i].skip {
            match render_one_variant(&vs[i], repr, name, generics) {
                Err(e) => {
                    proof {
                        lemma_variants_error_sticks(
                            view_variants(*vs),
                            (i + 1) as nat,
                            vs@.len() as nat,
                            view_repr(*repr),
                            name@,
                            view_names(*generics),
                        );
                    }
                    return Err(e);
                },
                Ok(cur) => {
                    if live > 0 {
                        out.append(" | ");
                    }
                    out.append(cur.as_str());
                    live += 1;
                },
            }
        }
        i += 1;
    }
    if live == 0 {
        Ok(String::from_str("never"))
    } else {
        Ok(out)
    }
}

fn render_type(d: &DataType, name: &str, generics: &Vec<String>) -> (r: Result<String, TsExportError>)
    ensures
        result_view(r) == render(d@, name@, view_names(*generics)),
    decreases d, 0nat,
{
    match d {
        DataType::Any => Ok(String::from_str("any")),
        DataType::Primitive(p) => Ok(String::from_str(primitive_name(*p))),
        DataType::Literal(_) => Ok(String::from_str("null")),
        DataType::List(e) | DataType::Unordered(e) => {
            let s = render_type(e, name, generics)?;
            if is_union_shape(e) {
                let mut out = String::from_str("(");
                out.append(s.as_str());
                out.append(")[]");
                Ok(out)
            } else {
                let mut out = s;
                out.append("[]");
                Ok(out)
            }
        },
        DataType::Record(k, v) => {
            if !is_key_shape(k) {
                return Err(TsExportError::UnsupportedMapKey(String::from_str(name)));
            }
            let ks = render_type(k, name, generics)?;
            let vs = render_type(v, name, generics)?;
            let mut out = String::from_str("{ [key: ");
            out.append(ks.as_str());
            out.append("]: ");
            out.append(vs.as_str());
            out.append(" }");
            Ok(out)
        },
        DataType::Nullable(e) => {
            let mut out = render_type(e, name, generics)?;
            out.append(" | null");
            Ok(out)
        },
        DataType::Tuple(es) => {
            assert(view_types(*es).len() == es@.len());
            if es.len() > MAX_TUPLE_LEN {
                return Err(TsExportError::TupleTooLong(String::from_str(name)));
            }
            let items = render_type_list(es, name, generics)?;
            if es.len() == 0 {
                Ok(String::from_str("null"))
            } else {
                let mut out = String::from_str("[");
                out.append(items.as_str());
                out.append("]");
                Ok(out)
            }
        },
        DataType::Result(a, b) | DataType::Either(a, b) => {
            let mut out = render_type(a, name, generics)?;
            let y = render_type(b, name, generics)?;
            out.append(" | ");
            out.append(y.as_str());
            Ok(out)
        },
        DataType::Struct(s) => render_field_set(&s.fields, name, generics),
        DataType::Enum(e) => render_variant_list(&e.variants, &e.repr, name, generics),
        DataType::Generic(n) => {
            if has_name(generics, n) {
                Ok(n.clone())
            } else {
                Err(TsExportError::UnresolvedGeneric(String::from_str(name), n.clone()))
            }
        },
        DataType::Reference(r) => {
            if r.generics.len() == 0 {
                Ok(r.name.clone())
            } else {
                let items = render_type_list(&r.generics, name, generics)?;
                let mut out = r.name.clone();
                out.append("<");
                out.append(items.as_str());
                out.append(">");
                Ok(out)
            }
        },
    }
}

/// Renders a shape that stands inside the definition called `name`, whose
/// generic parameters are `generics`.
pub fn datatype(d: &DataType, name: &str, generics: &Vec<String>) -> (r: Result<String, TsExportError>)
    ensures
        result_view(r) == render(d@, name@, view_names(*generics)),
{
    render_type(d, name, generics)
}

/// Renders the declaration of one named definition.
pub fn export_datatype(cfg: &ExportConfiguration, typ: &DataTypeExt) -> (r: Result<String, TsExportError>)
    ensures
        result_view(r) == export_text(typ@),
{
    let none: Vec<String> = Vec::new();
    let generics: &Vec<String> = match &typ.inner {
        DataType::Struct(s) => &s.generics,
        DataType::Enum(e) => &e.generics,
        _ => &none,
    };
    assert(view_names(*generics) =~= declared_generics(typ@.inner));
    let body = render_type(&typ.inner, typ.name.as_str(), generics)?;
    let mut out = String::from_str("export type ");
    out.append(typ.name.as_str());
    let g = join_generics(generics);
    out.append(g.as_str());
    out.append(" = ");
    out.append(body.as_str());
    Ok(out)
}

} // verus!
