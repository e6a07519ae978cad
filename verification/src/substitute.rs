//! Putting shapes in the place of generic parameters, and copying shapes.

use crate::datatype::{
    view_datatype, view_field, view_fields, view_named, view_names, view_note, view_repr,
    view_types, view_unnamed, view_variant, view_variants, DataType, DataTypeExt,
    DataTypeReference, DataTypeReferenceView, DataTypeView, EnumRepr, EnumType, EnumTypeView,
    EnumVariant, EnumVariantView, Field, FieldView, Fields, FieldsView, StructType,
    StructTypeView,
};
use vstd::prelude::*;

verus! {

/// The shape that stands for the parameter `n`: the shape at the first
/// position, from `k` on, at which `names` holds `n`; none where `n` is not
/// among the names or has no shape at its position.
pub open spec fn lookup_generic(
    names: Seq<Seq<char>>,
    args: Seq<DataTypeView>,
    n: Seq<char>,
    k: int,
) -> Option<DataTypeView>
    decreases names.len() - k,
{
    if k < 0 || k >= names.len() || k >= args.len() {
        None
    } else if names[k] == n {
        Some(args[k])
    } else {
        lookup_generic(names, args, n, k + 1)
    }
}

pub open spec fn subst_types(es: Seq<DataTypeView>, names: Seq<Seq<char>>, args: Seq<DataTypeView>) -> Seq<DataTypeView>
    decreases es,
{
    Seq::new(
        es.len(),
        |i: int|
            if 0 <= i < es.len() {
                subst(es[i], names, args)
            } else {
                DataTypeView::Any
            },
    )
}

pub open spec fn subst_field(f: FieldView, names: Seq<Seq<char>>, args: Seq<DataTypeView>) -> FieldView
    decreases f,
{
    FieldView {
        skip: f.skip,
        optional: f.optional,
        flatten: f.flatten,
        deprecated: f.deprecated,
        docs: f.docs,
        ty: subst(f.ty, names, args),
    }
}

pub open spec fn subst_unnamed(fs: Seq<FieldView>, names: Seq<Seq<char>>, args: Seq<DataTypeView>) -> Seq<FieldView>
    decreases fs,
{
    Seq::new(
        fs.len(),
        |i: int|
            if 0 <= i < fs.len() {
                subst_field(fs[i], names, args)
            } else {
                arbitrary()
            },
    )
}

pub open spec fn subst_named(
    fs: Seq<(Seq<char>, FieldView)>,
    names: Seq<Seq<char>>,
    args: Seq<DataTypeView>,
) -> Seq<(Seq<char>, FieldView)>
    decreases fs,
{
    Seq::new(
        fs.len(),
        |i: int|
            if 0 <= i < fs.len() {
                (fs[i].0, subst_field(fs[i].1, names, args))
            } else {
                arbitrary()
            },
    )
}

pub open spec fn subst_fields(f: FieldsView, names: Seq<Seq<char>>, args: Seq<DataTypeView>) -> FieldsView
    decreases f,
{
    match f {
        FieldsView::Unit => FieldsView::Unit,
        FieldsView::Unnamed(fs) => FieldsView::Unnamed(subst_unnamed(fs, names, args)),
        FieldsView::Named(fs) => FieldsView::Named(subst_named(fs, names, args)),
    }
}

pub open spec fn subst_variant(v: EnumVariantView, names: Seq<Seq<char>>, args: Seq<DataTypeView>) -> EnumVariantView
    decreases v,
{
    EnumVariantView {
        name: v.name,
        skip: v.skip,
        docs: v.docs,
        deprecated: v.deprecated,
        fields: subst_fields(v.fields, names, args),
    }
}

pub open spec fn subst_variants(vs: Seq<EnumVariantView>, names: Seq<Seq<char>>, args: Seq<DataTypeView>) -> Seq<EnumVariantView>
    decreases vs,
{
    Seq::new(
        vs.len(),
        |i: int|
            if 0 <= i < vs.len() {
                subst_variant(vs[i], names, args)
            } else {
                arbitrary()
            },
    )
}

/// The shape `d` with every generic parameter that `names` holds replaced by
/// the shape at the same position of `args`. A parameter that is not among
/// `names`, or that has no shape at its position, stays as it is.
pub open spec fn subst(d: DataTypeView, names: Seq<Seq<char>>, args: Seq<DataTypeView>) -> DataTypeView
    decreases d,
{
    match d {
        DataTypeView::Any => d,
        DataTypeView::Primitive(_) => d,
        DataTypeView::Literal(_) => d,
        DataTypeView::List(e) => DataTypeView::List(Box::new(subst(*e, names, args))),
        DataTypeView::Unordered(e) => DataTypeView::Unordered(Box::new(subst(*e, names, args))),
        DataTypeView::Record(k, v) => DataTypeView::Record(
            Box::new(subst(*k, names, args)),
            Box::new(subst(*v, names, args)),
        ),
        DataTypeView::Nullable(e) => DataTypeView::Nullable(Box::new(subst(*e, names, args))),
        DataTypeView::Tuple(es) => DataTypeView::Tuple(subst_types(es, names, args)),
        DataTypeView::Result(a, b) => DataTypeView::Result(
            Box::new(subst(*a, names, args)),
            Box::new(subst(*b, names, args)),
        ),
        DataTypeView::Either(a, b) => DataTypeView::Either(
            Box::new(subst(*a, names, args)),
            Box::new(subst(*b, names, args)),
        ),
        DataTypeView::Struct(s) => DataTypeView::Struct(
            StructTypeView {
                name: s.name,
                generics: s.generics,
                fields: subst_fields(s.fields, names, args),
            },
        ),
        DataTypeView::Enum(e) => DataTypeView::Enum(
            EnumTypeView {
                name: e.name,
                repr: e.repr,
                generics: e.generics,
                variants: subst_variants(e.variants, names, args),
            },
        ),
        DataTypeView::Generic(n) => match lookup_generic(names, args, n, 0) {
            Some(a) => a,
            None => d,
        },
        DataTypeView::Reference(r) => DataTypeView::Reference(
            DataTypeReferenceView {
                name: r.name,
                sid: r.sid,
                generics: subst_types(r.generics, names, args),
            },
        ),
    }
}

/// A generic parameter is replaced by the shape at its position, where the
/// name stands at no earlier position and a shape stands at this one.
pub proof fn lemma_subst_replaces_parameter(names: Seq<Seq<char>>, args: Seq<DataTypeView>, i: int)
    requires
        0 <= i < names.len(),
        i < args.len(),
        forall|j: int| 0 <= j < i ==> names[j] != names[i],
    ensures
        subst(DataTypeView::Generic(names[i]), names, args) == args[i],
{
    lemma_lookup_from(names, args, i, 0);
}

proof fn lemma_lookup_from(names: Seq<Seq<char>>, args: Seq<DataTypeView>, i: int, k: int)
    requires
        0 <= k <= i < names.len(),
        i < args.len(),
        forall|j: int| 0 <= j < i ==> names[j] != names[i],
    ensures
        lookup_generic(names, args, names[i], k) == Some(args[i]),
    decreases i - k,
{
    if k < i {
        lemma_lookup_from(names, args, i, k + 1);
    }
}

/// A generic parameter whose name is not among `names` stays as it is.
pub proof fn lemma_subst_keeps_other_parameters(
    names: Seq<Seq<char>>,
    args: Seq<DataTypeView>,
    n: Seq<char>,
)
    requires
        !names.contains(n),
    ensures
        subst(DataTypeView::Generic(n), names, args) == DataTypeView::Generic(n),
{
    lemma_lookup_misses(names, args, n, 0);
}

proof fn lemma_lookup_misses(names: Seq<Seq<char>>, args: Seq<DataTypeView>, n: Seq<char>, k: int)
    requires
        0 <= k,
        !names.contains(n),
    ensures
        lookup_generic(names, args, n, k) is None,
    decreases names.len() - k,
{
    if k < names.len() && k < args.len() {
        assert(names[k] != n);
        lemma_lookup_misses(names, args, n, k + 1);
    }
}

/// A copy of a list of names.
pub fn clone_names(v: &Vec<String>) -> (r: Vec<String>)
    ensures
        view_names(r) == view_names(*v),
{
    let r = v.clone();
    proof {
        assert forall|i: int| 0 <= i < v@.len() implies r@[i]@ == v@[i]@ by {
            assert(cloned::<String>(v@[i], r@[i]));
        }
        assert(view_names(r) =~= view_names(*v));
    }
    r
}

/// A copy of an optional text.
pub fn clone_note(n: &Option<String>) -> (r: Option<String>)
    ensures
        view_note(r) == view_note(*n),
{
    match n {
        Some(s) => Some(s.clone()),
        None => None,
    }
}

/// A copy of an enum's representation.
pub fn clone_repr(r: &EnumRepr) -> (c: EnumRepr)
    ensures
        view_repr(c) == view_repr(*r),
{
    match r {
        EnumRepr::External => EnumRepr::External,
        EnumRepr::Internal { tag } => EnumRepr::Internal { tag: tag.clone() },
        EnumRepr::Adjacent { tag, content } => EnumRepr::Adjacent {
            tag: tag.clone(),
            content: content.clone(),
        },
        EnumRepr::Untagged => EnumRepr::Untagged,
    }
}

/// The position at which `names` first holds `n`, where a shape stands at
/// that position of `args`.
fn find_generic(names: &Vec<String>, args: &Vec<DataType>, n: &String) -> (r: Option<usize>)
    ensures
        match r {
            Some(i) => i < names@.len() && i < args@.len() && lookup_generic(
                view_names(*names),
                view_types(*args),
                n@,
                0,
            ) == Some(view_datatype(args@[i as int])),
            None => lookup_generic(view_names(*names), view_types(*args), n@, 0) is None,
        },
{
    let mut k: usize = 0;
    while k < names.len() && k < args.len()
        invariant
            lookup_generic(view_names(*names), view_types(*args), n@, 0) == lookup_generic(
                view_names(*names),
                view_types(*args),
                n@,
                k as int,
            ),
        decreases names.len() - k,
    {
        if names[k] == *n {
            return Some(k);
        }
        k += 1;
    }
    None
}

#[verifier::loop_isolation(false)]
fn substitute_types(v: &Vec<DataType>, names: &Vec<String>, args: &Vec<DataType>) -> (r: Vec<DataType>)
    ensures
        view_types(r) == subst_types(view_types(*v), view_names(*names), view_types(*args)),
        names@.len() == 0 ==> view_types(r) == view_types(*v),
    decreases names@.len(), v,
{
    let mut out: Vec<DataType> = Vec::new();
    let mut i: usize = 0;
    while i < v.len()
        invariant
            i <= v.len(),
            out@.len() == i,
            forall|j: int|
                0 <= j < i ==> view_datatype(out@[j]) == subst(
                    view_datatype(v@[j]),
                    view_names(*names),
                    view_types(*args),
                ),
            names@.len() == 0 ==> forall|j: int|
                0 <= j < i ==> view_datatype(out@[j]) == view_datatype(v@[j]),
        decreases v.len() - i,
    {
        let d = v[i].substitute(names, args);
        out.push(d);
        i += 1;
    }
    proof {
        assert(view_types(out) =~= subst_types(
            view_types(*v),
            view_names(*names),
            view_types(*args),
        ));
        if names@.len() == 0 {
            assert(view_types(out) =~= view_types(*v));
        }
    }
    out
}

fn substitute_field(f: &Field, names: &Vec<String>, args: &Vec<DataType>) -> (r: Field)
    ensures
        view_field(r) == subst_field(view_field(*f), view_names(*names), view_types(*args)),
        names@.len() == 0 ==> view_field(r) == view_field(*f),
    decreases names@.len(), f,
{
    Field {
        skip: f.skip,
        optional: f.optional,
        flatten: f.flatten,
        deprecated: clone_note(&f.deprecated),
        docs: f.docs.clone(),
        ty: f.ty.substitute(names, args),
    }
}

#[verifier::loop_isolation(false)]
fn substitute_unnamed(v: &Vec<Field>, names: &Vec<String>, args: &Vec<DataType>) -> (r: Vec<Field>)
    ensures
        view_unnamed(r) == subst_unnamed(view_unnamed(*v), view_names(*names), view_types(*args)),
        names@.len() == 0 ==> view_unnamed(r) == view_unnamed(*v),
    decreases names@.len(), v,
{
    let mut out: Vec<Field> = Vec::new();
    let mut i: usize = 0;
    while i < v.len()
        invariant
            i <= v.len(),
            out@.len() == i,
            forall|j: int|
                0 <= j < i ==> view_field(out@[j]) == subst_field(
                    view_field(v@[j]),
                    view_names(*names),
                    view_types(*args),
                ),
            names@.len() == 0 ==> forall|j: int|
                0 <= j < i ==> view_field(out@[j]) == view_field(v@[j]),
        decreases v.len() - i,
    {
        let f = substitute_field(&v[i], names, args);
        out.push(f);
        i += 1;
    }
    proof {
        assert(view_unnamed(out) =~= subst_unnamed(
            view_unnamed(*v),
            view_names(*names),
            view_types(*args),
        ));
        if names@.len() == 0 {
            assert(view_unnamed(out) =~= view_unnamed(*v));
        }
    }
    out
}

#[verifier::loop_isolation(false)]
fn substitute_named(v: &Vec<(String, Field)>, names: &Vec<String>, args: &Vec<DataType>) -> (r: Vec<(String, Field)>)
    ensures
        view_named(r) == subst_named(view_named(*v), view_names(*names), view_types(*args)),
        names@.len() == 0 ==> view_named(r) == view_named(*v),
    decreases names@.len(), v,
{
    let mut out: Vec<(String, Field)> = Vec::new();
    let mut i: usize = 0;
    while i < v.len()
        invariant
            i <= v.len(),
            out@.len() == i,
            forall|j: int|
                0 <= j < i ==> out@[j].0@ == v@[j].0@ && view_field(out@[j].1) == subst_field(
                    view_field(v@[j].1),
                    view_names(*names),
                    view_types(*args),
                ),
            names@.len() == 0 ==> forall|j: int|
                0 <= j < i ==> view_field(out@[j].1) == view_field(v@[j].1),
        decreases v.len() - i,
    {
        let f = substitute_field(&v[i].1, names, args);
        out.push((v[i].0.clone(), f));
        i += 1;
    }
    proof {
        assert(view_named(out) =~= subst_named(
            view_named(*v),
            view_names(*names),
            view_types(*args),
        ));
        if names@.len() == 0 {
            assert(view_named(out) =~= view_named(*v));
        }
    }
    out
}

fn substitute_fields(f: &Fields, names: &Vec<String>, args: &Vec<DataType>) -> (r: Fields)
    ensures
        view_fields(r) == subst_fields(view_fields(*f), view_names(*names), view_types(*args)),
        names@.len() == 0 ==> view_fields(r) == view_fields(*f),
    decreases names@.len(), f,
{
    match f {
        Fields::Unit => Fields::Unit,
        Fields::Unnamed(v) => Fields::Unnamed(substitute_unnamed(v, names, args)),
        Fields::Named(v) => Fields::Named(substitute_named(v, names, args)),
    }
}

#[verifier::loop_isolation(false)]
fn substitute_variants(v: &Vec<EnumVariant>, names: &Vec<String>, args: &Vec<DataType>) -> (r: Vec<EnumVariant>)
    ensures
        view_variants(r) == subst_variants(
            view_variants(*v),
            view_names(*names),
            view_types(*args),
        ),
        names@.len() == 0 ==> view_variants(r) == view_variants(*v),
    decreases names@.len(), v,
{
    let mut out: Vec<EnumVariant> = Vec::new();
    let mut i: usize = 0;
    while i < v.len()
        invariant
            i <= v.len(),
            out@.len() == i,
            forall|j: int|
                0 <= j < i ==> view_variant(out@[j]) == subst_variant(
                    view_variant(v@[j]),
                    view_names(*names),
                    view_types(*args),
                ),
            names@.len() == 0 ==> forall|j: int|
                0 <= j < i ==> view_variant(out@[j]) == view_variant(v@[j]),
        decreases v.len() - i,
    {
        let x = &v[i];
        let c = EnumVariant {
            name: x.name.clone(),
            skip: x.skip,
            docs: x.docs.clone(),
            deprecated: clone_note(&x.deprecated),
            fields: substitute_fields(&x.fields, names, args),
        };
        out.push(c);
        i += 1;
    }
    proof {
        assert(view_variants(out) =~= subst_variants(
            view_variants(*v),
            view_names(*names),
            view_types(*args),
        ));
        if names@.len() == 0 {
            assert(view_variants(out) =~= view_variants(*v));
        }
    }
    out
}

impl DataType {
    /// This shape with the shapes of `args` in the place of the generic
    /// parameters that `names` holds, position by position. With no names
    /// the result is a copy.
    pub fn substitute(&self, names: &Vec<String>, args: &Vec<DataType>) -> (r: DataType)
        ensures
            r@ == subst(self@, view_names(*names), view_types(*args)),
            names@.len() == 0 ==> r@ == self@,
        decreases names@.len(), self,
    {
        match self {
            DataType::Any => DataType::Any,
            DataType::Primitive(p) => DataType::Primitive(*p),
            DataType::Literal(l) => DataType::Literal(*l),
            DataType::List(e) => DataType::List(Box::new(e.substitute(names, args))),
            DataType::Unordered(e) => DataType::Unordered(Box::new(e.substitute(names, args))),
            DataType::Record(k, v) => DataType::Record(
                Box::new(k.substitute(names, args)),
                Box::new(v.substitute(names, args)),
            ),
            DataType::Nullable(e) => DataType::Nullable(Box::new(e.substitute(names, args))),
            DataType::Tuple(v) => DataType::Tuple(substitute_types(v, names, args)),
            DataType::Result(a, b) => DataType::Result(
                Box::new(a.substitute(names, args)),
                Box::new(b.substitute(names, args)),
            ),
            DataType::Either(a, b) => DataType::Either(
                Box::new(a.substitute(names, args)),
                Box::new(b.substitute(names, args)),
            ),
            DataType::Struct(s) => DataType::Struct(
                StructType {
                    name: s.name.clone(),
                    generics: clone_names(&s.generics),
                    fields: substitute_fields(&s.fields, names, args),
                },
            ),
            DataType::Enum(e) => DataType::Enum(
                EnumType {
                    name: e.name.clone(),
                    repr: clone_repr(&e.repr),
                    generics: clone_names(&e.generics),
                    variants: substitute_variants(&e.variants, names, args),
                },
            ),
            DataType::Generic(n) => match find_generic(names, args, n) {
                Some(i) => {
                    let no_names: Vec<String> = Vec::new();
                    let no_args: Vec<DataType> = Vec::new();
                    args[i].substitute(&no_names, &no_args)
                },
                None => DataType::Generic(n.clone()),
            },
            DataType::Reference(r) => DataType::Reference(
                DataTypeReference {
                    name: r.name.clone(),
                    sid: r.sid,
                    generics: substitute_types(&r.generics, names, args),
                },
            ),
        }
    }

    /// A copy of this shape.
    pub fn duplicate(&self) -> (r: DataType)
        ensures
            r@ == self@,
    {
        let no_names: Vec<String> = Vec::new();
        let no_args: Vec<DataType> = Vec::new();
        self.substitute(&no_names, &no_args)
    }
}

impl Clone for DataType {
    fn clone(&self) -> (r: Self)
        ensures
            r@ == self@,
    {
        self.duplicate()
    }
}

impl DataTypeExt {
    /// A copy of this definition.
    pub fn duplicate(&self) -> (r: DataTypeExt)
        ensures
            r@ == self@,
    {
        DataTypeExt {
            name: self.name.clone(),
            docs: self.docs.clone(),
            sid: self.sid,
            impl_location: self.impl_location,
            export: self.export,
            inner: self.inner.duplicate(),
        }
    }
}

impl Clone for DataTypeExt {
    fn clone(&self) -> (r: Self)
        ensures
            r@ == self@,
    {
        self.duplicate()
    }
}

} // verus!
