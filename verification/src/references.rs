//! The named definitions that a shape refers to.

use crate::datatype::{
    view_fields, view_named, view_types, view_unnamed, view_variants, DataType, DataTypeView,
    EnumVariant, EnumVariantView, Field, FieldView, Fields, FieldsView,
};
use vstd::prelude::*;

verus! {

/// The fingerprints that the first `n` shapes refer to.
pub open spec fn refs_types(es: Seq<DataTypeView>, n: nat) -> Seq<u64>
    decreases es, n,
{
    if n == 0 || n > es.len() {
        Seq::empty()
    } else {
        refs_types(es, (n - 1) as nat) + refs(es[n - 1])
    }
}

/// The fingerprints that the first `n` unnamed fields refer to.
pub open spec fn refs_unnamed(fs: Seq<FieldView>, n: nat) -> Seq<u64>
    decreases fs, n,
{
    if n == 0 || n > fs.len() {
        Seq::empty()
    } else {
        refs_unnamed(fs, (n - 1) as nat) + refs(fs[n - 1].ty)
    }
}

/// The fingerprints that the first `n` named fields refer to.
pub open spec fn refs_named(fs: Seq<(Seq<char>, FieldView)>, n: nat) -> Seq<u64>
    decreases fs, n,
{
    if n == 0 || n > fs.len() {
        Seq::empty()
    } else {
        refs_named(fs, (n - 1) as nat) + refs(fs[n - 1].1.ty)
    }
}

/// The fingerprints that the fields refer to.
pub open spec fn refs_fields(f: FieldsView) -> Seq<u64>
    decreases f, 0nat,
{
    match f {
        FieldsView::Unit => Seq::empty(),
        FieldsView::Unnamed(fs) => refs_unnamed(fs, fs.len()),
        FieldsView::Named(fs) => refs_named(fs, fs.len()),
    }
}

/// The fingerprints that the first `n` variants refer to.
pub open spec fn refs_variants(vs: Seq<EnumVariantView>, n: nat) -> Seq<u64>
    decreases vs, n,
{
    if n == 0 || n > vs.len() {
        Seq::empty()
    } else {
        refs_variants(vs, (n - 1) as nat) + refs_fields(vs[n - 1].fields)
    }
}

/// The fingerprints of the named definitions that a shape refers to, in the
/// order in which the shape holds them; a reference comes before the
/// references in its generic arguments. Fields and variants that are not
/// exported count too.
pub open spec fn refs(d: DataTypeView) -> Seq<u64>
    decreases d, 0nat,
{
    match d {
        DataTypeView::Any => Seq::empty(),
        DataTypeView::Primitive(_) => Seq::empty(),
        DataTypeView::Literal(_) => Seq::empty(),
        DataTypeView::Generic(_) => Seq::empty(),
        DataTypeView::List(e) => refs(*e),
        DataTypeView::Unordered(e) => refs(*e),
        DataTypeView::Nullable(e) => refs(*e),
        DataTypeView::Record(a, b) => refs(*a) + refs(*b),
        DataTypeView::Result(a, b) => refs(*a) + refs(*b),
        DataTypeView::Either(a, b) => refs(*a) + refs(*b),
        DataTypeView::Tuple(es) => refs_types(es, es.len()),
        DataTypeView::Struct(s) => refs_fields(s.fields),
        DataTypeView::Enum(e) => refs_variants(e.variants, e.variants.len()),
        DataTypeView::Reference(r) => seq![r.sid.hash] + refs_types(r.generics, r.generics.len()),
    }
}

#[verifier::loop_isolation(false)]
fn collect_types(v: &Vec<DataType>, out: &mut Vec<u64>)
    ensures
        final(out)@ == old(out)@ + refs_types(view_types(*v), v@.len() as nat),
    decreases v, 0nat,
{
    let mut i: usize = 0;
    assert(out@ =~= old(out)@ + refs_types(view_types(*v), 0));
    while i < v.len()
        invariant
            i <= v.len(),
            out@ == old(out)@ + refs_types(view_types(*v), i as nat),
        decreases v.len() - i,
    {
        collect(&v[i], out);
        assert(out@ =~= old(out)@ + refs_types(view_types(*v), (i + 1) as nat));
        i += 1;
    }
}

#[verifier::loop_isolation(false)]
fn collect_unnamed(v: &Vec<Field>, out: &mut Vec<u64>)
    ensures
        final(out)@ == old(out)@ + refs_unnamed(view_unnamed(*v), v@.len() as nat),
    decreases v, 0nat,
{
    let mut i: usize = 0;
    assert(out@ =~= old(out)@ + refs_unnamed(view_unnamed(*v), 0));
    while i < v.len()
        invariant
            i <= v.len(),
            out@ == old(out)@ + refs_unnamed(view_unnamed(*v), i as nat),
        decreases v.len() - i,
    {
        collect(&v[i].ty, out);
        assert(out@ =~= old(out)@ + refs_unnamed(view_unnamed(*v), (i + 1) as nat));
        i += 1;
    }
}

#[verifier::loop_isolation(false)]
fn collect_named(v: &Vec<(String, Field)>, out: &mut Vec<u64>)
    ensures
        final(out)@ == old(out)@ + refs_named(view_named(*v), v@.len() as nat),
    decreases v, 0nat,
{
    let mut i: usize = 0;
    assert(out@ =~= old(out)@ + refs_named(view_named(*v), 0));
    while i < v.len()
        invariant
            i <= v.len(),
            out@ == old(out)@ + refs_named(view_named(*v), i as nat),
        decreases v.len() - i,
    {
        collect(&v[i].1.ty, out);
        assert(out@ =~= old(out)@ + refs_named(view_named(*v), (i + 1) as nat));
        i += 1;
    }
}

fn collect_fields(f: &Fields, out: &mut Vec<u64>)
    ensures
        final(out)@ == old(out)@ + refs_fields(view_fields(*f)),
    decreases f, 0nat,
{
    match f {
        Fields::Unit => {
            assert(out@ =~= old(out)@ + Seq::<u64>::empty());
        },
        Fields::Unnamed(v) => collect_unnamed(v, out),
        Fields::Named(v) => collect_named(v, out),
    }
}

#[verifier::loop_isolation(false)]
fn collect_variants(v: &Vec<EnumVariant>, out: &mut Vec<u64>)
    ensures
        final(out)@ == old(out)@ + refs_variants(view_variants(*v), v@.len() as nat),
    decreases v, 0nat,
{
    let mut i: usize = 0;
    assert(out@ =~= old(out)@ + refs_variants(view_variants(*v), 0));
    while i < v.len()
        invariant
            i <= v.len(),
            out@ == old(out)@ + refs_variants(view_variants(*v), i as nat),
        decreases v.len() - i,
    {
        collect_fields(&v[i].fields, out);
        assert(out@ =~= old(out)@ + refs_variants(view_variants(*v), (i + 1) as nat));
        i += 1;
    }
}

fn collect(d: &DataType, out: &mut Vec<u64>)
    ensures
        final(out)@ == old(out)@ + refs(d@),
    decreases d, 0nat,
{
    match d {
        DataType::Any | DataType::Primitive(_) | DataType::Literal(_) | DataType::Generic(_) => {
            assert(out@ =~= old(out)@ + Seq::<u64>::empty());
        },
        DataType::List(e) | DataType::Unordered(e) | DataType::Nullable(e) => collect(e, out),
        DataType::Record(a, b) | DataType::Result(a, b) | DataType::Either(a, b) => {
            collect(a, out);
            collect(b, out);
            assert(out@ =~= old(out)@ + (refs(a@) + refs(b@)));
        },
        DataType::Tuple(es) => collect_types(es, out),
        DataType::Struct(s) => collect_fields(&s.fields, out),
        DataType::Enum(e) => collect_variants(&e.variants, out),
        DataType::Reference(r) => {
            out.push(r.sid.hash());
            collect_types(&r.generics, out);
            assert(out@ =~= old(out)@ + (seq![r.sid@.hash] + refs_types(
                view_types(r.generics),
                r.generics@.len() as nat,
            )));
        },
    }
}

/// The fingerprints of the named definitions that a shape refers to.
pub fn references(d: &DataType) -> (r: Vec<u64>)
    ensures
        r@ == refs(d@),
{
    let mut out: Vec<u64> = Vec::new();
    collect(d, &mut out);
    assert(out@ =~= refs(d@));
    out
}

} // verus!
