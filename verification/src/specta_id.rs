//! The identity of a named type, and the place where it was declared.

use crate::text::{
    compare_names, fingerprint, fingerprint_of, lemma_name_lt_transitive,
    lemma_name_order_total, name_lt, name_order, NameOrder,
};
use std::cmp::Ordering;
use vstd::prelude::*;
use vstd::std_specs::cmp::PartialEqSpec;

verus! {

/// The identity of a named type.
///
/// Two identities are equal when their fingerprints are equal, whatever their
/// names. They are ordered by name first and by fingerprint second, so that a
/// sorted collection of identities reads in the same order on every run.
/// The identity of a type does not change with the wrapper that owns a value
/// of it, nor with the lifetime of a reference to it.
#[derive(Debug, Clone, Copy)]
pub struct SpectaID {
    pub(crate) name: &'static str,
    pub(crate) hash: u64,
}

/// What an identity holds: its name and its fingerprint.
pub ghost struct SpectaIDView {
    pub name: Seq<char>,
    pub hash: u64,
}

impl View for SpectaID {
    type V = SpectaIDView;

    closed spec fn view(&self) -> SpectaIDView {
        SpectaIDView { name: self.name@, hash: self.hash }
    }
}

/// The order of two identities: by name, then by fingerprint.
pub open spec fn id_order(a: SpectaIDView, b: SpectaIDView) -> Ordering {
    match name_order(a.name, b.name) {
        NameOrder::Less => Ordering::Less,
        NameOrder::Greater => Ordering::Greater,
        NameOrder::Equal => if a.hash < b.hash {
            Ordering::Less
        } else if a.hash > b.hash {
            Ordering::Greater
        } else {
            Ordering::Equal
        },
    }
}

impl SpectaID {
    /// An identity with the given name and fingerprint.
    pub fn new(name: &'static str, hash: u64) -> (r: Self)
        ensures
            r@ == (SpectaIDView { name: name@, hash }),
    {
        SpectaID { name, hash }
    }

    /// The identity of the type called `name` that is declared at `path`:
    /// its fingerprint is that of the path, so two types of one name get
    /// two identities, and one type gets the same identity wherever it is
    /// asked for.
    pub fn from_path(name: &'static str, path: &str) -> (r: Self)
        ensures
            r@ == (SpectaIDView { name: name@, hash: fingerprint_of(path@) }),
    {
        SpectaID { name, hash: fingerprint(path) }
    }

    /// The name of the type.
    pub fn name(&self) -> (r: &'static str)
        ensures
            r@ == self@.name,
    {
        self.name
    }

    /// The fingerprint of the type.
    pub fn hash(&self) -> (r: u64)
        ensures
            r == self@.hash,
    {
        self.hash
    }

    /// Compares by name, and by fingerprint where the names are the same.
    pub fn cmp(&self, other: &Self) -> (r: Ordering)
        ensures
            r == id_order(self@, other@),
    {
        match compare_names(self.name, other.name) {
            NameOrder::Less => Ordering::Less,
            NameOrder::Greater => Ordering::Greater,
            NameOrder::Equal => if self.hash < other.hash {
                Ordering::Less
            } else if self.hash > other.hash {
                Ordering::Greater
            } else {
                Ordering::Equal
            },
        }
    }
}

impl PartialEq for SpectaID {
    fn eq(&self, other: &Self) -> (r: bool) {
        self.hash == other.hash
    }
}

impl vstd::std_specs::cmp::PartialEqSpecImpl for SpectaID {
    open spec fn obeys_eq_spec() -> bool {
        true
    }

    open spec fn eq_spec(&self, other: &Self) -> bool {
        self@.hash == other@.hash
    }
}

impl Eq for SpectaID {

}

impl PartialOrd for SpectaID {
    fn partial_cmp(&self, other: &Self) -> (r: Option<Ordering>) {
        Some(self.cmp(other))
    }
}

impl vstd::std_specs::cmp::PartialOrdSpecImpl for SpectaID {
    open spec fn obeys_partial_cmp_spec() -> bool {
        true
    }

    open spec fn partial_cmp_spec(&self, other: &Self) -> Option<Ordering> {
        Some(id_order(self@, other@))
    }
}

/// Equality of identities is an equivalence relation, and it holds exactly
/// when the fingerprints are the same: the names play no part in it.
pub proof fn lemma_eq_by_fingerprint(a: SpectaID, b: SpectaID, c: SpectaID)
    ensures
        a.eq_spec(&b) <==> a@.hash == b@.hash,
        a.eq_spec(&a),
        a.eq_spec(&b) ==> b.eq_spec(&a),
        a.eq_spec(&b) && b.eq_spec(&c) ==> a.eq_spec(&c),
{
}

/// The order of identities is total: two identities compare `Equal` exactly
/// when name and fingerprint are both the same, and `Less` one way round is
/// `Greater` the other way round.
pub proof fn lemma_order_total(a: SpectaIDView, b: SpectaIDView)
    ensures
        id_order(a, b) == Ordering::Equal <==> a == b,
        id_order(a, b) == Ordering::Less <==> id_order(b, a) == Ordering::Greater,
        id_order(a, b) == Ordering::Greater <==> id_order(b, a) == Ordering::Less,
{
    lemma_name_order_total(a.name, b.name);
    lemma_name_order_total(b.name, a.name);
}

/// The order of identities is transitive.
pub proof fn lemma_order_transitive(a: SpectaIDView, b: SpectaIDView, c: SpectaIDView)
    requires
        id_order(a, b) == Ordering::Less,
        id_order(b, c) == Ordering::Less,
    ensures
        id_order(a, c) == Ordering::Less,
{
    lemma_name_order_total(a.name, b.name);
    lemma_name_order_total(b.name, c.name);
    lemma_name_order_total(a.name, c.name);
    if name_lt(a.name, b.name) && name_lt(b.name, c.name) {
        lemma_name_lt_transitive(a.name, b.name, c.name);
    }
}

/// The name decides the order before the fingerprint is looked at.
pub proof fn lemma_name_dominates(a: SpectaIDView, b: SpectaIDView)
    requires
        name_lt(a.name, b.name),
    ensures
        id_order(a, b) == Ordering::Less,
        id_order(b, a) == Ordering::Greater,
{
    lemma_name_order_total(a.name, b.name);
}

/// The place of the impl block of a type, kept for error messages.
#[derive(Debug, Clone, Copy, PartialEq, Eq, PartialOrd, Ord)]
pub struct ImplLocation(pub(crate) &'static str);

impl View for ImplLocation {
    type V = Seq<char>;

    closed spec fn view(&self) -> Seq<char> {
        self.0@
    }
}

impl ImplLocation {
    /// A location from its text.
    pub fn new(location: &'static str) -> (r: Self)
        ensures
            r@ == location@,
    {
        ImplLocation(location)
    }

    /// The location as text.
    pub fn as_str(&self) -> (r: &'static str)
        ensures
            r@ == self@,
    {
        self.0
    }
}

} // verus!
