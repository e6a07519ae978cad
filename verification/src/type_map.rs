//! The declarations of named types, and the context in which they are resolved.

use crate::datatype::{
    view_types, DataType, DataTypeExt, DataTypeExtView, DataTypeReference,
    DataTypeReferenceView, DataTypeView,
};
use crate::references::{references, refs};
use crate::specta_id::SpectaID;
use crate::substitute::subst;
use crate::ts::declared_generics;
use std::collections::HashMap;
use vstd::prelude::*;
use vstd::string::StringExecFns;

verus! {

broadcast use vstd::std_specs::hash::group_hash_axioms;

/// Why a set of declarations, or a request to resolve a type, is refused.
#[derive(Debug, PartialEq, Eq)]
pub enum ResolveError {
    /// Two declarations have the fingerprint of the named one.
    DuplicateIdentity(String),
    /// The named declaration refers to a type that is not declared.
    DanglingReference(String),
    /// The named type is not declared.
    UnknownType(String),
    /// The named declaration has another number of generic parameters
    /// than shapes were given for them.
    GenericCount(String),
}

pub ghost enum ResolveErrorView {
    DuplicateIdentity(Seq<char>),
    DanglingReference(Seq<char>),
    UnknownType(Seq<char>),
    GenericCount(Seq<char>),
}

impl View for ResolveError {
    type V = ResolveErrorView;

    open spec fn view(&self) -> ResolveErrorView {
        match self {
            ResolveError::DuplicateIdentity(n) => ResolveErrorView::DuplicateIdentity(n@),
            ResolveError::DanglingReference(n) => ResolveErrorView::DanglingReference(n@),
            ResolveError::UnknownType(n) => ResolveErrorView::UnknownType(n@),
            ResolveError::GenericCount(n) => ResolveErrorView::GenericCount(n@),
        }
    }
}

/// The declarations of a catalog, in the order in which they were given.
pub type Declarations = Seq<DataTypeExtView>;

/// The definitions that a context holds, each under its fingerprint.
pub type Definitions = Map<u64, DataTypeExtView>;

pub open spec fn view_decls(v: Vec<DataTypeExt>) -> Declarations {
    Seq::new(v@.len(), |i: int| v@[i]@)
}

/// The fingerprint of the declaration at position `i`.
pub open spec fn hash_at(s: Declarations, i: int) -> u64 {
    s[i].sid.hash
}

/// The first position, from `k` on, of a declaration with the fingerprint
/// `h`; the number of declarations where there is none.
pub open spec fn index_of(s: Declarations, h: u64, k: int) -> int
    decreases s.len() - k,
{
    if k < 0 || k >= s.len() {
        s.len() as int
    } else if hash_at(s, k) == h {
        k
    } else {
        index_of(s, h, k + 1)
    }
}

/// A type with the fingerprint `h` is declared.
pub open spec fn declares(s: Declarations, h: u64) -> bool {
    index_of(s, h, 0) < s.len()
}

/// The declaration with the fingerprint `h`.
pub open spec fn decl_of(s: Declarations, h: u64) -> DataTypeExtView {
    s[index_of(s, h, 0)]
}

/// An earlier declaration has the fingerprint of the declaration at `j`.
pub open spec fn dup_at(s: Declarations, j: int) -> bool {
    exists|i: int| 0 <= i < j && #[trigger] hash_at(s, i) == hash_at(s, j)
}

/// No two declarations have the same fingerprint.
pub open spec fn distinct(s: Declarations) -> bool {
    forall|j: int| 0 <= j < s.len() ==> !#[trigger] dup_at(s, j)
}

/// Every type that the declaration at `i` refers to is declared.
pub open spec fn decl_closed(s: Declarations, i: int) -> bool {
    forall|k: int|
        0 <= k < refs(s[i].inner).len() ==> declares(s, #[trigger] refs(s[i].inner)[k])
}

/// Every type that a declaration refers to is declared.
pub open spec fn closed(s: Declarations) -> bool {
    forall|i: int| 0 <= i < s.len() ==> #[trigger] decl_closed(s, i)
}

/// The declaration at `j` is the first that repeats the fingerprint of an
/// earlier one.
pub open spec fn first_dup(s: Declarations, j: int) -> bool {
    &&& 0 <= j < s.len()
    &&& dup_at(s, j)
    &&& forall|i: int| 0 <= i < j ==> !#[trigger] dup_at(s, i)
}

/// The declaration at `j` is the first that refers to a type that is not
/// declared.
pub open spec fn first_open(s: Declarations, j: int) -> bool {
    &&& 0 <= j < s.len()
    &&& !decl_closed(s, j)
    &&& forall|i: int| 0 <= i < j ==> #[trigger] decl_closed(s, i)
}

/// Every type that a definition refers to has a definition.
pub open spec fn settled(m: Definitions) -> bool {
    forall|h: u64, k: int|
        m.dom().contains(h) && 0 <= k < refs(m[h].inner).len() ==> m.dom().contains(
            #[trigger] refs(m[h].inner)[k],
        )
}

/// `b` holds all that `a` holds, unchanged, and beyond that only
/// declarations of `s`, each under its own fingerprint.
pub open spec fn grows(s: Declarations, a: Definitions, b: Definitions) -> bool {
    &&& forall|h: u64| #[trigger] a.dom().contains(h) ==> b.dom().contains(h) && b[h] == a[h]
    &&& forall|h: u64|
        #[trigger] b.dom().contains(h) && !a.dom().contains(h) ==> declares(s, h) && b[h]
            == decl_of(s, h)
}

/// With every declared type that `x` holds, `x` holds the types that its
/// declaration refers to.
pub open spec fn closed_set(s: Declarations, x: Set<u64>) -> bool {
    forall|g: u64, k: int|
        x.contains(g) && declares(s, g) && 0 <= k < refs(decl_of(s, g).inner).len()
            ==> x.contains(#[trigger] refs(decl_of(s, g).inner)[k])
}

/// `x` holds every fingerprint of `roots`.
pub open spec fn holds_all(x: Set<u64>, roots: Seq<u64>) -> bool {
    forall|k: int| 0 <= k < roots.len() ==> x.contains(#[trigger] roots[k])
}

/// `dom` lies within every closed set that holds `base` and `roots`: it
/// holds no type but those of `base`, those of `roots`, and those that
/// these lead to.
pub open spec fn least_above(s: Declarations, base: Set<u64>, roots: Seq<u64>, dom: Set<u64>) -> bool {
    forall|x: Set<u64>|
        #[trigger] closed_set(s, x) && base.subset_of(x) && holds_all(x, roots)
            ==> dom.subset_of(x)
}

/// What `index_of` finds is a declaration with the fingerprint, and the
/// first one.
pub proof fn lemma_index_of(s: Declarations, h: u64, k: int)
    requires
        0 <= k <= s.len(),
    ensures
        k <= index_of(s, h, k) <= s.len(),
        index_of(s, h, k) < s.len() ==> hash_at(s, index_of(s, h, k)) == h,
        forall|j: int| k <= j < index_of(s, h, k) ==> hash_at(s, j) != h,
    decreases s.len() - k,
{
    if k < s.len() && hash_at(s, k) != h {
        lemma_index_of(s, h, k + 1);
    }
}

type Raw = Map<u64, Option<DataTypeExt>>;

spec fn raw_view(m: Raw) -> Definitions {
    Map::new(
        |h: u64| m.dom().contains(h),
        |h: u64|
            match m[h] {
                Some(d) => d@,
                None => arbitrary(),
            },
    )
}

spec fn raw_complete(m: Raw) -> bool {
    forall|h: u64| #[trigger] m.dom().contains(h) ==> m[h] is Some
}

spec fn raw_settled(m: Raw) -> bool {
    forall|h: u64, k: int|
        m.dom().contains(h) && m[h] is Some && 0 <= k < refs(m[h]->0@.inner).len()
            ==> m.dom().contains(#[trigger] refs(m[h]->0@.inner)[k])
}

spec fn raw_grows(s: Declarations, a: Raw, b: Raw) -> bool {
    &&& forall|h: u64| #[trigger] a.dom().contains(h) ==> b.dom().contains(h) && b[h] == a[h]
    &&& forall|h: u64|
        #[trigger] b.dom().contains(h) && !a.dom().contains(h) ==> declares(s, h) && b[h] is Some
            && b[h]->0@ == decl_of(s, h)
}

/// How many of the first `n` declarations have no entry in `dom`.
spec fn pending(s: Declarations, dom: Set<u64>, n: nat) -> nat
    decreases n,
{
    if n == 0 || n > s.len() {
        0
    } else {
        pending(s, dom, (n - 1) as nat) + if dom.contains(hash_at(s, n - 1)) {
            0nat
        } else {
            1nat
        }
    }
}

proof fn lemma_pending_mono(s: Declarations, a: Set<u64>, b: Set<u64>, n: nat)
    requires
        forall|h: u64| a.contains(h) ==> b.contains(h),
    ensures
        pending(s, b, n) <= pending(s, a, n),
    decreases n,
{
    if n > 0 && n <= s.len() {
        lemma_pending_mono(s, a, b, (n - 1) as nat);
    }
}

proof fn lemma_pending_strict(s: Declarations, a: Set<u64>, b: Set<u64>, n: nat, i: int)
    requires
        forall|h: u64| a.contains(h) ==> b.contains(h),
        0 <= i < n <= s.len(),
        !a.contains(hash_at(s, i)),
        b.contains(hash_at(s, i)),
    ensures
        pending(s, b, n) < pending(s, a, n),
    decreases n,
{
    if i == n - 1 {
        lemma_pending_mono(s, a, b, (n - 1) as nat);
    } else {
        lemma_pending_strict(s, a, b, (n - 1) as nat, i);
    }
}

/// The position of the declaration with the fingerprint `h`.
fn find(decls: &Vec<DataTypeExt>, h: u64) -> (r: Option<usize>)
    ensures
        match r {
            Some(i) => i < decls@.len() && i == index_of(view_decls(*decls), h, 0) && hash_at(
                view_decls(*decls),
                i as int,
            ) == h,
            None => !declares(view_decls(*decls), h),
        },
{
    let mut k: usize = 0;
    while k < decls.len()
        invariant
            k <= decls.len(),
            index_of(view_decls(*decls), h, 0) == index_of(view_decls(*decls), h, k as int),
        decreases decls.len() - k,
    {
        if decls[k].sid.hash() == h {
            return Some(k);
        }
        k += 1;
    }
    None
}

/// Gives every type of `wanted` a definition, and through `register` every
/// type that those refer to.
#[verifier::loop_isolation(false)]
fn register_all(decls: &Vec<DataTypeExt>, wanted: &Vec<u64>, m: &mut HashMap<u64, Option<DataTypeExt>>)
    requires
        closed(view_decls(*decls)),
        distinct(view_decls(*decls)),
        forall|k: int| 0 <= k < wanted@.len() ==> declares(view_decls(*decls), wanted@[k]),
    ensures
        raw_grows(view_decls(*decls), old(m)@, final(m)@),
        raw_settled(old(m)@) ==> raw_settled(final(m)@),
        forall|k: int| 0 <= k < wanted@.len() ==> final(m)@.dom().contains(wanted@[k]),
        least_above(view_decls(*decls), old(m)@.dom(), wanted@, final(m)@.dom()),
    decreases pending(view_decls(*decls), old(m)@.dom(), decls@.len() as nat), 1nat,
{
    let mut k: usize = 0;
    while k < wanted.len()
        invariant
            k <= wanted.len(),
            raw_grows(view_decls(*decls), old(m)@, m@),
            raw_settled(old(m)@) ==> raw_settled(m@),
            forall|j: int| 0 <= j < k ==> m@.dom().contains(wanted@[j]),
            least_above(view_decls(*decls), old(m)@.dom(), wanted@, m@.dom()),
        decreases wanted.len() - k,
    {
        match find(decls, wanted[k]) {
            Some(j) => {
                proof {
                    lemma_pending_mono(
                        view_decls(*decls),
                        old(m)@.dom(),
                        m@.dom(),
                        decls@.len() as nat,
                    );
                }
                let ghost held = m@.dom();
                register(decls, j, m);
                proof {
                    assert forall|x: Set<u64>|
                        #[trigger] closed_set(view_decls(*decls), x) && old(m)@.dom().subset_of(x)
                            && holds_all(x, wanted@) implies m@.dom().subset_of(x) by {
                        assert(held.subset_of(x));
                        assert(x.contains(wanted@[k as int]));
                        assert(holds_all(x, seq![wanted@[k as int]]));
                    }
                }
            },
            None => {
                assert(false);
            },
        }
        k += 1;
    }
}

/// Gives the declaration at `idx` a definition, unless it has an entry
/// already. The entry is reserved before the types that the declaration
/// refers to are looked at, so a type that refers to itself, directly or
/// through others, is met again as an entry and not looked at twice.
fn register(decls: &Vec<DataTypeExt>, idx: usize, m: &mut HashMap<u64, Option<DataTypeExt>>)
    requires
        idx < decls@.len(),
        closed(view_decls(*decls)),
        distinct(view_decls(*decls)),
    ensures
        raw_grows(view_decls(*decls), old(m)@, final(m)@),
        raw_settled(old(m)@) ==> raw_settled(final(m)@),
        final(m)@.dom().contains(hash_at(view_decls(*decls), idx as int)),
        old(m)@.dom().contains(hash_at(view_decls(*decls), idx as int)) ==> final(m)@ == old(m)@,
        least_above(
            view_decls(*decls),
            old(m)@.dom(),
            seq![hash_at(view_decls(*decls), idx as int)],
            final(m)@.dom(),
        ),
    decreases pending(view_decls(*decls), old(m)@.dom(), decls@.len() as nat), 0nat,
{
    let ghost s = view_decls(*decls);
    let h = decls[idx].sid.hash();
    if m.contains_key(&h) {
        return ;
    }
    m.insert(h, None);
    let ghost reserved = m@;
    let wanted = references(&decls[idx].inner);
    proof {
        assert(decl_closed(s, idx as int));
        lemma_pending_strict(
            s,
            old(m)@.dom(),
            reserved.dom(),
            decls@.len() as nat,
            idx as int,
        );
        assert(raw_settled(old(m)@) ==> raw_settled(reserved));
    }
    register_all(decls, &wanted, m);
    let ghost filled = m@;
    let d = decls[idx].duplicate();
    m.insert(h, Some(d));
    proof {
        lemma_index_of(s, h, 0);
        assert(hash_at(s, idx as int) == h);
        assert(index_of(s, h, 0) <= idx);
        if index_of(s, h, 0) < idx {
            assert(hash_at(s, index_of(s, h, 0)) == hash_at(s, idx as int));
            assert(dup_at(s, idx as int));
        }
        assert(decl_of(s, h) == s[idx as int]);
        assert forall|g: u64| #[trigger]
            m@.dom().contains(g) && !old(m)@.dom().contains(g) implies declares(s, g)
            && m@[g] is Some && m@[g]->0@ == decl_of(s, g) by {
            if g != h {
                assert(filled.dom().contains(g));
                assert(!reserved.dom().contains(g));
            }
        }
        assert forall|g: u64| #[trigger] old(m)@.dom().contains(g) implies m@.dom().contains(g)
            && m@[g] == old(m)@[g] by {
            assert(reserved.dom().contains(g));
        }
        assert forall|x: Set<u64>|
            #[trigger] closed_set(s, x) && old(m)@.dom().subset_of(x) && holds_all(
                x,
                seq![h],
            ) implies m@.dom().subset_of(x) by {
            assert(x.contains(seq![h][0]));
            assert(reserved.dom().subset_of(x));
            assert forall|k: int| 0 <= k < wanted@.len() implies x.contains(
                #[trigger] wanted@[k],
            ) by {
                assert(x.contains(refs(decl_of(s, h).inner)[k]));
            }
            assert(holds_all(x, wanted@));
            assert(filled.dom().subset_of(x));
        }
        if raw_settled(old(m)@) {
            assert forall|g: u64, k: int|
                m@.dom().contains(g) && m@[g] is Some && 0 <= k < refs(
                    m@[g]->0@.inner,
                ).len() implies m@.dom().contains(#[trigger] refs(m@[g]->0@.inner)[k]) by {
                if g != h {
                    assert(filled.dom().contains(g));
                    assert(filled.dom().contains(refs(filled[g]->0@.inner)[k]));
                } else {
                    assert(filled.dom().contains(wanted@[k]));
                }
            }
        }
    }
}

/// The declarations of the named types that can be resolved. No two of them
/// have the same fingerprint, and none refers to a type that is not declared.
pub struct TypeCatalog {
    decls: Vec<DataTypeExt>,
}

impl View for TypeCatalog {
    type V = Declarations;

    closed spec fn view(&self) -> Declarations {
        view_decls(self.decls)
    }
}

/// The definitions that resolving has gathered so far. Every type that one
/// of them refers to has a definition here too.
pub struct TypeDefs {
    defs: HashMap<u64, Option<DataTypeExt>>,
}

impl View for TypeDefs {
    type V = Definitions;

    closed spec fn view(&self) -> Definitions {
        raw_view(self.defs@)
    }
}

impl TypeDefs {
    #[verifier::type_invariant]
    spec fn wf(&self) -> bool {
        &&& raw_complete(self.defs@)
        &&& raw_settled(self.defs@)
    }

    /// A context without definitions.
    pub fn new() -> (r: Self)
        ensures
            r@ == Definitions::empty(),
    {
        let r = TypeDefs { defs: HashMap::new() };
        assert(r@ =~= Definitions::empty());
        r
    }

    /// The number of definitions. None of them refers to a type without a
    /// definition.
    pub fn len(&self) -> (n: usize)
        ensures
            n == self@.len(),
            settled(self@),
    {
        proof {
            use_type_invariant(&*self);
            assert(self@.dom() =~= self.defs@.dom());
            lemma_raw_settled(self.defs@);
        }
        self.defs.len()
    }

    /// Whether the type has a definition.
    pub fn contains(&self, sid: &SpectaID) -> (b: bool)
        ensures
            b == self@.dom().contains(sid@.hash),
    {
        let h = sid.hash();
        self.defs.contains_key(&h)
    }

    /// Whether every type that the shape refers to has a definition here:
    /// whether none of its references dangles.
    pub fn resolves(&self, d: &DataType) -> (b: bool)
        ensures
            b == holds_all(self@.dom(), refs(d@)),
    {
        let wanted = references(d);
        let mut k: usize = 0;
        while k < wanted.len()
            invariant
                k <= wanted.len(),
                wanted@ == refs(d@),
                forall|j: int| 0 <= j < k ==> self@.dom().contains(wanted@[j]),
            decreases wanted.len() - k,
        {
            let h = wanted[k];
            if !self.defs.contains_key(&h) {
                assert(!self@.dom().contains(wanted@[k as int]));
                return false;
            }
            k += 1;
        }
        true
    }

    /// The definition of the type.
    pub fn get(&self, sid: &SpectaID) -> (r: Option<&DataTypeExt>)
        ensures
            match r {
                Some(d) => self@.dom().contains(sid@.hash) && d@ == self@[sid@.hash],
                None => !self@.dom().contains(sid@.hash),
            },
    {
        proof {
            use_type_invariant(&*self);
        }
        let h = sid.hash();
        match self.defs.get(&h) {
            Some(Some(d)) => Some(d),
            _ => None,
        }
    }
}

proof fn lemma_raw_settled(m: Raw)
    requires
        raw_complete(m),
        raw_settled(m),
    ensures
        settled(raw_view(m)),
{
    let v = raw_view(m);
    assert forall|h: u64, k: int|
        v.dom().contains(h) && 0 <= k < refs(v[h].inner).len() implies v.dom().contains(
        #[trigger] refs(v[h].inner)[k],
    ) by {
        assert(m.dom().contains(h));
        assert(m.dom().contains(refs(m[h]->0@.inner)[k]));
    }
}

proof fn lemma_raw_grows(s: Declarations, a: Raw, b: Raw)
    requires
        raw_complete(a),
        raw_grows(s, a, b),
    ensures
        raw_complete(b),
        grows(s, raw_view(a), raw_view(b)),
        raw_view(a).dom() == a.dom(),
        raw_view(b).dom() == b.dom(),
        a == b ==> raw_view(a) == raw_view(b),
{
    let x = raw_view(a);
    let y = raw_view(b);
    assert(x.dom() =~= a.dom());
    assert(y.dom() =~= b.dom());
    assert forall|h: u64| #[trigger] b.dom().contains(h) implies b[h] is Some by {
        if a.dom().contains(h) {
            assert(b[h] == a[h]);
        }
    }
    assert forall|h: u64| #[trigger] x.dom().contains(h) implies y.dom().contains(h) && y[h]
        == x[h] by {
        assert(a.dom().contains(h));
    }
    assert forall|h: u64| #[trigger] y.dom().contains(h) && !x.dom().contains(h) implies declares(
        s,
        h,
    ) && y[h] == decl_of(s, h) by {
        assert(b.dom().contains(h) && !a.dom().contains(h));
    }
}

/// The reference to the declaration `t` with the generic arguments `generics`.
pub open spec fn reference_to(t: DataTypeExtView, generics: Seq<DataTypeView>) -> DataTypeReferenceView {
    DataTypeReferenceView { name: t.name, sid: t.sid, generics }
}

/// What resolving the type with the fingerprint `h` by name gives: no
/// reference and no change where the type is not declared; else the
/// reference to its declaration, and a context that has grown, holds the
/// type, holds nothing new but the type and what it leads to, and is the
/// old one where that held the type already.
pub open spec fn named_post(
    s: Declarations,
    h: u64,
    generics: Seq<DataTypeView>,
    before: Definitions,
    after: Definitions,
    r: Option<DataTypeReferenceView>,
) -> bool {
    if declares(s, h) {
        &&& r == Some(reference_to(decl_of(s, h), generics))
        &&& grows(s, before, after)
        &&& after.dom().contains(h)
        &&& least_above(s, before.dom(), seq![h], after.dom())
        &&& before.dom().contains(h) ==> after == before
    } else {
        r is None && after == before
    }
}

/// What resolving the type with the fingerprint `h` inline gives, where
/// `name` is the name that the request gave the type: an error and no
/// change where the type is not declared or the number of shapes is not
/// that of its parameters; else the shape of the declaration after the
/// substitution, and a context that has grown, holds the types that the
/// declaration refers to, and holds nothing new but those and what they
/// lead to.
pub open spec fn inline_post(
    s: Declarations,
    h: u64,
    name: Seq<char>,
    generics: Seq<DataTypeView>,
    before: Definitions,
    after: Definitions,
    r: Result<DataTypeView, ResolveErrorView>,
) -> bool {
    if !declares(s, h) {
        r == Err::<DataTypeView, ResolveErrorView>(ResolveErrorView::UnknownType(name)) && after
            == before
    } else if declared_generics(decl_of(s, h).inner).len() != generics.len() {
        r == Err::<DataTypeView, ResolveErrorView>(
            ResolveErrorView::GenericCount(decl_of(s, h).name),
        ) && after == before
    } else {
        &&& r == Ok::<DataTypeView, ResolveErrorView>(
            subst(decl_of(s, h).inner, declared_generics(decl_of(s, h).inner), generics),
        )
        &&& grows(s, before, after)
        &&& holds_all(after.dom(), refs(decl_of(s, h).inner))
        &&& least_above(s, before.dom(), refs(decl_of(s, h).inner), after.dom())
    }
}

/// What resolving gives where the caller says which of the two shapes it
/// wants: with `parent_inline` the shape of the declaration itself, without
/// it the reference to the declaration; for a type that is not declared an
/// error that names the type as the request did, and no change.
pub open spec fn resolve_post(
    s: Declarations,
    h: u64,
    name: Seq<char>,
    generics: Seq<DataTypeView>,
    parent_inline: bool,
    before: Definitions,
    after: Definitions,
    r: Result<DataTypeView, ResolveErrorView>,
) -> bool {
    if parent_inline {
        inline_post(s, h, name, generics, before, after, r)
    } else if declares(s, h) {
        &&& r == Ok::<DataTypeView, ResolveErrorView>(
            DataTypeView::Reference(reference_to(decl_of(s, h), generics)),
        )
        &&& named_post(
            s,
            h,
            generics,
            before,
            after,
            Some(reference_to(decl_of(s, h), generics)),
        )
    } else {
        r == Err::<DataTypeView, ResolveErrorView>(ResolveErrorView::UnknownType(name)) && after
            == before
    }
}

pub open spec fn option_view(r: Option<DataTypeReference>) -> Option<DataTypeReferenceView> {
    match r {
        Some(x) => Some(x@),
        None => None,
    }
}

pub open spec fn inline_view(r: Result<DataType, ResolveError>) -> Result<
    DataTypeView,
    ResolveErrorView,
> {
    match r {
        Ok(d) => Ok(d@),
        Err(e) => Err(e@),
    }
}

impl TypeCatalog {
    #[verifier::type_invariant]
    spec fn wf(&self) -> bool {
        &&& distinct(view_decls(self.decls))
        &&& closed(view_decls(self.decls))
    }

    /// A catalog of the given declarations. It is refused where two
    /// declarations have the same fingerprint, with the name of the first
    /// declaration that repeats an earlier one; else where a declaration
    /// refers to a type that is not declared, with the name of the first
    /// such declaration.
    pub fn new(decls: Vec<DataTypeExt>) -> (r: Result<TypeCatalog, ResolveError>)
        ensures
            match r {
                Ok(c) => c@ == view_decls(decls) && distinct(c@) && closed(c@),
                Err(e) => match e@ {
                    ResolveErrorView::DuplicateIdentity(n) => exists|j: int|
                        #[trigger] first_dup(view_decls(decls), j) && n == view_decls(decls)[j].name,
                    ResolveErrorView::DanglingReference(n) => distinct(view_decls(decls))
                        && exists|j: int|
                        #[trigger] first_open(view_decls(decls), j) && n == view_decls(
                            decls,
                        )[j].name,
                    _ => false,
                },
            },
    {
        let ghost s = view_decls(decls);
        let mut j: usize = 0;
        while j < decls.len()
            invariant
                j <= decls.len(),
                s == view_decls(decls),
                forall|i: int| 0 <= i < j ==> !#[trigger] dup_at(s, i),
            decreases decls.len() - j,
        {
            let h = decls[j].sid.hash();
            let mut i: usize = 0;
            while i < j
                invariant
                    i <= j < decls.len(),
                    s == view_decls(decls),
                    h == hash_at(s, j as int),
                    forall|k: int| 0 <= k < j ==> !#[trigger] dup_at(s, k),
                    forall|k: int| 0 <= k < i ==> hash_at(s, k) != h,
                decreases j - i,
            {
                if decls[i].sid.hash() == h {
                    assert(hash_at(s, i as int) == hash_at(s, j as int));
                    assert(dup_at(s, j as int));
                    assert(first_dup(s, j as int));
                    return Err(ResolveError::DuplicateIdentity(decls[j].name.clone()));
                }
                i += 1;
            }
            j += 1;
        }
        let mut j: usize = 0;
        while j < decls.len()
            invariant
                j <= decls.len(),
                s == view_decls(decls),
                distinct(s),
                forall|i: int| 0 <= i < j ==> #[trigger] decl_closed(s, i),
            decreases decls.len() - j,
        {
            let wanted = references(&decls[j].inner);
            let mut k: usize = 0;
            while k < wanted.len()
                invariant
                    k <= wanted.len(),
                    j < decls.len(),
                    s == view_decls(decls),
                    wanted@ == refs(s[j as int].inner),
                    distinct(s),
                    forall|i: int| 0 <= i < j ==> #[trigger] decl_closed(s, i),
                    forall|i: int| 0 <= i < k ==> declares(s, wanted@[i]),
                decreases wanted.len() - k,
            {
                if find(&decls, wanted[k]).is_none() {
                    assert(!declares(s, refs(s[j as int].inner)[k as int]));
                    assert(!decl_closed(s, j as int));
                    assert(first_open(s, j as int));
                    return Err(ResolveError::DanglingReference(decls[j].name.clone()));
                }
                k += 1;
            }
            assert(decl_closed(s, j as int));
            j += 1;
        }
        Ok(TypeCatalog { decls })
    }

    /// The number of declarations. No two of them have the same
    /// fingerprint, and every type that one refers to is declared.
    pub fn len(&self) -> (n: usize)
        ensures
            n == self@.len(),
            distinct(self@),
            closed(self@),
    {
        proof {
            use_type_invariant(&*self);
        }
        self.decls.len()
    }

    /// The declaration at position `i`, in the order in which the
    /// declarations were given.
    pub fn entry(&self, i: usize) -> (r: Option<&DataTypeExt>)
        ensures
            match r {
                Some(d) => i < self@.len() && d@ == self@[i as int],
                None => i >= self@.len(),
            },
    {
        if i < self.decls.len() {
            Some(&self.decls[i])
        } else {
            None
        }
    }

    /// The declaration of the type.
    pub fn get(&self, sid: &SpectaID) -> (r: Option<&DataTypeExt>)
        ensures
            match r {
                Some(d) => declares(self@, sid@.hash) && d@ == decl_of(self@, sid@.hash),
                None => !declares(self@, sid@.hash),
            },
    {
        match find(&self.decls, sid.hash()) {
            Some(i) => Some(&self.decls[i]),
            None => None,
        }
    }

    /// Resolves a type by name. A type that has a definition in the context
    /// is referred to at once, and the context stays as it is. Else the type
    /// and every type it refers to, directly or through others, get their
    /// definitions, each once, and the type is referred to.
    pub fn resolve_named(&self, sid: &SpectaID, generics: Vec<DataType>, type_map: &mut TypeDefs) -> (r:
        Option<DataTypeReference>)
        ensures
            named_post(
                self@,
                sid@.hash,
                view_types(generics),
                old(type_map)@,
                final(type_map)@,
                option_view(r),
            ),
            settled(final(type_map)@),
    {
        proof {
            use_type_invariant(&*self);
            use_type_invariant(&*type_map);
            lemma_raw_settled(type_map.defs@);
        }
        match find(&self.decls, sid.hash()) {
            None => None,
            Some(i) => {
                let mut taken = TypeDefs { defs: HashMap::new() };
                std::mem::swap(type_map, &mut taken);
                let TypeDefs { defs } = taken;
                let mut defs = defs;
                let ghost before = defs@;
                register(&self.decls, i, &mut defs);
                proof {
                    lemma_raw_grows(self@, before, defs@);
                    lemma_raw_settled(defs@);
                }
                *type_map = TypeDefs { defs };
                Some(
                    DataTypeReference {
                        name: self.decls[i].name.clone(),
                        sid: self.decls[i].sid,
                        generics,
                    },
                )
            },
        }
    }

    /// Resolves a type as its parent wants it: inline where `parent_inline`
    /// is set, else by name.
    pub fn resolve(
        &self,
        sid: &SpectaID,
        generics: Vec<DataType>,
        parent_inline: bool,
        type_map: &mut TypeDefs,
    ) -> (r: Result<DataType, ResolveError>)
        ensures
            resolve_post(
                self@,
                sid@.hash,
                sid@.name,
                view_types(generics),
                parent_inline,
                old(type_map)@,
                final(type_map)@,
                inline_view(r),
            ),
            settled(final(type_map)@),
    {
        if parent_inline {
            self.resolve_inline(sid, &generics, type_map)
        } else {
            match self.resolve_named(sid, generics, type_map) {
                Some(x) => Ok(DataType::Reference(x)),
                None => Err(ResolveError::UnknownType(String::from_str(sid.name()))),
            }
        }
    }

    /// Resolves a type inline: gives the shape of its declaration with the
    /// shapes of `generics` in the place of its generic parameters, after
    /// every type that the declaration refers to has got its definition.
    pub fn resolve_inline(&self, sid: &SpectaID, generics: &Vec<DataType>, type_map: &mut TypeDefs) -> (r:
        Result<DataType, ResolveError>)
        ensures
            inline_post(
                self@,
                sid@.hash,
                sid@.name,
                view_types(*generics),
                old(type_map)@,
                final(type_map)@,
                inline_view(r),
            ),
            settled(final(type_map)@),
    {
        proof {
            use_type_invariant(&*self);
            use_type_invariant(&*type_map);
            lemma_raw_settled(type_map.defs@);
        }
        match find(&self.decls, sid.hash()) {
            None => Err(ResolveError::UnknownType(String::from_str(sid.name()))),
            Some(i) => {
                let decl = &self.decls[i];
                let none: Vec<String> = Vec::new();
                let names: &Vec<String> = match &decl.inner {
                    DataType::Struct(s) => &s.generics,
                    DataType::Enum(e) => &e.generics,
                    _ => &none,
                };
                assert(crate::datatype::view_names(*names) =~= declared_generics(decl@.inner));
                if names.len() != generics.len() {
                    return Err(ResolveError::GenericCount(decl.name.clone()));
                }
                let wanted = references(&decl.inner);
                assert(decl_closed(self@, i as int));
                let mut taken = TypeDefs { defs: HashMap::new() };
                std::mem::swap(type_map, &mut taken);
                let TypeDefs { defs } = taken;
                let mut defs = defs;
                let ghost before = defs@;
                register_all(&self.decls, &wanted, &mut defs);
                proof {
                    lemma_raw_grows(self@, before, defs@);
                    lemma_raw_settled(defs@);
                }
                *type_map = TypeDefs { defs };
                Ok(decl.inner.substitute(names, generics))
            },
        }
    }
}

/// Resolving a type by name a second time gives the same reference and
/// leaves the context as the first time left it: a type has one definition.
pub proof fn lemma_resolve_named_is_idempotent(
    s: Declarations,
    h: u64,
    generics: Seq<DataTypeView>,
    before: Definitions,
    between: Definitions,
    after: Definitions,
    first: Option<DataTypeReferenceView>,
    second: Option<DataTypeReferenceView>,
)
    requires
        named_post(s, h, generics, before, between, first),
        named_post(s, h, generics, between, after, second),
    ensures
        second == first,
        after == between,
        first is Some ==> between.dom().contains(h) && first->0.sid.hash == h,
{
    lemma_index_of(s, h, 0);
}

/// The definitions of `m` are declarations of `s`, each under its own
/// fingerprint.
pub open spec fn drawn_from(s: Declarations, m: Definitions) -> bool {
    forall|h: u64| #[trigger] m.dom().contains(h) ==> declares(s, h) && m[h] == decl_of(s, h)
}

/// Resolving by name has one outcome: the context before and the type
/// decide the reference and the context after, definition by definition.
pub proof fn lemma_resolve_named_is_determined(
    s: Declarations,
    h: u64,
    generics: Seq<DataTypeView>,
    before: Definitions,
    one: Definitions,
    other: Definitions,
    first: Option<DataTypeReferenceView>,
    second: Option<DataTypeReferenceView>,
)
    requires
        drawn_from(s, before),
        named_post(s, h, generics, before, one, first),
        named_post(s, h, generics, before, other, second),
        settled(one),
        settled(other),
    ensures
        first == second,
        one == other,
{
    if declares(s, h) {
        lemma_drawn_is_closed(s, before, one);
        lemma_drawn_is_closed(s, before, other);
        assert(holds_all(one.dom(), seq![h]));
        assert(holds_all(other.dom(), seq![h]));
        assert(one.dom().subset_of(other.dom()));
        assert(other.dom().subset_of(one.dom()));
        assert(one.dom() =~= other.dom());
        assert(one =~= other);
    }
}

/// Resolving inline has one outcome: the context before, the type and the
/// shapes decide the result and the context after, definition by definition.
pub proof fn lemma_resolve_inline_is_determined(
    s: Declarations,
    h: u64,
    name: Seq<char>,
    generics: Seq<DataTypeView>,
    before: Definitions,
    one: Definitions,
    other: Definitions,
    first: Result<DataTypeView, ResolveErrorView>,
    second: Result<DataTypeView, ResolveErrorView>,
)
    requires
        drawn_from(s, before),
        inline_post(s, h, name, generics, before, one, first),
        inline_post(s, h, name, generics, before, other, second),
        settled(one),
        settled(other),
    ensures
        first == second,
        one == other,
{
    if declares(s, h) && declared_generics(decl_of(s, h).inner).len() == generics.len() {
        lemma_drawn_is_closed(s, before, one);
        lemma_drawn_is_closed(s, before, other);
        assert(one.dom().subset_of(other.dom()));
        assert(other.dom().subset_of(one.dom()));
        assert(one.dom() =~= other.dom());
        assert(one =~= other);
    }
}

proof fn lemma_drawn_is_closed(s: Declarations, before: Definitions, after: Definitions)
    requires
        drawn_from(s, before),
        grows(s, before, after),
        settled(after),
    ensures
        drawn_from(s, after),
        closed_set(s, after.dom()),
        before.dom().subset_of(after.dom()),
{
    assert forall|g: u64| #[trigger] after.dom().contains(g) implies declares(s, g) && after[g]
        == decl_of(s, g) by {
        if before.dom().contains(g) {
            assert(after[g] == before[g]);
        }
    }
    assert forall|g: u64, k: int|
        after.dom().contains(g) && declares(s, g) && 0 <= k < refs(
            decl_of(s, g).inner,
        ).len() implies after.dom().contains(#[trigger] refs(decl_of(s, g).inner)[k]) by {
        assert(after[g] == decl_of(s, g));
        assert(after.dom().contains(refs(after[g].inner)[k]));
    }
}

/// Once a type has a definition, resolving leaves that definition as it is.
pub proof fn lemma_definitions_are_kept(s: Declarations, a: Definitions, b: Definitions, c: Definitions)
    requires
        grows(s, a, b),
        grows(s, b, c),
    ensures
        grows(s, a, c),
{
    assert forall|h: u64| #[trigger] c.dom().contains(h) && !a.dom().contains(h) implies declares(
        s,
        h,
    ) && c[h] == decl_of(s, h) by {
        if b.dom().contains(h) {
            assert(c[h] == b[h]);
        }
    }
}

} // verus!
