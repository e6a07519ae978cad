//! The registry of named definitions, and the export of all of it.

use crate::datatype::{DataTypeExt, DataTypeExtView};
use crate::text::{
    compare_names, lemma_name_lt_transitive, lemma_name_order_total, name_lt, NameOrder,
};
use crate::ts::{
    export_datatype, export_text, result_view, ExportConfiguration, Rendered, TsExportError,
    TsExportErrorView,
};
use vstd::prelude::*;
use vstd::string::StringExecFns;

verus! {

/// What a registry holds: names with their definitions.
pub type Entries = Seq<(Seq<char>, DataTypeExtView)>;

/// The names stand in strictly rising order, so none stands twice.
pub open spec fn names_sorted(s: Entries) -> bool {
    forall|i: int, j: int| 0 <= i < j < s.len() ==> name_lt(#[trigger] s[i].0, #[trigger] s[j].0)
}

/// The name `n` is registered.
pub open spec fn has_entry(s: Entries, n: Seq<char>) -> bool {
    exists|i: int| 0 <= i < s.len() && #[trigger] s[i].0 == n
}

/// The place of the name `n` among the entries from `k` on: the first
/// position whose name does not stand before `n`.
pub open spec fn insert_pos(s: Entries, n: Seq<char>, k: int) -> int
    decreases s.len() - k,
{
    if k < 0 || k >= s.len() || !name_lt(s[k].0, n) {
        k
    } else {
        insert_pos(s, n, k + 1)
    }
}

/// The definitions gathered for export, in the order of their names.
pub struct TypeRegistry {
    entries: Vec<(String, DataTypeExt)>,
}

impl View for TypeRegistry {
    type V = Entries;

    closed spec fn view(&self) -> Entries {
        Seq::new(self.entries@.len(), |i: int| (self.entries@[i].0@, self.entries@[i].1@))
    }
}

impl TypeRegistry {
    #[verifier::type_invariant]
    spec fn ordered(&self) -> bool {
        names_sorted(self@)
    }

    /// A registry that holds nothing.
    pub fn new() -> (r: Self)
        ensures
            r@ == Entries::empty(),
    {
        let r = TypeRegistry { entries: Vec::new() };
        assert(r@ =~= Entries::empty());
        r
    }

    /// The number of definitions. They stand in the order of their names.
    pub fn len(&self) -> (n: usize)
        ensures
            n == self@.len(),
            names_sorted(self@),
    {
        proof {
            use_type_invariant(&*self);
        }
        self.entries.len()
    }

    /// The definition at position `i` in the order of the names, with its name.
    pub fn entry(&self, i: usize) -> (r: Option<(&String, &DataTypeExt)>)
        ensures
            match r {
                Some((n, t)) => i < self@.len() && self@[i as int] == (n@, t@),
                None => i >= self@.len(),
            },
    {
        if i < self.entries.len() {
            Some((&self.entries[i].0, &self.entries[i].1))
        } else {
            None
        }
    }

    /// The definition registered under `name`.
    pub fn get(&self, name: &str) -> (r: Option<&DataTypeExt>)
        ensures
            match r {
                Some(t) => exists|i: int| 0 <= i < self@.len() && self@[i] == (name@, t@),
                None => !has_entry(self@, name@),
            },
    {
        let mut k: usize = 0;
        while k < self.entries.len()
            invariant
                k <= self.entries.len(),
                forall|j: int| 0 <= j < k ==> self@[j].0 != name@,
            decreases self.entries.len() - k,
        {
            match compare_names(self.entries[k].0.as_str(), name) {
                NameOrder::Equal => {
                    proof {
                        lemma_name_order_total(self@[k as int].0, name@);
                        assert(self@[k as int] == (name@, self.entries@[k as int].1@));
                    }
                    return Some(&self.entries[k].1);
                },
                _ => {
                    proof {
                        lemma_name_order_total(self@[k as int].0, name@);
                    }
                },
            }
            k += 1;
        }
        None
    }

    /// Registers `typ` under `name` unless the name is taken. A name is
    /// registered once: a second registration changes nothing and gives
    /// `false`. The definitions stay in the order of their names.
    pub fn register(&mut self, name: String, typ: DataTypeExt) -> (added: bool)
        ensures
            added == !has_entry(old(self)@, name@),
            added ==> final(self)@ == old(self)@.insert(
                insert_pos(old(self)@, name@, 0),
                (name@, typ@),
            ),
            !added ==> final(self)@ == old(self)@,
            names_sorted(final(self)@),
    {
        proof {
            use_type_invariant(&*self);
        }
        let ghost before = self@;
        let mut k: usize = 0;
        let mut found: bool = false;
        while k < self.entries.len()
            invariant_except_break
                !found,
                insert_pos(before, name@, 0) == insert_pos(before, name@, k as int),
            invariant
                k <= self.entries.len(),
                self@ == before,
                names_sorted(before),
                forall|j: int| 0 <= j < k ==> name_lt(#[trigger] before[j].0, name@),
            ensures
                k <= self.entries.len(),
                self@ == before,
                insert_pos(before, name@, 0) == k,
                forall|j: int| 0 <= j < k ==> name_lt(#[trigger] before[j].0, name@),
                found ==> k < before.len() && before[k as int].0 == name@,
                !found ==> forall|j: int| k <= j < before.len() ==> name_lt(name@, #[trigger] before[j].0),
            decreases self.entries.len() - k,
        {
            proof {
                lemma_name_order_total(before[k as int].0, name@);
                lemma_name_order_total(name@, before[k as int].0);
            }
            match compare_names(self.entries[k].0.as_str(), name.as_str()) {
                NameOrder::Less => {
                    k += 1;
                },
                NameOrder::Equal => {
                    found = true;
                    break ;
                },
                NameOrder::Greater => {
                    proof {
                        assert forall|j: int| k <= j < before.len() implies name_lt(
                            name@,
                            #[trigger] before[j].0,
                        ) by {
                            if k < j {
                                lemma_name_lt_transitive(name@, before[k as int].0, before[j].0);
                            }
                        }
                    }
                    break ;
                },
            }
        }
        if found {
            assert(has_entry(before, name@));
            return false;
        }
        proof {
            assert forall|j: int| 0 <= j < before.len() implies before[j].0 != name@ by {
                lemma_name_order_total(before[j].0, name@);
                lemma_name_order_total(name@, before[j].0);
            }
        }
        let ghost entry = (name@, typ@);
        let mut taken = TypeRegistry { entries: Vec::new() };
        assert(taken@ =~= Entries::empty());
        std::mem::swap(self, &mut taken);
        let TypeRegistry { entries } = taken;
        let mut entries = entries;
        entries.insert(k, (name, typ));
        let ghost after = Seq::new(entries@.len(), |i: int| (entries@[i].0@, entries@[i].1@));
        proof {
            assert(after =~= before.insert(k as int, entry));
            assert forall|i: int, j: int| 0 <= i < j < after.len() implies name_lt(
                #[trigger] after[i].0,
                #[trigger] after[j].0,
            ) by {
                if j < k {
                    assert(after[i] == before[i] && after[j] == before[j]);
                } else if j == k {
                    assert(after[i] == before[i]);
                } else if i < k {
                    assert(after[i] == before[i] && after[j] == before[j - 1]);
                    lemma_name_lt_transitive(before[i].0, name@, before[j - 1].0);
                } else if i == k {
                    assert(after[j] == before[j - 1]);
                } else {
                    assert(after[i] == before[i - 1] && after[j] == before[j - 1]);
                }
            }
        }
        *self = TypeRegistry { entries };
        assert(self@ =~= after);
        true
    }
}

/// Whether a definition is exported: as it says itself, else as the
/// configuration says, else yes.
pub open spec fn is_exported(cfg: ExportConfiguration, t: DataTypeExtView) -> bool {
    match t.export {
        Some(b) => b,
        None => match cfg.export_by_default {
            Some(b) => b,
            None => true,
        },
    }
}

/// The comment at the head of an exported file, with the empty line after it.
pub open spec fn header() -> Seq<char> {
    "// This file has been generated by Specta. DO NOT EDIT.\n\n"@
}

/// The header, then those of the first `n` entries that are exported, each
/// followed by an empty line; the first entry that cannot be rendered gives
/// its error.
pub open spec fn export_entries(cfg: ExportConfiguration, s: Entries, n: nat) -> Rendered
    decreases n,
{
    if n == 0 || n > s.len() {
        Ok(header())
    } else {
        match export_entries(cfg, s, (n - 1) as nat) {
            Err(e) => Err(e),
            Ok(prev) => if !is_exported(cfg, s[n - 1].1) {
                Ok(prev)
            } else {
                match export_text(s[n - 1].1) {
                    Err(e) => Err(e),
                    Ok(cur) => Ok(prev + cur + "\n\n"@),
                }
            },
        }
    }
}

/// The text of a whole export.
pub open spec fn export_all(cfg: ExportConfiguration, s: Entries) -> Rendered {
    export_entries(cfg, s, s.len())
}

proof fn lemma_export_error_sticks(cfg: ExportConfiguration, s: Entries, i: nat, n: nat)
    requires
        i <= n <= s.len(),
        export_entries(cfg, s, i) is Err,
    ensures
        export_entries(cfg, s, n) == export_entries(cfg, s, i),
    decreases n - i,
{
    if i < n {
        lemma_export_error_sticks(cfg, s, i, (n - 1) as nat);
    }
}

fn exported(cfg: &ExportConfiguration, typ: &DataTypeExt) -> (b: bool)
    ensures
        b == is_exported(*cfg, typ@),
{
    match typ.export {
        Some(b) => b,
        None => match cfg.export_by_default {
            Some(b) => b,
            None => true,
        },
    }
}

/// Renders every exported definition of the registry, in the order of the
/// names, below the header; the text is complete or there is none.
pub fn ts_with_cfg(cfg: &ExportConfiguration, types: &TypeRegistry) -> (r: Result<String, TsExportError>)
    ensures
        result_view(r) == export_all(*cfg, types@),
{
    let mut out = String::from_str("// This file has been generated by Specta. DO NOT EDIT.\n\n");
    let n = types.entries.len();
    let mut i: usize = 0;
    while i < n
        invariant
            i <= n,
            n == types.entries@.len(),
            n == types@.len(),
            export_entries(*cfg, types@, i as nat) == Ok::<Seq<char>, TsExportErrorView>(out@),
        decreases n - i,
    {
        let typ = &types.entries[i].1;
        assert(types@[i as int].1 == typ@);
        if exported(cfg, typ) {
            match export_datatype(cfg, typ) {
                Err(e) => {
                    proof {
                        lemma_export_error_sticks(*cfg, types@, (i + 1) as nat, n as nat);
                    }
                    return Err(e);
                },
                Ok(cur) => {
                    out.append(cur.as_str());
                    out.append("\n\n");
                },
            }
        }
        i += 1;
    }
    Ok(out)
}

/// Renders every exported definition of the registry with the default
/// configuration.
pub fn ts(types: &TypeRegistry) -> (r: Result<String, TsExportError>)
    ensures
        result_view(r) == export_all(ExportConfiguration { export_by_default: None }, types@),
{
    let cfg = ExportConfiguration::default();
    ts_with_cfg(&cfg, types)
}

/// Two exports of one registry under one configuration give the same text,
/// or the same error.
pub proof fn lemma_export_is_stable(
    cfg: ExportConfiguration,
    s: Entries,
    first: Result<String, TsExportError>,
    second: Result<String, TsExportError>,
)
    requires
        result_view(first) == export_all(cfg, s),
        result_view(second) == export_all(cfg, s),
    ensures
        result_view(first) == result_view(second),
        first is Ok ==> second is Ok && first->Ok_0@ == second->Ok_0@,
{
}

proof fn lemma_export_skips(cfg: ExportConfiguration, s: Entries, i: int, n: nat)
    requires
        0 <= i < s.len(),
        !is_exported(cfg, s[i].1),
        n <= s.len(),
    ensures
        n <= i ==> export_entries(cfg, s, n) == export_entries(cfg, s.remove(i), n),
        n > i ==> export_entries(cfg, s, n) == export_entries(cfg, s.remove(i), (n - 1) as nat),
    decreases n,
{
    if n > 0 {
        lemma_export_skips(cfg, s, i, (n - 1) as nat);
        if n - 1 < i {
            assert(s.remove(i)[n - 1] == s[n - 1]);
        } else if n - 1 > i {
            assert(s.remove(i)[n - 2] == s[n - 1]);
        }
    }
}

/// A definition that is not exported leaves no trace: the export reads as if
/// the definition were not registered. One that says `Some(false)` itself is
/// not exported under any configuration.
pub proof fn lemma_unexported_is_absent(cfg: ExportConfiguration, s: Entries, i: int)
    requires
        0 <= i < s.len(),
        s[i].1.export == Some(false) || !is_exported(cfg, s[i].1),
    ensures
        !is_exported(cfg, s[i].1),
        export_all(cfg, s) == export_all(cfg, s.remove(i)),
{
    lemma_export_skips(cfg, s, i, s.len());
}

/// Every export opens with the header.
pub proof fn lemma_export_opens_with_header(cfg: ExportConfiguration, s: Entries, n: nat)
    ensures
        match export_entries(cfg, s, n) {
            Ok(t) => t.len() >= header().len() && t.subrange(0, header().len() as int) == header(),
            Err(_) => true,
        },
    decreases n,
{
    if n == 0 || n > s.len() {
        assert(header().subrange(0, header().len() as int) =~= header());
    } else {
        lemma_export_opens_with_header(cfg, s, (n - 1) as nat);
        match export_entries(cfg, s, (n - 1) as nat) {
            Ok(prev) => {
                if is_exported(cfg, s[n - 1].1) {
                    match export_text(s[n - 1].1) {
                        Ok(cur) => {
                            let t = prev + cur + "\n\n"@;
                            assert(t.subrange(0, header().len() as int) =~= prev.subrange(
                                0,
                                header().len() as int,
                            ));
                        },
                        Err(_) => {},
                    }
                }
            },
            Err(_) => {},
        }
    }
}

} // verus!
