//! Generations: numbered snapshots of what is installed, one directory each, with a
//! `current` pointer to the active one.

use vstd::prelude::*;
use crate::text::{all_digits, chars_of, decimal, digit_char, digits_value, parse_u64, parse_u64_v};
use crate::compat::convert::{file_name, file_name_v};
use crate::transaction::error::{TrxError, TrxErrorView};
use crate::transaction::plan::{opt_chars, InstallPlan, PlanEntry, PlanEntryView};

verus! {

/// A package recorded in a generation.
#[derive(Debug, Clone)]
pub struct GenerationPackage {
    pub name: String,
    pub version: String,
    /// BLAKE3 hash of the .fpkg that was installed
    pub blake3: Option<String>,
}

/// Metadata stored in `generations/<id>/meta.json`.
#[derive(Debug, Clone)]
pub struct GenerationMeta {
    pub id: u64,
    /// When the generation was created, as RFC 3339 text.
    pub created_at: String,
    /// Human description: "install firefox 125.0.3", "remove vim", "rollback"
    pub description: String,
    /// Packages installed in this generation (name + version)
    pub packages: Vec<GenerationPackage>,
    /// Generation this was derived from (None = first generation)
    pub parent: Option<u64>,
}

/// A generation on disk: its metadata and its directory.
#[derive(Debug, Clone)]
pub struct Generation {
    pub meta: GenerationMeta,
    pub path: String,
}

/// The plain value of a `GenerationPackage`.
pub struct GenerationPackageView {
    pub name: Seq<char>,
    pub version: Seq<char>,
    pub blake3: Option<Seq<char>>,
}

/// The plain value of a `GenerationMeta`.
pub struct GenerationMetaView {
    pub id: u64,
    pub created_at: Seq<char>,
    pub description: Seq<char>,
    pub packages: Seq<GenerationPackageView>,
    pub parent: Option<u64>,
}

impl View for GenerationPackage {
    type V = GenerationPackageView;

    open spec fn view(&self) -> GenerationPackageView {
        GenerationPackageView { name: self.name@, version: self.version@, blake3: opt_chars(self.blake3) }
    }
}

/// The plain values of recorded packages.
pub open spec fn packages_view(ps: Seq<GenerationPackage>) -> Seq<GenerationPackageView> {
    ps.map_values(|p: GenerationPackage| p@)
}

impl View for GenerationMeta {
    type V = GenerationMetaView;

    open spec fn view(&self) -> GenerationMetaView {
        GenerationMetaView {
            id: self.id,
            created_at: self.created_at@,
            description: self.description@,
            packages: packages_view(self.packages@),
            parent: self.parent,
        }
    }
}

// ------------------------------------------------------------------ ids

/// The ascending order.
pub open spec fn sorted(s: Seq<u64>) -> bool {
    forall|i: int, j: int| 0 <= i <= j < s.len() ==> s[i] <= s[j]
}

/// The generation ids among directory names: the names that parse as `u64`, in order.
pub open spec fn parsed_ids(names: Seq<String>) -> Seq<u64>
    decreases names.len(),
{
    if names.len() == 0 {
        Seq::empty()
    } else {
        match parse_u64(names.last()@) {
            Some(n) => parsed_ids(names.drop_last()).push(n),
            None => parsed_ids(names.drop_last()),
        }
    }
}

/// The id after the last one, or 1 for none.
pub open spec fn next_id_after(ids: Seq<u64>) -> int {
    if ids.len() == 0 {
        1
    } else {
        ids.last() + 1
    }
}

/// The id the `current` link names: the generation directory its target ends in.
pub open spec fn link_target_id(target: Seq<char>) -> Option<u64> {
    match file_name(target) {
        Some(n) => parse_u64(n),
        None => None,
    }
}

/// The current id, from the target of the `current` link (`None` when there is no link).
pub open spec fn current_id_result(target: Option<Seq<char>>) -> Result<u64, TrxErrorView> {
    match target {
        None => Err(TrxErrorView::NoCurrentGeneration),
        Some(t) => match link_target_id(t) {
            Some(id) => Ok(id),
            None => Err(TrxErrorView::NoCurrentGeneration),
        },
    }
}

/// The current id, or 0 when there is none.
pub open spec fn current_or_zero(current: Option<u64>) -> u64 {
    match current {
        Some(c) => c,
        None => 0,
    }
}

/// The ids that pruning removes: all but the `keep` newest of the ascending `ids`,
/// and never the current one (0 when there is none).
pub open spec fn pruned_ids(ids: Seq<u64>, current: Option<u64>, keep: nat) -> Seq<u64> {
    if ids.len() <= keep {
        Seq::empty()
    } else {
        ids.take(ids.len() - keep).filter(|x: u64| x != current_or_zero(current))
    }
}

/// The packages a plan leaves installed in a generation: every entry's name, version
/// and hash, in plan order.
pub open spec fn plan_packages(plan: Option<Seq<PlanEntryView>>) -> Seq<GenerationPackageView> {
    match plan {
        None => Seq::empty(),
        Some(es) => es.map_values(
            |e: PlanEntryView| GenerationPackageView { name: e.name, version: e.version, blake3: e.blake3 },
        ),
    }
}

/// A generation records one package per plan entry, in plan order, each with the name,
/// hash and version of its entry: the version the plan installs, whatever the entry's
/// operation (after an upgrade, the new version); without a plan it records none.
pub proof fn lemma_generation_records_plan(es: Seq<PlanEntryView>)
    ensures
        plan_packages(None).len() == 0,
        plan_packages(Some(es)).len() == es.len(),
        forall|i: int| 0 <= i < es.len() ==> {
            &&& (#[trigger] plan_packages(Some(es))[i]).name == es[i].name
            &&& plan_packages(Some(es))[i].version == es[i].version
            &&& plan_packages(Some(es))[i].blake3 == es[i].blake3
        },
{
}

/// Committing a plan built from the resolver's choice records each resolved package at
/// its resolved version, whether it is new, upgraded from another version, or already
/// installed.
pub proof fn lemma_generation_records_resolved_versions(
    resolved: Seq<crate::transaction::plan::ResolvedPackage>,
    fetched: Seq<crate::transaction::plan::FetchResult>,
    installed: Seq<(String, String)>,
)
    ensures
        ({
            let es = resolved.map_values(
                |p: crate::transaction::plan::ResolvedPackage| crate::transaction::plan::plan_entry(p, fetched, installed),
            );
            &&& plan_packages(Some(es)).len() == resolved.len()
            &&& forall|i: int| 0 <= i < resolved.len() ==> {
                &&& (#[trigger] plan_packages(Some(es))[i]).name == resolved[i].name@
                &&& plan_packages(Some(es))[i].version == resolved[i].version@
            }
        }),
{
}

/// Inserts `x` into the ascending vector `v`, after the elements not above it.
fn insert_sorted(v: &mut Vec<u64>, x: u64)
    requires
        sorted(old(v)@),
    ensures
        sorted(final(v)@),
        final(v)@.to_multiset() == old(v)@.to_multiset().insert(x),
{
    let mut k: usize = 0;
    while k < v.len() && v[k] <= x
        invariant
            k <= v.len(),
            forall|i: int| 0 <= i < k ==> v@[i] <= x,
        decreases v.len() - k,
    {
        k = k + 1;
    }
    let ghost before = v@;
    v.insert(k, x);
    proof {
        vstd::seq_lib::to_multiset_insert(before, k as int, x);
        assert forall|i: int, j: int| 0 <= i <= j < v@.len() implies v@[i] <= v@[j] by {
            if i < k && j > k {
                assert(v@[i] == before[i]);
                assert(v@[j] == before[j - 1]);
            }
            if j == k && i < k {
                assert(v@[i] == before[i]);
            }
            if i == k && j > k {
                assert(v@[j] == before[j - 1]);
                assert(k < before.len() && before[k as int] > x);
            }
        }
    }
}

impl Generation {
    /// The generation id a directory name stands for.
    pub fn id_from_name(name: &str) -> (res: Option<u64>)
        ensures
            res == parse_u64(name@),
    {
        let c = chars_of(name);
        parse_u64_v(&c)
    }

    /// The generation ids among the names of the entries of the generations directory,
    /// ascending: exactly the names that parse as `u64`, each as often as it occurs.
    pub fn list_ids(names: &Vec<String>) -> (res: Vec<u64>)
        ensures
            sorted(res@),
            res@.to_multiset() == parsed_ids(names@).to_multiset(),
    {
        let mut ids: Vec<u64> = Vec::new();
        proof {
            assert(ids@.to_multiset() =~= vstd::multiset::Multiset::<u64>::empty()) by {
                vstd::seq_lib::to_multiset_len(ids@);
            }
            assert(names@.take(0) =~= Seq::<String>::empty());
            assert(parsed_ids(Seq::<String>::empty()).to_multiset() =~= vstd::multiset::Multiset::<u64>::empty()) by {
                vstd::seq_lib::to_multiset_len(parsed_ids(Seq::<String>::empty()));
            }
        }
        for i in 0..names.len()
            invariant
                sorted(ids@),
                ids@.to_multiset() == parsed_ids(names@.take(i as int)).to_multiset(),
        {
            proof {
                assert(names@.take(i + 1).drop_last() =~= names@.take(i as int));
                assert(names@.take(i + 1).last() == names@[i as int]);
            }
            match Self::id_from_name(names[i].as_str()) {
                Some(n) => {
                    insert_sorted(&mut ids, n);
                    proof {
                        vstd::seq_lib::to_multiset_build(parsed_ids(names@.take(i as int)), n);
                    }
                },
                None => {},
            }
        }
        assert(names@.take(names.len() as int) =~= names@);
        ids
    }

    /// The id of the current generation, from the target of the `current` link (`None`
    /// when the link does not exist): the number its last component spells.
    pub fn current_id(link_target: Option<&str>) -> (res: Result<u64, TrxError>)
        ensures
            match res {
                Ok(id) => current_id_result(match link_target { Some(t) => Some(t@), None => None }) == Ok::<u64, TrxErrorView>(id),
                Err(e) => current_id_result(match link_target { Some(t) => Some(t@), None => None }) == Err::<u64, TrxErrorView>(e@),
            },
    {
        match link_target {
            None => Err(TrxError::NoCurrentGeneration),
            Some(t) => {
                let tc = chars_of(t);
                match file_name_v(&tc) {
                    Some(n) => match parse_u64_v(&n) {
                        Some(id) => Ok(id),
                        None => Err(TrxError::NoCurrentGeneration),
                    },
                    None => Err(TrxError::NoCurrentGeneration),
                }
            },
        }
    }

    /// The next generation id: one more than the last of the ascending `ids`, or 1.
    pub fn next_id(ids: &Vec<u64>) -> (res: u64)
        requires
            ids.len() == 0 || ids@.last() < u64::MAX,
        ensures
            res == next_id_after(ids@),
    {
        if ids.len() == 0 {
            1
        } else {
            ids[ids.len() - 1] + 1
        }
    }

    /// The generations that pruning removes: all but the `keep` newest of the ascending
    /// `ids`, except the current one (0 when there is none), which is never removed.
    pub fn prune(ids: &Vec<u64>, current: Option<u64>, keep: usize) -> (res: Vec<u64>)
        ensures
            res@ == pruned_ids(ids@, current, keep as nat),
    {
        let c: u64 = match current {
            Some(c) => c,
            None => 0,
        };
        let ghost pred = |x: u64| x != current_or_zero(current);
        let mut out: Vec<u64> = Vec::new();
        if ids.len() <= keep {
            return out;
        }
        let n = ids.len() - keep;
        for i in 0..n
            invariant
                n <= ids.len(),
                c == current_or_zero(current),
                pred == (|x: u64| x != current_or_zero(current)),
                out@ == ids@.take(i as int).filter(pred),
        {
            proof {
                reveal(Seq::filter);
                assert(ids@.take(i + 1).drop_last() =~= ids@.take(i as int));
            }
            if ids[i] != c {
                out.push(ids[i]);
            }
        }
        out
    }

    /// The packages a plan leaves installed: every entry's name, version and hash.
    pub fn packages_of(plan: &Option<InstallPlan>) -> (res: Vec<GenerationPackage>)
        ensures
            packages_view(res@) == plan_packages(match plan { Some(p) => Some(p@.entries), None => None }),
    {
        let mut out: Vec<GenerationPackage> = Vec::new();
        match plan {
            None => {
                assert(packages_view(out@) =~= Seq::<GenerationPackageView>::empty());
            },
            Some(p) => {
                let ghost es = p@.entries;
                let ghost f = |e: PlanEntryView| GenerationPackageView { name: e.name, version: e.version, blake3: e.blake3 };
                for i in 0..p.entries.len()
                    invariant
                        es == p@.entries,
                        es.len() == p.entries.len(),
                        f == (|e: PlanEntryView| GenerationPackageView { name: e.name, version: e.version, blake3: e.blake3 }),
                        packages_view(out@) == es.take(i as int).map_values(f),
                {
                    let e: &PlanEntry = &p.entries[i];
                    let g = GenerationPackage { name: e.name.clone(), version: e.version.clone(), blake3: e.blake3.clone() };
                    let ghost before = packages_view(out@);
                    out.push(g);
                    assert(packages_view(out@) =~= before.push(f(es[i as int])));
                    assert(es.take(i + 1).map_values(f) =~= es.take(i as int).map_values(f).push(f(es[i as int])));
                }
                assert(es.take(p.entries.len() as int) =~= es);
            },
        }
        out
    }
}

// ------------------------------------------------------------------ laws

/// A new generation id is above every existing one.
pub proof fn lemma_next_id_fresh(ids: Seq<u64>)
    requires
        sorted(ids),
    ensures
        forall|i: int| 0 <= i < ids.len() ==> ids[i] < next_id_after(ids),
{
}

/// Pruning removes only existing generations, and never the current one.
pub proof fn lemma_prune_spares_current(ids: Seq<u64>, current: u64, keep: nat)
    ensures
        forall|i: int| 0 <= i < pruned_ids(ids, Some(current), keep).len()
            ==> pruned_ids(ids, Some(current), keep)[i] != current
            && ids.contains(#[trigger] pruned_ids(ids, Some(current), keep)[i]),
{
    broadcast use vstd::seq_lib::group_filter_ensures;
    let p = pruned_ids(ids, Some(current), keep);
    if ids.len() > keep {
        let older = ids.take(ids.len() - keep);
        assert forall|i: int| 0 <= i < p.len() implies p[i] != current && ids.contains(#[trigger] p[i]) by {
            assert(p.contains(p[i]));
            older.lemma_filter_contains_rev(|x: u64| x != current_or_zero(Some(current)), p[i]);
            let k = choose|k: int| 0 <= k < older.len() && older[k] == p[i];
            assert(ids[k] == older[k]);
        }
    }
}

/// Pruning keeps the `keep` newest generations: none of them is removed, every
/// removed id comes from the older ones, and every older one but the current is
/// removed; over ascending ids, every removed id is below every kept newest one.
pub proof fn lemma_prune_keeps_newest(ids: Seq<u64>, current: Option<u64>, keep: nat)
    requires
        sorted(ids),
        ids.len() > keep,
    ensures
        ({
            let n = ids.len() - keep;
            let p = pruned_ids(ids, current, keep);
            &&& forall|x: u64| p.contains(x) ==> ids.take(n).contains(x) && x != current_or_zero(current)
            &&& forall|i: int| 0 <= i < n && ids[i] != current_or_zero(current) ==> p.contains(#[trigger] ids[i])
            &&& forall|x: u64, j: int| #[trigger] p.contains(x) && n <= j < ids.len() ==> x <= #[trigger] ids[j]
        }),
{
    broadcast use vstd::seq_lib::group_filter_ensures;
    let n = ids.len() - keep;
    let older = ids.take(n);
    let pred = |x: u64| x != current_or_zero(current);
    let p = pruned_ids(ids, current, keep);
    assert forall|x: u64| p.contains(x) implies older.contains(x) && x != current_or_zero(current) by {
        older.lemma_filter_contains_rev(pred, x);
    }
    assert forall|i: int| 0 <= i < n && ids[i] != current_or_zero(current) implies p.contains(#[trigger] ids[i]) by {
        assert(older[i] == ids[i]);
        older.lemma_filter_contains(pred, i);
    }
    assert forall|x: u64, j: int| #[trigger] p.contains(x) && n <= j < ids.len() implies x <= #[trigger] ids[j] by {
        older.lemma_filter_contains_rev(pred, x);
        let k = choose|k: int| 0 <= k < older.len() && older[k] == x;
        assert(ids[k] == x);
    }
}

/// Ids are handed out in order: after a generation with the next id is added, the
/// ids stay ascending and the following transaction gets the id after it.
pub proof fn lemma_commit_then_begin(ids: Seq<u64>)
    requires
        sorted(ids),
        next_id_after(ids) <= u64::MAX,
    ensures
        sorted(ids.push(next_id_after(ids) as u64)),
        next_id_after(ids.push(next_id_after(ids) as u64)) == next_id_after(ids) + 1,
{
    let n = next_id_after(ids) as u64;
    assert forall|i: int, j: int| 0 <= i <= j < ids.push(n).len() implies ids.push(n)[i] <= ids.push(n)[j] by {
        if j == ids.len() && i < j {
            assert(ids[i] <= ids.last());
        }
    }
}

/// A decimal rendering is a non-empty digit string worth the number.
pub proof fn lemma_decimal_digits(n: nat)
    ensures
        decimal(n).len() >= 1,
        all_digits(decimal(n)),
        digits_value(decimal(n)) == n,
    decreases n,
{
    let d = decimal(n);
    if n >= 10 {
        lemma_decimal_digits(n / 10);
        assert(d.drop_last() =~= decimal(n / 10));
        assert(d.last() == digit_char(n % 10));
        assert(digit_char(n % 10) as int == 48 + n % 10);
        assert forall|i: int| 0 <= i < d.len() implies '0' <= #[trigger] d[i] <= '9' by {
            if i < d.len() - 1 {
                assert(d[i] == decimal(n / 10)[i]);
            }
        }
        assert(n == (n / 10) * 10 + n % 10);
        assert((d.last() as nat - 48) as nat == n % 10);
        assert(digits_value(d) == digits_value(d.drop_last()) * 10 + (d.last() as nat - 48) as nat);
    } else {
        assert(d == seq![digit_char(n)]);
        assert(digit_char(n) as int == 48 + n);
        assert(d[0] == digit_char(n));
        assert(d.drop_last() =~= Seq::<char>::empty());
        assert(digits_value(Seq::<char>::empty()) == 0);
        assert(digits_value(d) == digits_value(d.drop_last()) * 10 + (d.last() as nat - 48) as nat);
    }
}

/// What the `current` link points to for generation `id`: its directory, relative to
/// the directory that holds the link.
pub open spec fn link_target(id: nat) -> Seq<char> {
    "generations/"@ + decimal(id)
}

/// After a separator, the last piece of a split is what follows it.
proof fn lemma_split_last_after_sep(q: Seq<char>, d: Seq<char>, sep: char)
    requires
        q.len() > 0,
        q.last() == sep,
        !d.contains(sep),
    ensures
        crate::text::split_char(q + d, sep).len() > 0,
        crate::text::split_char(q + d, sep).last() == d,
    decreases d.len(),
{
    if d.len() == 0 {
        assert(q + d =~= q);
    } else {
        let d0 = d.drop_last();
        assert(!d0.contains(sep)) by {
            if d0.contains(sep) {
                let k = choose|k: int| 0 <= k < d0.len() && d0[k] == sep;
                assert(d[k] == sep);
            }
        }
        lemma_split_last_after_sep(q, d0, sep);
        assert((q + d).drop_last() =~= q + d0);
        assert((q + d).last() == d.last());
        assert(d0.push(d.last()) =~= d);
    }
}

/// The `current` link that a commit writes for generation `id` reads back as `id`.
pub proof fn lemma_link_round_trip(id: u64)
    ensures
        current_id_result(Some(link_target(id as nat))) == Ok::<u64, TrxErrorView>(id),
{
    let d = decimal(id as nat);
    lemma_decimal_digits(id as nat);
    assert('0' <= d[0] <= '9');
    assert(!d.contains('/')) by {
        if d.contains('/') {
            let k = choose|k: int| 0 <= k < d.len() && d[k] == '/';
            assert('0' <= d[k] <= '9');
        }
    }
    reveal_strlit("generations/");
    let q = "generations/"@;
    assert(q.len() == 12 && q.last() == '/');
    lemma_split_last_after_sep(q, d, '/');
    assert(d != seq!['.']) by {
        if d == seq!['.'] {
            assert(d[0] == '.');
        }
    }
    assert(d != seq!['.', '.']) by {
        if d == seq!['.', '.'] {
            assert(d[0] == '.');
        }
    }
    assert(file_name(link_target(id as nat)) == Some(d));
    assert(d[0] != '+');
    assert(parse_u64(d) == Some(id));
}

} // verus!
