//! The install plan: what one `fpm install` / `remove` / `upgrade` will do to each
//! package, built from the resolver's choice and the fetcher's downloads.

use vstd::prelude::*;
use crate::text::{append_str, append_string, chars_of, join, join_v, views};

verus! {

/// A package version chosen by the dependency resolver.
#[derive(Debug, Clone)]
pub struct ResolvedPackage {
    pub name: String,
    /// The chosen version, as text.
    pub version: String,
    /// BLAKE3 of the package's `.fpkg`, when the repository index gives it.
    pub blake3: Option<String>,
    /// The names of the packages it depends on.
    pub deps: Vec<String>,
}

/// A downloaded (or cached) `.fpkg`.
#[derive(Debug, Clone)]
pub struct FetchResult {
    pub package: String,
    pub version: String,
    pub path: String,
    pub was_cached: bool,
}

/// What operation a plan entry represents.
#[derive(Debug, Clone, PartialEq, Eq)]
pub enum PlanOp {
    Install,
    Remove,
    Upgrade { from_version: String },
    Reinstall,
    /// No change needed (already installed at correct version)
    AlreadyInstalled,
}

/// One package action in the install plan.
#[derive(Debug, Clone)]
pub struct PlanEntry {
    pub name: String,
    pub version: String,
    pub op: PlanOp,
    /// Path to the verified .fpkg (set after the download; None for Remove)
    pub fpkg_path: Option<String>,
    /// BLAKE3 of the .fpkg
    pub blake3: Option<String>,
    /// Total installed size in bytes (from manifest)
    pub installed_size: Option<u64>,
}

/// The full plan for one `fpm install` / `fpm remove` / `fpm upgrade` invocation.
#[derive(Debug, Clone)]
pub struct InstallPlan {
    pub entries: Vec<PlanEntry>,
    /// Human description shown to the user before confirmation
    pub description: String,
}

/// The plain value of a `PlanOp`.
pub enum PlanOpView {
    Install,
    Remove,
    Upgrade { from_version: Seq<char> },
    Reinstall,
    AlreadyInstalled,
}

/// The plain value of a `PlanEntry`.
pub struct PlanEntryView {
    pub name: Seq<char>,
    pub version: Seq<char>,
    pub op: PlanOpView,
    pub fpkg_path: Option<Seq<char>>,
    pub blake3: Option<Seq<char>>,
    pub installed_size: Option<u64>,
}

/// The plain value of an `InstallPlan`.
pub struct InstallPlanView {
    pub entries: Seq<PlanEntryView>,
    pub description: Seq<char>,
}

/// The characters of an optional string.
pub open spec fn opt_chars(o: Option<String>) -> Option<Seq<char>> {
    match o {
        Some(s) => Some(s@),
        None => None,
    }
}

impl View for PlanOp {
    type V = PlanOpView;

    open spec fn view(&self) -> PlanOpView {
        match self {
            PlanOp::Install => PlanOpView::Install,
            PlanOp::Remove => PlanOpView::Remove,
            PlanOp::Upgrade { from_version } => PlanOpView::Upgrade { from_version: from_version@ },
            PlanOp::Reinstall => PlanOpView::Reinstall,
            PlanOp::AlreadyInstalled => PlanOpView::AlreadyInstalled,
        }
    }
}

impl View for PlanEntry {
    type V = PlanEntryView;

    open spec fn view(&self) -> PlanEntryView {
        PlanEntryView {
            name: self.name@,
            version: self.version@,
            op: self.op@,
            fpkg_path: opt_chars(self.fpkg_path),
            blake3: opt_chars(self.blake3),
            installed_size: self.installed_size,
        }
    }
}

/// The plain values of plan entries.
pub open spec fn entries_view(es: Seq<PlanEntry>) -> Seq<PlanEntryView> {
    es.map_values(|e: PlanEntry| e@)
}

impl View for InstallPlan {
    type V = InstallPlanView;

    open spec fn view(&self) -> InstallPlanView {
        InstallPlanView { entries: entries_view(self.entries@), description: self.description@ }
    }
}

// ------------------------------------------------------------------ building a plan

/// The installed version of `name`: the first pair of `installed` that names it.
pub open spec fn installed_version(installed: Seq<(String, String)>, name: Seq<char>) -> Option<Seq<char>>
    decreases installed.len(),
{
    if installed.len() == 0 {
        None
    } else if installed[0].0@ == name {
        Some(installed[0].1@)
    } else {
        installed_version(installed.drop_first(), name)
    }
}

/// Whether no package name occurs twice among the installed pairs.
pub open spec fn names_unique(installed: Seq<(String, String)>) -> bool {
    forall|i: int, j: int| 0 <= i < j < installed.len() ==> installed[i].0@ != installed[j].0@
}

/// With each name installed once, the pairs act as a map from name to version: the
/// installed version of a listed name is the one paired with it, wherever it stands.
pub proof fn lemma_installed_version_is_lookup(installed: Seq<(String, String)>, k: int)
    requires
        names_unique(installed),
        0 <= k < installed.len(),
    ensures
        installed_version(installed, installed[k].0@) == Some(installed[k].1@),
    decreases installed.len(),
{
    if k > 0 {
        let rest = installed.drop_first();
        assert(installed[0].0@ != installed[k].0@);
        assert(rest[k - 1] == installed[k]);
        assert(names_unique(rest)) by {
            assert forall|i: int, j: int| 0 <= i < j < rest.len() implies rest[i].0@ != rest[j].0@ by {
                assert(rest[i] == installed[i + 1] && rest[j] == installed[j + 1]);
            }
        }
        lemma_installed_version_is_lookup(rest, k - 1);
    }
}

/// The path of the download of `name`: the last fetch result for that package.
pub open spec fn fetched_path(fetched: Seq<FetchResult>, name: Seq<char>) -> Option<Seq<char>>
    decreases fetched.len(),
{
    if fetched.len() == 0 {
        None
    } else if fetched.last().package@ == name {
        Some(fetched.last().path@)
    } else {
        fetched_path(fetched.drop_last(), name)
    }
}

/// What the plan does with `name` at `version`: install it when it is absent, leave it
/// when that version is installed, upgrade it from the installed version otherwise.
pub open spec fn plan_op(installed: Seq<(String, String)>, name: Seq<char>, version: Seq<char>) -> PlanOpView {
    match installed_version(installed, name) {
        None => PlanOpView::Install,
        Some(existing) => if existing == version {
            PlanOpView::AlreadyInstalled
        } else {
            PlanOpView::Upgrade { from_version: existing }
        },
    }
}

/// The plan entry of one resolved package.
pub open spec fn plan_entry(
    pkg: ResolvedPackage,
    fetched: Seq<FetchResult>,
    installed: Seq<(String, String)>,
) -> PlanEntryView {
    PlanEntryView {
        name: pkg.name@,
        version: pkg.version@,
        op: plan_op(installed, pkg.name@, pkg.version@),
        fpkg_path: fetched_path(fetched, pkg.name@),
        blake3: opt_chars(pkg.blake3),
        installed_size: None,
    }
}

/// The installed version of `name`.
fn installed_version_v(installed: &Vec<(String, String)>, name: &String) -> (res: Option<String>)
    ensures
        opt_chars(res) == installed_version(installed@, name@),
{
    let mut i: usize = 0;
    assert(installed@.skip(0) =~= installed@);
    while i < installed.len()
        invariant
            i <= installed.len(),
            installed_version(installed@, name@) == installed_version(installed@.skip(i as int), name@),
        decreases installed.len() - i,
    {
        assert(installed@.skip(i as int).drop_first() =~= installed@.skip(i + 1));
        if installed[i].0 == *name {
            return Some(installed[i].1.clone());
        }
        i = i + 1;
    }
    None
}

/// The path of the last download of `name`.
fn fetched_path_v(fetched: &Vec<FetchResult>, name: &String) -> (res: Option<String>)
    ensures
        opt_chars(res) == fetched_path(fetched@, name@),
{
    let mut i: usize = fetched.len();
    assert(fetched@.take(fetched.len() as int) =~= fetched@);
    while i > 0
        invariant
            i <= fetched.len(),
            fetched_path(fetched@, name@) == fetched_path(fetched@.take(i as int), name@),
        decreases i,
    {
        assert(fetched@.take(i as int).drop_last() =~= fetched@.take(i - 1));
        if fetched[i - 1].package == *name {
            return Some(fetched[i - 1].path.clone());
        }
        i = i - 1;
    }
    None
}

impl InstallPlan {
    /// Builds a plan from the resolved packages and the downloads: a package not in
    /// `installed` (pairs of name and version) is installed, one installed at the
    /// resolved version is marked as such, and one installed at another version is
    /// upgraded from it.
    pub fn from_resolved(
        resolved: &Vec<ResolvedPackage>,
        fetch_results: &Vec<FetchResult>,
        installed: &Vec<(String, String)>,
        description: String,
    ) -> (res: InstallPlan)
        ensures
            res@.entries == resolved@.map_values(
                |p: ResolvedPackage| plan_entry(p, fetch_results@, installed@),
            ),
            res@.description == description@,
    {
        let mut entries: Vec<PlanEntry> = Vec::new();
        for i in 0..resolved.len()
            invariant
                entries_view(entries@) == resolved@.take(i as int).map_values(
                    |p: ResolvedPackage| plan_entry(p, fetch_results@, installed@),
                ),
        {
            let pkg = &resolved[i];
            let ver = pkg.version.clone();
            let op = match installed_version_v(installed, &pkg.name) {
                None => PlanOp::Install,
                Some(existing) => if existing == ver {
                    PlanOp::AlreadyInstalled
                } else {
                    PlanOp::Upgrade { from_version: existing }
                },
            };
            let e = PlanEntry {
                name: pkg.name.clone(),
                version: ver,
                op,
                fpkg_path: fetched_path_v(fetch_results, &pkg.name),
                blake3: pkg.blake3.clone(),
                installed_size: None,
            };
            assert(e@ == plan_entry(resolved@[i as int], fetch_results@, installed@));
            let ghost before = entries_view(entries@);
            entries.push(e);
            assert(entries_view(entries@) =~= before.push(
                plan_entry(resolved@[i as int], fetch_results@, installed@),
            ));
            assert(resolved@.take(i + 1).map_values(
                |p: ResolvedPackage| plan_entry(p, fetch_results@, installed@),
            ) =~= before.push(plan_entry(resolved@[i as int], fetch_results@, installed@)));
        }
        assert(resolved@.take(resolved.len() as int) =~= resolved@);
        InstallPlan { entries, description }
    }
}

// ------------------------------------------------------------------ reading a plan

/// An entry that needs work on disk: anything but `AlreadyInstalled`.
pub open spec fn is_actionable(e: PlanEntryView) -> bool {
    !(e.op is AlreadyInstalled)
}

/// A package of a plan built by `from_resolved` needs work on disk exactly when it is
/// not already installed at the version that was resolved for it.
pub proof fn lemma_actionable_iff_not_current(
    resolved: Seq<ResolvedPackage>,
    fetched: Seq<FetchResult>,
    installed: Seq<(String, String)>,
    i: int,
)
    requires
        0 <= i < resolved.len(),
    ensures
        is_actionable(plan_entry(resolved[i], fetched, installed)) <==> installed_version(
            installed,
            resolved[i].name@,
        ) != Some(resolved[i].version@),
{
}

pub open spec fn actionable_pred() -> spec_fn(PlanEntryView) -> bool {
    |e: PlanEntryView| is_actionable(e)
}

pub open spec fn install_pred() -> spec_fn(PlanEntryView) -> bool {
    |e: PlanEntryView| e.op is Install
}

pub open spec fn upgrade_pred() -> spec_fn(PlanEntryView) -> bool {
    |e: PlanEntryView| e.op is Upgrade
}

pub open spec fn skip_pred() -> spec_fn(PlanEntryView) -> bool {
    |e: PlanEntryView| e.op is AlreadyInstalled
}

/// The summary line of a new package.
pub open spec fn install_line(e: PlanEntryView) -> Seq<char> {
    "  "@ + e.name + " "@ + e.version + "  [new]"@
}

/// The summary line of an upgrade.
pub open spec fn upgrade_line(e: PlanEntryView) -> Seq<char> {
    match e.op {
        PlanOpView::Upgrade { from_version } => "  "@ + e.name + " "@ + from_version + " -> "@
            + e.version + "  [upgrade]"@,
        _ => Seq::empty(),
    }
}

/// The summary line of a package that stays as it is.
pub open spec fn skip_line(e: PlanEntryView) -> Seq<char> {
    "  "@ + e.name + " "@ + e.version + "  [already installed]"@
}

/// The summary of a plan: its new packages, then its upgrades, then the packages
/// already installed, one line each in plan order; removals and reinstalls are not listed.
pub open spec fn plan_summary(es: Seq<PlanEntryView>) -> Seq<char> {
    join(
        es.filter(install_pred()).map_values(|e: PlanEntryView| install_line(e)) + es.filter(
            upgrade_pred(),
        ).map_values(|e: PlanEntryView| upgrade_line(e)) + es.filter(skip_pred()).map_values(
            |e: PlanEntryView| skip_line(e),
        ),
        "\n"@,
    )
}

/// The three groups of lines of a summary.
#[derive(Clone, Copy)]
enum SummaryGroup {
    New,
    Upgrades,
    Kept,
}

/// Which entries a group lists.
spec fn group_pred(g: SummaryGroup) -> spec_fn(PlanEntryView) -> bool {
    match g {
        SummaryGroup::New => install_pred(),
        SummaryGroup::Upgrades => upgrade_pred(),
        SummaryGroup::Kept => skip_pred(),
    }
}

/// The line a group shows for an entry.
spec fn group_line(g: SummaryGroup) -> spec_fn(PlanEntryView) -> Seq<char> {
    match g {
        SummaryGroup::New => |e: PlanEntryView| install_line(e),
        SummaryGroup::Upgrades => |e: PlanEntryView| upgrade_line(e),
        SummaryGroup::Kept => |e: PlanEntryView| skip_line(e),
    }
}

/// The summary line of one entry in group `g`.
fn summary_line(e: &PlanEntry, g: SummaryGroup) -> (res: Vec<char>)
    ensures
        res@ == group_line(g)(e@),
{
    let mut out: Vec<char> = Vec::new();
    if let SummaryGroup::Upgrades = g {
        match &e.op {
            PlanOp::Upgrade { from_version } => {
                append_str(&mut out, "  ");
                append_string(&mut out, &e.name);
                append_str(&mut out, " ");
                append_string(&mut out, from_version);
                append_str(&mut out, " -> ");
                append_string(&mut out, &e.version);
                append_str(&mut out, "  [upgrade]");
            },
            _ => {},
        }
        return out;
    }
    append_str(&mut out, "  ");
    append_string(&mut out, &e.name);
    append_str(&mut out, " ");
    append_string(&mut out, &e.version);
    if let SummaryGroup::New = g {
        append_str(&mut out, "  [new]");
    } else {
        append_str(&mut out, "  [already installed]");
    }
    out
}

/// Whether group `g` lists an entry.
fn in_group(e: &PlanEntry, g: SummaryGroup) -> (res: bool)
    ensures
        res == group_pred(g)(e@),
{
    match (&e.op, g) {
        (PlanOp::Install, SummaryGroup::New) => true,
        (PlanOp::Upgrade { .. }, SummaryGroup::Upgrades) => true,
        (PlanOp::AlreadyInstalled, SummaryGroup::Kept) => true,
        _ => false,
    }
}

impl InstallPlan {
    /// The entries that need actual disk work (all but `AlreadyInstalled`), in order.
    pub fn actionable(&self) -> (res: Vec<&PlanEntry>)
        ensures
            res@.map_values(|e: &PlanEntry| e@) == self@.entries.filter(actionable_pred()),
    {
        let ghost es = self@.entries;
        let mut out: Vec<&PlanEntry> = Vec::new();
        for i in 0..self.entries.len()
            invariant
                es == self@.entries,
                es.len() == self.entries.len(),
                out@.map_values(|e: &PlanEntry| e@) == es.take(i as int).filter(actionable_pred()),
        {
            let e = &self.entries[i];
            proof {
                reveal(Seq::filter);
                assert(es.take(i + 1).drop_last() =~= es.take(i as int));
                assert(es.take(i + 1).last() == e@);
            }
            let keep = match &e.op {
                PlanOp::AlreadyInstalled => false,
                _ => true,
            };
            if keep {
                let ghost before = out@.map_values(|e: &PlanEntry| e@);
                out.push(e);
                assert(out@.map_values(|e: &PlanEntry| e@) =~= before.push(e@));
            }
        }
        assert(es.take(self.entries.len() as int) =~= es);
        out
    }

    /// The summary lines of the entries of group `g`, appended to `lines`.
    fn push_summary_lines(&self, g: SummaryGroup, lines: &mut Vec<Vec<char>>)
        ensures
            views(final(lines)@) == views(old(lines)@) + self@.entries.filter(group_pred(g)).map_values(
                group_line(g),
            ),
    {
        let ghost es = self@.entries;
        let ghost start = views(lines@);
        let ghost pred = group_pred(g);
        let ghost f = group_line(g);
        for i in 0..self.entries.len()
            invariant
                es == self@.entries,
                es.len() == self.entries.len(),
                pred == group_pred(g),
                f == group_line(g),
                views(lines@) == start + es.take(i as int).filter(pred).map_values(f),
        {
            let e = &self.entries[i];
            proof {
                reveal(Seq::filter);
                assert(es.take(i + 1).drop_last() =~= es.take(i as int));
                assert(es.take(i + 1).last() == e@);
            }
            if in_group(e, g) {
                let l = summary_line(e, g);
                let ghost before = views(lines@);
                let ghost sub = es.take(i as int).filter(pred);
                lines.push(l);
                assert(views(lines@) =~= before.push(f(e@)));
                assert(sub.push(e@).map_values(f) =~= sub.map_values(f).push(f(e@)));
            }
        }
        assert(es.take(self.entries.len() as int) =~= es);
    }

    /// The summary shown before confirmation: new packages, then upgrades, then packages
    /// already installed, one line each.
    pub fn summary(&self) -> (res: String)
        ensures
            res@ == plan_summary(self@.entries),
    {
        let mut lines: Vec<Vec<char>> = Vec::new();
        assert(views(lines@) =~= Seq::<Seq<char>>::empty());
        self.push_summary_lines(SummaryGroup::New, &mut lines);
        self.push_summary_lines(SummaryGroup::Upgrades, &mut lines);
        self.push_summary_lines(SummaryGroup::Kept, &mut lines);
        assert(group_line(SummaryGroup::New) == (|e: PlanEntryView| install_line(e)));
        assert(group_line(SummaryGroup::Upgrades) == (|e: PlanEntryView| upgrade_line(e)));
        assert(group_line(SummaryGroup::Kept) == (|e: PlanEntryView| skip_line(e)));
        let sep = chars_of("\n");
        let text = join_v(&lines, &sep);
        crate::text::string_of(&text)
    }
}

} // verus!
