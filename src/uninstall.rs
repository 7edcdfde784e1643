//! The decisions of the `uninstall` command: which installed distributions the requested
//! names and URLs select, which requests are skipped as not installed, and what the command
//! reports.

use vstd::prelude::*;

use itertools::{Either, Itertools};

use crate::environment::{
    check_externally_managed, choose_redirect, externally_managed_stops, preference_spec,
    redirect_spec, Discovery, EnvironmentPreference, ExternallyManagedError, Redirect,
};
use crate::text::{clone_opt, lex_lt, sorted_unique, str_eq, strictly_sorted, texts};

verus! {

/// A requirement to uninstall: a package name, or the verbatim URL of an unnamed requirement.
#[derive(Debug, Clone)]
pub enum UninstallRequirement {
    Named(String),
    Unnamed(String),
}

/// A distribution installed in the environment.
#[derive(Debug, Clone)]
pub struct InstalledDist {
    /// The normalized package name.
    pub name: String,
    /// The installed version.
    pub version: String,
    /// The URL it was installed from, for a direct-URL or editable install.
    pub url: Option<String>,
    /// The path of its metadata directory, which identifies it.
    pub install_path: String,
}

/// The distributions installed in an environment's `site-packages`.
#[derive(Debug)]
pub struct SitePackages {
    distributions: Vec<InstalledDist>,
}

/// What an uninstall is to do and report.
#[derive(Debug)]
pub struct UninstallPlan {
    /// The requested names that are not installed, sorted.
    pub skipped_names: Vec<String>,
    /// The requested URLs that are not installed, sorted.
    pub skipped_urls: Vec<String>,
    /// The distributions to remove, sorted by install path, each path once.
    pub distributions: Vec<InstalledDist>,
}

/// The names of the named requirements, in order.
pub open spec fn named_of(s: Seq<UninstallRequirement>) -> Seq<String>
    decreases s.len(),
{
    if s.len() == 0 {
        seq![]
    } else {
        named_of(s.drop_last()) + match s.last() {
            UninstallRequirement::Named(n) => seq![n],
            UninstallRequirement::Unnamed(_) => seq![],
        }
    }
}

/// The URLs of the unnamed requirements, in order.
pub open spec fn unnamed_of(s: Seq<UninstallRequirement>) -> Seq<String>
    decreases s.len(),
{
    if s.len() == 0 {
        seq![]
    } else {
        unnamed_of(s.drop_last()) + match s.last() {
            UninstallRequirement::Named(_) => seq![],
            UninstallRequirement::Unnamed(u) => seq![u],
        }
    }
}

/// The install paths of a list of distributions.
pub open spec fn install_paths(s: Seq<InstalledDist>) -> Seq<Seq<char>> {
    s.map_values(|d: InstalledDist| d.install_path@)
}

/// Whether distribution `d` was installed from `url`.
pub open spec fn from_url(d: InstalledDist, url: Seq<char>) -> bool {
    d.url matches Some(u) && u@ == url
}

/// Whether a distribution named `name` is installed.
pub open spec fn name_installed(site: Seq<InstalledDist>, name: Seq<char>) -> bool {
    key_installed(site, name, false)
}

/// Whether a distribution installed from `url` is installed.
pub open spec fn url_installed(site: Seq<InstalledDist>, url: Seq<char>) -> bool {
    key_installed(site, url, true)
}

/// Whether the requested `names` or `urls` select distribution `d`.
pub open spec fn is_selected(d: InstalledDist, names: Seq<Seq<char>>, urls: Seq<Seq<char>>) -> bool {
    names.contains(d.name@) || (d.url matches Some(u) && urls.contains(u@))
}

/// Whether `plan` is the uninstall plan of the requested `names` and `urls` on `site`: the
/// skipped names and URLs are those that select nothing, sorted; the distributions are the
/// installed ones that the requests select, one for each install path, sorted by it.
pub open spec fn plan_spec(
    site: Seq<InstalledDist>,
    names: Seq<Seq<char>>,
    urls: Seq<Seq<char>>,
    plan: UninstallPlan,
) -> bool {
    &&& strictly_sorted(texts(plan.skipped_names@))
    &&& forall|t: Seq<char>|
        texts(plan.skipped_names@).contains(t) <==> names.contains(t) && !name_installed(site, t)
    &&& strictly_sorted(texts(plan.skipped_urls@))
    &&& forall|t: Seq<char>|
        texts(plan.skipped_urls@).contains(t) <==> urls.contains(t) && !url_installed(site, t)
    &&& strictly_sorted(install_paths(plan.distributions@))
    &&& forall|i: int|
        0 <= i < plan.distributions@.len() ==> site.contains(#[trigger] plan.distributions@[i])
            && is_selected(plan.distributions@[i], names, urls)
    &&& forall|k: int|
        0 <= k < site.len() && is_selected(#[trigger] site[k], names, urls) ==> install_paths(
            plan.distributions@,
        ).contains(site[k].install_path@)
}

/// Whether `after` is what remains of `site` once the distributions of `removed` are
/// uninstalled: everything at another install path.
pub open spec fn removes(site: Seq<InstalledDist>, removed: Seq<InstalledDist>, after: Seq<InstalledDist>) -> bool {
    forall|d: InstalledDist|
        after.contains(d) <==> site.contains(d) && !install_paths(removed).contains(d.install_path@)
}

/// Relies on `Itertools::partition_map`: it sends each item, in order, to the left list or the
/// right list, as the closure says.
#[verifier::external_body]
fn partition_requirements(requirements: Vec<UninstallRequirement>) -> (r: (Vec<String>, Vec<String>))
    ensures
        r.0@ == named_of(requirements@),
        r.1@ == unnamed_of(requirements@),
{
    requirements.into_iter().partition_map(
        |requirement| match requirement {
            UninstallRequirement::Named(name) => Either::Left(name),
            UninstallRequirement::Unnamed(url) => Either::Right(url),
        },
    )
}

/// A copy of an installed distribution.
fn copy_dist(d: &InstalledDist) -> (r: InstalledDist)
    ensures
        r == *d,
{
    InstalledDist {
        name: d.name.clone(),
        version: d.version.clone(),
        url: clone_opt(&d.url),
        install_path: d.install_path.clone(),
    }
}

/// Whether an optional URL is `url`.
fn url_is(o: &Option<String>, url: &str) -> (r: bool)
    ensures
        r == (*o matches Some(u) && u@ == url@),
{
    match o {
        Some(u) => str_eq(u.as_str(), url),
        None => false,
    }
}

impl SitePackages {
    /// The installed distributions.
    pub closed spec fn view(&self) -> Seq<InstalledDist> {
        self.distributions@
    }

    /// The environment that holds `distributions`.
    pub fn from_distributions(distributions: Vec<InstalledDist>) -> (r: Self)
        ensures
            r@ == distributions@,
    {
        SitePackages { distributions }
    }

    /// The installed distributions.
    pub fn distributions(&self) -> (r: &Vec<InstalledDist>)
        ensures
            r@ == self@,
    {
        &self.distributions
    }

    /// The installed distributions named `name`, in order.
    pub fn get_packages(&self, name: &str) -> (r: Vec<InstalledDist>)
        ensures
            r@ == matching(self@, name@, false),
            forall|i: int|
                0 <= i < r@.len() ==> self@.contains(#[trigger] r@[i]) && r@[i].name@ == name@,
            forall|k: int|
                0 <= k < self@.len() && (#[trigger] self@[k]).name@ == name@ ==> r@.contains(
                    self@[k],
                ),
    {
        let mut r: Vec<InstalledDist> = Vec::new();
        let mut i: usize = 0;
        while i < self.distributions.len()
            invariant
                i <= self@.len(),
                self@ == self.distributions@,
                r@ == matching(self@.subrange(0, i as int), name@, false),
                forall|m: int|
                    0 <= m < r@.len() ==> self@.contains(#[trigger] r@[m]) && r@[m].name@ == name@,
                forall|k: int|
                    0 <= k < i && (#[trigger] self@[k]).name@ == name@ ==> r@.contains(self@[k]),
            decreases self@.len() - i,
        {
            let d = &self.distributions[i];
            assert(self@.subrange(0, i + 1).drop_last() =~= self@.subrange(0, i as int));
            if str_eq(d.name.as_str(), name) {
                let ghost before = r@;
                r.push(copy_dist(d));
                assert forall|k: int|
                    0 <= k < i + 1 && (#[trigger] self@[k]).name@ == name@ implies r@.contains(
                    self@[k],
                ) by {
                    if k < i {
                        let m = choose|m: int| 0 <= m < before.len() && before[m] == self@[k];
                        assert(r@[m] == self@[k]);
                    } else {
                        assert(r@[r@.len() - 1] == self@[k]);
                    }
                }
            }
            i = i + 1;
        }
        assert(self@.subrange(0, self@.len() as int) =~= self@);
        r
    }

    /// The installed distributions installed from `url`, in order.
    pub fn get_urls(&self, url: &str) -> (r: Vec<InstalledDist>)
        ensures
            r@ == matching(self@, url@, true),
            forall|i: int|
                0 <= i < r@.len() ==> self@.contains(#[trigger] r@[i]) && from_url(r@[i], url@),
            forall|k: int|
                0 <= k < self@.len() && from_url(#[trigger] self@[k], url@) ==> r@.contains(
                    self@[k],
                ),
    {
        let mut r: Vec<InstalledDist> = Vec::new();
        let mut i: usize = 0;
        while i < self.distributions.len()
            invariant
                i <= self@.len(),
                self@ == self.distributions@,
                r@ == matching(self@.subrange(0, i as int), url@, true),
                forall|m: int|
                    0 <= m < r@.len() ==> self@.contains(#[trigger] r@[m]) && from_url(r@[m], url@),
                forall|k: int|
                    0 <= k < i && from_url(#[trigger] self@[k], url@) ==> r@.contains(self@[k]),
            decreases self@.len() - i,
        {
            let d = &self.distributions[i];
            assert(self@.subrange(0, i + 1).drop_last() =~= self@.subrange(0, i as int));
            if url_is(&d.url, url) {
                let ghost before = r@;
                r.push(copy_dist(d));
                assert forall|k: int|
                    0 <= k < i + 1 && from_url(#[trigger] self@[k], url@) implies r@.contains(
                    self@[k],
                ) by {
                    if k < i {
                        let m = choose|m: int| 0 <= m < before.len() && before[m] == self@[k];
                        assert(r@[m] == self@[k]);
                    } else {
                        assert(r@[r@.len() - 1] == self@[k]);
                    }
                }
            }
            i = i + 1;
        }
        assert(self@.subrange(0, self@.len() as int) =~= self@);
        r
    }
}

/// Append copies of the distributions of `from` to `to`.
fn append_copies(to: &mut Vec<InstalledDist>, from: &Vec<InstalledDist>)
    ensures
        final(to)@ == old(to)@ + from@,
{
    let mut j: usize = 0;
    while j < from.len()
        invariant
            j <= from@.len(),
            to@ == old(to)@ + from@.subrange(0, j as int),
        decreases from@.len() - j,
    {
        to.push(copy_dist(&from[j]));
        j = j + 1;
        assert(to@ =~= old(to)@ + from@.subrange(0, j as int));
    }
    assert(from@.subrange(0, from@.len() as int) =~= from@);
}

/// Whether distribution `d` has the key `t`: its URL where `by_url`, else its name.
pub open spec fn has_key(d: InstalledDist, t: Seq<char>, by_url: bool) -> bool {
    if by_url {
        from_url(d, t)
    } else {
        d.name@ == t
    }
}

/// The distributions of `s` with key `t`, in the order of `s`.
pub open spec fn matching(s: Seq<InstalledDist>, t: Seq<char>, by_url: bool) -> Seq<InstalledDist>
    decreases s.len(),
{
    if s.len() == 0 {
        seq![]
    } else if has_key(s.last(), t, by_url) {
        matching(s.drop_last(), t, by_url).push(s.last())
    } else {
        matching(s.drop_last(), t, by_url)
    }
}

/// Whether a distribution with key `t` is installed.
pub open spec fn key_installed(site: Seq<InstalledDist>, t: Seq<char>, by_url: bool) -> bool {
    exists|k: int| 0 <= k < site.len() && has_key(#[trigger] site[k], t, by_url)
}

/// Whether the key of distribution `d` is one of `keys`.
pub open spec fn key_in(d: InstalledDist, keys: Seq<Seq<char>>, by_url: bool) -> bool {
    if by_url {
        d.url matches Some(u) && keys.contains(u@)
    } else {
        keys.contains(d.name@)
    }
}

/// The installed distributions with key `key`.
fn get_matching(site: &SitePackages, key: &str, by_url: bool) -> (r: Vec<InstalledDist>)
    ensures
        forall|i: int|
            0 <= i < r@.len() ==> site@.contains(#[trigger] r@[i]) && has_key(r@[i], key@, by_url),
        forall|k: int|
            0 <= k < site@.len() && has_key(#[trigger] site@[k], key@, by_url) ==> r@.contains(
                site@[k],
            ),
{
    if by_url {
        site.get_urls(key)
    } else {
        site.get_packages(key)
    }
}

/// For each of the sorted `names` (package names, or URLs where `by_url`), collect the installed
/// distributions with that key into `collected`, and return the keys of which none is installed.
fn collect_matching(
    site: &SitePackages,
    names: &Vec<String>,
    by_url: bool,
    collected: &mut Vec<InstalledDist>,
) -> (skipped: Vec<String>)
    requires
        strictly_sorted(texts(names@)),
    ensures
        strictly_sorted(texts(skipped@)),
        forall|t: Seq<char>|
            texts(skipped@).contains(t) <==> texts(names@).contains(t) && !key_installed(site@, t, by_url),
        final(collected)@.len() >= old(collected)@.len(),
        forall|m: int| 0 <= m < old(collected)@.len() ==> final(collected)@[m] == old(collected)@[m],
        forall|m: int|
            old(collected)@.len() <= m < final(collected)@.len() ==> site@.contains(
                #[trigger] final(collected)@[m],
            ) && key_in(final(collected)@[m], texts(names@), by_url),
        forall|k: int|
            0 <= k < site@.len() && key_in(#[trigger] site@[k], texts(names@), by_url)
                ==> final(collected)@.contains(site@[k]),
{
    let ghost start = collected@;
    let ghost ns = texts(names@);
    let mut skipped: Vec<String> = Vec::new();
    let mut i: usize = 0;
    while i < names.len()
        invariant
            i <= names@.len(),
            ns == texts(names@),
            strictly_sorted(ns),
            strictly_sorted(texts(skipped@)),
            forall|m: int|
                #![trigger texts(skipped@)[m]]
                0 <= m < skipped@.len() ==> exists|j: int|
                    0 <= j < i && (#[trigger] ns[j]) == texts(skipped@)[m],
            forall|t: Seq<char>|
                texts(skipped@).contains(t) <==> (exists|j: int| 0 <= j < i && #[trigger] ns[j] == t)
                    && !key_installed(site@, t, by_url),
            collected@.len() >= start.len(),
            forall|m: int| 0 <= m < start.len() ==> collected@[m] == start[m],
            forall|m: int|
                start.len() <= m < collected@.len() ==> site@.contains(#[trigger] collected@[m])
                    && key_in(collected@[m], ns, by_url),
            forall|k: int|
                0 <= k < site@.len() && (exists|j: int|
                    0 <= j < i && has_key(#[trigger] site@[k], #[trigger] ns[j], by_url)) ==> collected@.contains(
                    site@[k],
                ),
        decreases names@.len() - i,
    {
        let name = &names[i];
        let installed = get_matching(site, name.as_str(), by_url);
        let ghost before_skipped = texts(skipped@);
        let ghost before_collected = collected@;
        assert(ns[i as int] == name@);
        if installed.len() == 0 {
            proof {
                if key_installed(site@, name@, by_url) {
                    let k = choose|k: int| 0 <= k < site@.len() && has_key(#[trigger] site@[k], name@, by_url);
                    assert(installed@.contains(site@[k]));
                }
            }
            skipped.push(name.clone());
            assert(texts(skipped@) =~= before_skipped.push(name@));
            assert forall|a: int, b: int| 0 <= a < b < texts(skipped@).len() implies lex_lt(
                #[trigger] texts(skipped@)[a],
                #[trigger] texts(skipped@)[b],
            ) by {
                if b == texts(skipped@).len() - 1 {
                    let j = choose|j: int| 0 <= j < i && (#[trigger] ns[j]) == before_skipped[a];
                    assert(lex_lt(ns[j], ns[i as int]));
                }
            }
            assert forall|m: int| #![trigger texts(skipped@)[m]] 0 <= m < skipped@.len() implies exists|j: int|
                0 <= j < i + 1 && (#[trigger] ns[j]) == texts(skipped@)[m] by {
                if m == skipped@.len() - 1 {
                    assert(ns[i as int] == texts(skipped@)[m]);
                } else {
                    let j = choose|j: int| 0 <= j < i && (#[trigger] ns[j]) == before_skipped[m];
                    assert(ns[j] == texts(skipped@)[m]);
                }
            }
            assert forall|t: Seq<char>|
                texts(skipped@).contains(t) <==> (exists|j: int| 0 <= j < i + 1 && #[trigger] ns[j] == t)
                    && !key_installed(site@, t, by_url) by {
                if texts(skipped@).contains(t) {
                    let m = choose|m: int| 0 <= m < texts(skipped@).len() && texts(skipped@)[m] == t;
                    if m < before_skipped.len() {
                        assert(before_skipped[m] == t);
                        assert(before_skipped.contains(t));
                    } else {
                        assert(ns[i as int] == t);
                    }
                }
                if (exists|j: int| 0 <= j < i + 1 && #[trigger] ns[j] == t) && !key_installed(site@, t, by_url) {
                    let j = choose|j: int| 0 <= j < i + 1 && #[trigger] ns[j] == t;
                    if j < i {
                        assert(before_skipped.contains(t));
                        let m = choose|m: int| 0 <= m < before_skipped.len() && before_skipped[m] == t;
                        assert(texts(skipped@)[m] == t);
                    } else {
                        assert(texts(skipped@)[texts(skipped@).len() - 1] == t);
                    }
                }
            }
            assert forall|k: int|
                0 <= k < site@.len() && (exists|j: int|
                    0 <= j < i + 1 && has_key(#[trigger] site@[k], #[trigger] ns[j], by_url)) implies collected@.contains(
                site@[k],
            ) by {
                let j = choose|j: int| 0 <= j < i + 1 && has_key(site@[k], #[trigger] ns[j], by_url);
                if j == i {
                    assert(installed@.contains(site@[k]));
                }
            }
        } else {
            proof {
                assert(site@.contains(installed@[0]));
                let k = choose|k: int| 0 <= k < site@.len() && site@[k] == installed@[0];
                assert(has_key(site@[k], name@, by_url));
                assert(key_installed(site@, name@, by_url));
            }
            append_copies(collected, &installed);
            assert forall|t: Seq<char>|
                texts(skipped@).contains(t) <==> (exists|j: int| 0 <= j < i + 1 && #[trigger] ns[j] == t)
                    && !key_installed(site@, t, by_url) by {
                if (exists|j: int| 0 <= j < i + 1 && #[trigger] ns[j] == t) && !key_installed(site@, t, by_url) {
                    let j = choose|j: int| 0 <= j < i + 1 && #[trigger] ns[j] == t;
                    assert(j != i);
                }
            }
            assert forall|m: int|
                start.len() <= m < collected@.len() implies site@.contains(#[trigger] collected@[m])
                    && key_in(collected@[m], ns, by_url) by {
                if m >= before_collected.len() {
                    assert(collected@[m] == installed@[m - before_collected.len()]);
                    assert(has_key(collected@[m], ns[i as int], by_url));
                    if by_url {
                        assert(ns.contains(collected@[m].url->Some_0@));
                    } else {
                        assert(ns.contains(collected@[m].name@));
                    }
                } else {
                    assert(collected@[m] == before_collected[m]);
                }
            }
            assert forall|k: int|
                0 <= k < site@.len() && (exists|j: int|
                    0 <= j < i + 1 && has_key(#[trigger] site@[k], #[trigger] ns[j], by_url)) implies collected@.contains(
                site@[k],
            ) by {
                let j = choose|j: int| 0 <= j < i + 1 && has_key(site@[k], #[trigger] ns[j], by_url);
                if j == i {
                    assert(installed@.contains(site@[k]));
                    let m = choose|m: int| 0 <= m < installed@.len() && installed@[m] == site@[k];
                    assert(collected@[before_collected.len() + m] == site@[k]);
                } else {
                    assert(before_collected.contains(site@[k]));
                    let m = choose|m: int| 0 <= m < before_collected.len() && before_collected[m] == site@[k];
                    assert(collected@[m] == site@[k]);
                }
            }
        }
        i = i + 1;
    }
    assert forall|t: Seq<char>| texts(skipped@).contains(t) <==> ns.contains(t) && !key_installed(site@, t, by_url) by {
        if ns.contains(t) {
            let j = choose|j: int| 0 <= j < ns.len() && ns[j] == t;
            assert(ns[j] == t);
        }
    }
    assert forall|k: int|
        0 <= k < site@.len() && key_in(#[trigger] site@[k], ns, by_url) implies collected@.contains(site@[k]) by {
        if by_url {
            let j = choose|j: int| 0 <= j < ns.len() && ns[j] == site@[k].url->Some_0@;
            assert(has_key(site@[k], ns[j], by_url));
        } else {
            let j = choose|j: int| 0 <= j < ns.len() && ns[j] == site@[k].name@;
            assert(has_key(site@[k], ns[j], by_url));
        }
    }
    skipped
}

/// One distribution of `collected` for each of their install paths, sorted by install path.
fn unique_by_path(collected: &Vec<InstalledDist>) -> (r: Vec<InstalledDist>)
    ensures
        strictly_sorted(install_paths(r@)),
        forall|i: int| 0 <= i < r@.len() ==> collected@.contains(#[trigger] r@[i]),
        forall|m: int|
            0 <= m < collected@.len() ==> install_paths(r@).contains(
                (#[trigger] collected@[m]).install_path@,
            ),
{
    let mut paths: Vec<String> = Vec::new();
    let mut m: usize = 0;
    while m < collected.len()
        invariant
            m <= collected@.len(),
            paths@.len() == m,
            forall|x: int| 0 <= x < m ==> (#[trigger] paths@[x])@ == collected@[x].install_path@,
        decreases collected@.len() - m,
    {
        paths.push(collected[m].install_path.clone());
        m = m + 1;
    }
    let ghost all_paths = texts(paths@);
    assert forall|x: int| 0 <= x < collected@.len() implies #[trigger] all_paths[x]
        == collected@[x].install_path@ by {
        assert(all_paths[x] == paths@[x]@);
    }
    let sorted = sorted_unique(paths);
    let ghost sp = texts(sorted@);
    assert(all_paths.len() == collected@.len());
    let mut r: Vec<InstalledDist> = Vec::new();
    let mut q: usize = 0;
    while q < sorted.len()
        invariant
            q <= sorted@.len(),
            sp == texts(sorted@),
            forall|t: Seq<char>| sp.contains(t) <==> all_paths.contains(t),
            all_paths.len() == collected@.len(),
            forall|x: int| 0 <= x < collected@.len() ==> #[trigger] all_paths[x]
                == collected@[x].install_path@,
            r@.len() == q,
            forall|x: int| 0 <= x < q ==> (#[trigger] r@[x]).install_path@ == sp[x],
            forall|x: int| 0 <= x < q ==> collected@.contains(#[trigger] r@[x]),
        decreases sorted@.len() - q,
    {
        let path = &sorted[q];
        assert(sp[q as int] == path@);
        assert(sp.contains(path@));
        assert(all_paths.contains(path@));
        let ghost w = choose|x: int| 0 <= x < all_paths.len() && all_paths[x] == path@;
        assert(collected@[w].install_path@ == path@);
        let mut j: usize = 0;
        while j < collected.len() && !str_eq(collected[j].install_path.as_str(), path.as_str())
            invariant
                j <= collected@.len(),
                0 <= w < collected@.len(),
                collected@[w].install_path@ == path@,
                forall|x: int| 0 <= x < j ==> (#[trigger] collected@[x]).install_path@ != path@,
            decreases collected@.len() - j,
        {
            j = j + 1;
        }
        if j == collected.len() {
            assert(collected@[w].install_path@ != path@);
        }
        let ghost before = r@;
        r.push(copy_dist(&collected[j]));
        assert(r@[q as int] == collected@[j as int]);
        assert forall|x: int| 0 <= x < q + 1 implies collected@.contains(#[trigger] r@[x]) by {
            if x < q {
                assert(r@[x] == before[x]);
            } else {
                assert(collected@[j as int] == r@[x]);
            }
        }
        q = q + 1;
    }
    assert(install_paths(r@) =~= sp);
    assert forall|m: int| 0 <= m < collected@.len() implies install_paths(r@).contains(
        (#[trigger] collected@[m]).install_path@,
    ) by {
        assert(all_paths[m] == collected@[m].install_path@);
        assert(all_paths.contains(all_paths[m]));
    }
    r
}

/// Plan the uninstall of `requirements` from `site`. Named requirements select installed
/// distributions by name (whatever version or URL they specify), unnamed ones by the URL they
/// were installed from. Requests that select nothing are skipped, and a distribution that is
/// selected twice is removed once.
pub fn plan_uninstall(site: &SitePackages, requirements: Vec<UninstallRequirement>) -> (r: UninstallPlan)
    ensures
        plan_spec(site@, texts(named_of(requirements@)), texts(unnamed_of(requirements@)), r),
{
    let ghost requested_names = texts(named_of(requirements@));
    let ghost requested_urls = texts(unnamed_of(requirements@));
    let (named, unnamed) = partition_requirements(requirements);
    let names = sorted_unique(named);
    let urls = sorted_unique(unnamed);
    let ghost ns = texts(names@);
    let ghost us = texts(urls@);
    let mut collected: Vec<InstalledDist> = Vec::new();
    let skipped_names = collect_matching(site, &names, false, &mut collected);
    let ghost after_names = collected@;
    let skipped_urls = collect_matching(site, &urls, true, &mut collected);
    let distributions = unique_by_path(&collected);
    assert forall|m: int| 0 <= m < collected@.len() implies site@.contains(#[trigger] collected@[m])
        && is_selected(collected@[m], requested_names, requested_urls) by {
        if m < after_names.len() {
            assert(collected@[m] == after_names[m]);
            assert(key_in(after_names[m], ns, false));
        } else {
            assert(key_in(collected@[m], us, true));
        }
    }
    assert forall|k: int|
        0 <= k < site@.len() && is_selected(#[trigger] site@[k], requested_names, requested_urls)
            implies install_paths(distributions@).contains(site@[k].install_path@) by {
        let d = site@[k];
        if requested_names.contains(d.name@) {
            assert(key_in(d, ns, false));
            assert(after_names.contains(d));
            let m = choose|m: int| 0 <= m < after_names.len() && after_names[m] == d;
            assert(collected@[m] == d);
        } else {
            assert(key_in(d, us, true));
            let m = choose|m: int| 0 <= m < collected@.len() && collected@[m] == d;
            assert(collected@[m] == d);
        }
    }
    assert forall|i: int| 0 <= i < distributions@.len() implies site@.contains(
        #[trigger] distributions@[i],
    ) && is_selected(distributions@[i], requested_names, requested_urls) by {
        let m = choose|m: int| 0 <= m < collected@.len() && collected@[m] == distributions@[i];
        assert(site@.contains(collected@[m]));
    }
    UninstallPlan { skipped_names, skipped_urls, distributions }
}

/// After the distributions of a plan are removed, no remaining distribution is selected by the
/// same requests.
proof fn lemma_nothing_selected_after(
    site: Seq<InstalledDist>,
    names: Seq<Seq<char>>,
    urls: Seq<Seq<char>>,
    first: UninstallPlan,
    after: Seq<InstalledDist>,
    d: InstalledDist,
)
    requires
        plan_spec(site, names, urls, first),
        removes(site, first.distributions@, after),
        after.contains(d),
    ensures
        !is_selected(d, names, urls),
{
    assert(site.contains(d));
    let k = choose|k: int| 0 <= k < site.len() && site[k] == d;
    if is_selected(d, names, urls) {
        assert(is_selected(site[k], names, urls));
    }
}

/// Uninstalling is idempotent: once the distributions of a plan are removed, a second plan of
/// the same requests removes nothing, skips every requested name and URL as not installed,
/// and so leaves the environment as the first run left it.
pub proof fn lemma_uninstall_idempotent(
    site: Seq<InstalledDist>,
    names: Seq<Seq<char>>,
    urls: Seq<Seq<char>>,
    first: UninstallPlan,
    after: Seq<InstalledDist>,
    second: UninstallPlan,
    after_second: Seq<InstalledDist>,
)
    requires
        plan_spec(site, names, urls, first),
        removes(site, first.distributions@, after),
        plan_spec(after, names, urls, second),
        removes(after, second.distributions@, after_second),
    ensures
        second.distributions@.len() == 0,
        forall|t: Seq<char>| texts(second.skipped_names@).contains(t) <==> names.contains(t),
        forall|t: Seq<char>| texts(second.skipped_urls@).contains(t) <==> urls.contains(t),
        forall|d: InstalledDist| after_second.contains(d) <==> after.contains(d),
{
    if second.distributions@.len() > 0 {
        let d = second.distributions@[0];
        assert(after.contains(d));
        lemma_nothing_selected_after(site, names, urls, first, after, d);
    }
    assert forall|t: Seq<char>| texts(second.skipped_names@).contains(t) <==> names.contains(t) by {
        if names.contains(t) && name_installed(after, t) {
            let k = choose|k: int| 0 <= k < after.len() && has_key(#[trigger] after[k], t, false);
            assert(after.contains(after[k]));
            lemma_nothing_selected_after(site, names, urls, first, after, after[k]);
        }
    }
    assert forall|t: Seq<char>| texts(second.skipped_urls@).contains(t) <==> urls.contains(t) by {
        if urls.contains(t) && url_installed(after, t) {
            let k = choose|k: int| 0 <= k < after.len() && has_key(#[trigger] after[k], t, true);
            assert(after.contains(after[k]));
            lemma_nothing_selected_after(site, names, urls, first, after, after[k]);
        }
    }
    assert(install_paths(second.distributions@) =~= Seq::<Seq<char>>::empty());
}

/// The settings of one `uninstall` invocation that its decisions depend on.
#[derive(Debug)]
pub struct UninstallSettings {
    /// The `--target` directory.
    pub target: Option<String>,
    /// The `--prefix` directory.
    pub prefix: Option<String>,
    /// `--system`.
    pub system: bool,
    /// `--break-system-packages`.
    pub break_system_packages: bool,
    /// `--dry-run`.
    pub dry_run: bool,
}

/// The stage that an uninstall waits in.
#[derive(Debug, Clone, Copy, PartialEq, Eq, Structural)]
pub enum UninstallStage {
    ReadingRequirements,
    FindingInterpreter,
    Redirecting,
    Locking,
    Planning,
    Removing,
    Done,
}

/// What the driver of an uninstall reports.
#[derive(Debug)]
pub enum UninstallEvent {
    /// The requirement sources were read.
    RequirementsRead,
    /// An interpreter was found.
    InterpreterFound,
    /// The redirect was applied; `externally_managed` is what the interpreter reports.
    EnvironmentReady { externally_managed: Option<Option<String>>, root: String },
    /// The environment lock was asked for.
    LockAttempted { acquired: bool },
    /// The installed packages were read and [`plan_uninstall`] made a plan that removes
    /// `removals` distributions.
    Planned { removals: usize },
    /// The planned distributions were removed.
    Removed,
    /// The current stage failed.
    Failed,
}

/// Why an uninstall stopped with an error.
#[derive(Debug, Clone)]
pub enum UninstallError {
    ExternallyManaged(ExternallyManagedError),
    /// The failure of a stage, passed on as it is.
    Propagated,
    /// An event that the current stage does not expect.
    OutOfOrder,
}

/// How an uninstall ends.
#[derive(Debug, Clone)]
pub enum UninstallOutcome {
    /// Nothing that was asked for is installed: report "No packages to uninstall", or under
    /// `dry_run` "Would make no changes".
    NothingToUninstall { dry_run: bool },
    /// The planned distributions were removed, or under `dry_run` would have been: report them.
    Uninstalled { dry_run: bool },
    Error(UninstallError),
}

/// What the driver of an uninstall is to do next.
#[derive(Debug, Clone)]
pub enum UninstallAction {
    ReadRequirements,
    FindInterpreter(Discovery),
    ApplyRedirect(Redirect),
    AcquireLock,
    /// Read the installed packages and make the plan; `lock_held` tells whether the environment
    /// lock is held.
    Plan { lock_held: bool },
    /// Remove the planned distributions.
    Remove,
    Finish(UninstallOutcome),
}

/// The end of an uninstall on an event that its stage does not expect.
pub open spec fn uninstall_out_of_order() -> (UninstallStage, UninstallAction) {
    (
        UninstallStage::Done,
        UninstallAction::Finish(UninstallOutcome::Error(UninstallError::OutOfOrder)),
    )
}

/// The next stage and action of an uninstall after event `e` in stage `s`. The interpreter is
/// looked up as for a command that changes the environment; nothing is removed under
/// `dry_run`.
pub open spec fn uninstall_step_spec(settings: UninstallSettings, s: UninstallStage, e: UninstallEvent) -> (
    UninstallStage,
    UninstallAction,
) {
    match e {
        UninstallEvent::RequirementsRead => if s == UninstallStage::ReadingRequirements {
            (
                UninstallStage::FindingInterpreter,
                UninstallAction::FindInterpreter(
                    Discovery::Environment(preference_spec(settings.system, true)),
                ),
            )
        } else {
            uninstall_out_of_order()
        },
        UninstallEvent::InterpreterFound => if s == UninstallStage::FindingInterpreter {
            (
                UninstallStage::Redirecting,
                UninstallAction::ApplyRedirect(redirect_spec(settings.target, settings.prefix)),
            )
        } else {
            uninstall_out_of_order()
        },
        UninstallEvent::EnvironmentReady { externally_managed, root } => if s
            != UninstallStage::Redirecting {
            uninstall_out_of_order()
        } else if externally_managed_stops(
            externally_managed,
            settings.target is Some || settings.prefix is Some,
            settings.break_system_packages,
        ) {
            (
                UninstallStage::Done,
                UninstallAction::Finish(
                    UninstallOutcome::Error(
                        UninstallError::ExternallyManaged(
                            ExternallyManagedError { root, explanation: externally_managed->Some_0 },
                        ),
                    ),
                ),
            )
        } else {
            (UninstallStage::Locking, UninstallAction::AcquireLock)
        },
        UninstallEvent::LockAttempted { acquired } => if s == UninstallStage::Locking {
            (UninstallStage::Planning, UninstallAction::Plan { lock_held: acquired })
        } else {
            uninstall_out_of_order()
        },
        UninstallEvent::Planned { removals } => if s != UninstallStage::Planning {
            uninstall_out_of_order()
        } else if removals == 0 {
            (
                UninstallStage::Done,
                UninstallAction::Finish(
                    UninstallOutcome::NothingToUninstall { dry_run: settings.dry_run },
                ),
            )
        } else if settings.dry_run {
            (
                UninstallStage::Done,
                UninstallAction::Finish(UninstallOutcome::Uninstalled { dry_run: true }),
            )
        } else {
            (UninstallStage::Removing, UninstallAction::Remove)
        },
        UninstallEvent::Removed => if s == UninstallStage::Removing {
            (
                UninstallStage::Done,
                UninstallAction::Finish(UninstallOutcome::Uninstalled { dry_run: false }),
            )
        } else {
            uninstall_out_of_order()
        },
        UninstallEvent::Failed => if s == UninstallStage::Done {
            uninstall_out_of_order()
        } else {
            (
                UninstallStage::Done,
                UninstallAction::Finish(UninstallOutcome::Error(UninstallError::Propagated)),
            )
        },
    }
}

/// Begin an uninstall: the first stage and action.
pub fn uninstall_start() -> (r: (UninstallStage, UninstallAction))
    ensures
        r == (UninstallStage::ReadingRequirements, UninstallAction::ReadRequirements),
{
    (UninstallStage::ReadingRequirements, UninstallAction::ReadRequirements)
}

/// The end of an uninstall on an unexpected event.
fn uninstall_stop_out_of_order() -> (r: (UninstallStage, UninstallAction))
    ensures
        r == uninstall_out_of_order(),
{
    (
        UninstallStage::Done,
        UninstallAction::Finish(UninstallOutcome::Error(UninstallError::OutOfOrder)),
    )
}

/// Take one step of an uninstall: the next stage and action after event `e` in stage `s`.
pub fn uninstall_step(settings: &UninstallSettings, s: UninstallStage, e: UninstallEvent) -> (r: (
    UninstallStage,
    UninstallAction,
))
    ensures
        r == uninstall_step_spec(*settings, s, e),
{
    match e {
        UninstallEvent::RequirementsRead => if s == UninstallStage::ReadingRequirements {
            (
                UninstallStage::FindingInterpreter,
                UninstallAction::FindInterpreter(
                    Discovery::Environment(
                        EnvironmentPreference::from_system_flag(settings.system, true),
                    ),
                ),
            )
        } else {
            uninstall_stop_out_of_order()
        },
        UninstallEvent::InterpreterFound => if s == UninstallStage::FindingInterpreter {
            (
                UninstallStage::Redirecting,
                UninstallAction::ApplyRedirect(
                    choose_redirect(clone_opt(&settings.target), clone_opt(&settings.prefix)),
                ),
            )
        } else {
            uninstall_stop_out_of_order()
        },
        UninstallEvent::EnvironmentReady { externally_managed, root } => {
            if s != UninstallStage::Redirecting {
                return uninstall_stop_out_of_order();
            }
            let redirected = settings.target.is_some() || settings.prefix.is_some();
            match check_externally_managed(
                externally_managed,
                redirected,
                settings.break_system_packages,
                root,
            ) {
                Err(err) => (
                    UninstallStage::Done,
                    UninstallAction::Finish(
                        UninstallOutcome::Error(UninstallError::ExternallyManaged(err)),
                    ),
                ),
                Ok(()) => (UninstallStage::Locking, UninstallAction::AcquireLock),
            }
        },
        UninstallEvent::LockAttempted { acquired } => if s == UninstallStage::Locking {
            (UninstallStage::Planning, UninstallAction::Plan { lock_held: acquired })
        } else {
            uninstall_stop_out_of_order()
        },
        UninstallEvent::Planned { removals } => if s != UninstallStage::Planning {
            uninstall_stop_out_of_order()
        } else if removals == 0 {
            (
                UninstallStage::Done,
                UninstallAction::Finish(
                    UninstallOutcome::NothingToUninstall { dry_run: settings.dry_run },
                ),
            )
        } else if settings.dry_run {
            (
                UninstallStage::Done,
                UninstallAction::Finish(UninstallOutcome::Uninstalled { dry_run: true }),
            )
        } else {
            (UninstallStage::Removing, UninstallAction::Remove)
        },
        UninstallEvent::Removed => if s == UninstallStage::Removing {
            (
                UninstallStage::Done,
                UninstallAction::Finish(UninstallOutcome::Uninstalled { dry_run: false }),
            )
        } else {
            uninstall_stop_out_of_order()
        },
        UninstallEvent::Failed => if s == UninstallStage::Done {
            uninstall_stop_out_of_order()
        } else {
            (
                UninstallStage::Done,
                UninstallAction::Finish(UninstallOutcome::Error(UninstallError::Propagated)),
            )
        },
    }
}

/// The stage of an uninstall after the first `k` of `events`.
pub open spec fn uninstall_stage_after(settings: UninstallSettings, events: Seq<UninstallEvent>, k: nat) -> UninstallStage
    decreases k,
{
    if k == 0 {
        UninstallStage::ReadingRequirements
    } else {
        uninstall_step_spec(
            settings,
            uninstall_stage_after(settings, events, (k - 1) as nat),
            events[k - 1],
        ).0
    }
}

/// The action that an uninstall takes after the first `k` of `events`: its first action for
/// `k == 0`.
pub open spec fn uninstall_action_at(settings: UninstallSettings, events: Seq<UninstallEvent>, k: nat) -> UninstallAction {
    if k == 0 {
        UninstallAction::ReadRequirements
    } else {
        uninstall_step_spec(
            settings,
            uninstall_stage_after(settings, events, (k - 1) as nat),
            events[k - 1],
        ).1
    }
}

/// The stages that come after the environment lock was asked for.
pub open spec fn past_lock(stage: UninstallStage) -> bool {
    stage == UninstallStage::Locking || stage == UninstallStage::Planning || stage
        == UninstallStage::Removing
}

/// The environment lock is asked for only once the interpreter is bound and redirected and the
/// externally-managed check has let the uninstall go on; reading the installed packages and
/// removing distributions happen only in the stages past the lock.
pub proof fn lemma_uninstall_step_lock(settings: UninstallSettings, s: UninstallStage, e: UninstallEvent)
    ensures
        uninstall_step_spec(settings, s, e).1 is AcquireLock ==> {
            &&& s == UninstallStage::Redirecting
            &&& e matches UninstallEvent::EnvironmentReady { externally_managed, .. }
            &&& !externally_managed_stops(
                externally_managed,
                settings.target is Some || settings.prefix is Some,
                settings.break_system_packages,
            )
        },
        past_lock(uninstall_step_spec(settings, s, e).0) ==> past_lock(s)
            || uninstall_step_spec(settings, s, e).1 is AcquireLock,
        uninstall_step_spec(settings, s, e).1 is Plan || uninstall_step_spec(settings, s, e).1 is Remove
            ==> past_lock(s),
{
}

proof fn lemma_uninstall_trace_lock(settings: UninstallSettings, events: Seq<UninstallEvent>, k: nat)
    requires
        k <= events.len(),
    ensures
        past_lock(uninstall_stage_after(settings, events, k)) ==> exists|j: nat|
            j <= k && (#[trigger] uninstall_action_at(settings, events, j)) is AcquireLock,
    decreases k,
{
    if k > 0 {
        let p = (k - 1) as nat;
        lemma_uninstall_trace_lock(settings, events, p);
        lemma_uninstall_step_lock(settings, uninstall_stage_after(settings, events, p), events[p as int]);
        if past_lock(uninstall_stage_after(settings, events, k)) {
            if past_lock(uninstall_stage_after(settings, events, p)) {
                let j = choose|j: nat|
                    j <= p && (#[trigger] uninstall_action_at(settings, events, j)) is AcquireLock;
                assert(j <= k && uninstall_action_at(settings, events, j) is AcquireLock);
            } else {
                assert(uninstall_action_at(settings, events, k) is AcquireLock);
            }
        }
    }
}

/// No uninstall reads the installed packages or removes a distribution before the environment
/// lock has been asked for.
pub proof fn lemma_uninstall_lock_first(settings: UninstallSettings, events: Seq<UninstallEvent>, k: nat)
    requires
        k <= events.len(),
        uninstall_action_at(settings, events, k) is Plan || uninstall_action_at(settings, events, k) is Remove,
    ensures
        exists|j: nat| j < k && (#[trigger] uninstall_action_at(settings, events, j)) is AcquireLock,
{
    let p = (k - 1) as nat;
    lemma_uninstall_trace_lock(settings, events, p);
    lemma_uninstall_step_lock(settings, uninstall_stage_after(settings, events, p), events[p as int]);
}

/// The "not installed" warnings of a plan: the skipped names, then the skipped URLs, and none
/// under `dry_run`.
pub fn skipped_warnings(plan: &UninstallPlan, dry_run: bool) -> (r: Vec<String>)
    ensures
        dry_run ==> r@.len() == 0,
        !dry_run ==> r@ == plan.skipped_names@ + plan.skipped_urls@,
{
    let mut r: Vec<String> = Vec::new();
    if dry_run {
        return r;
    }
    let mut i: usize = 0;
    while i < plan.skipped_names.len()
        invariant
            i <= plan.skipped_names@.len(),
            r@ == plan.skipped_names@.subrange(0, i as int),
        decreases plan.skipped_names@.len() - i,
    {
        r.push(plan.skipped_names[i].clone());
        i = i + 1;
        assert(r@ =~= plan.skipped_names@.subrange(0, i as int));
    }
    let mut j: usize = 0;
    while j < plan.skipped_urls.len()
        invariant
            i == plan.skipped_names@.len(),
            j <= plan.skipped_urls@.len(),
            r@ == plan.skipped_names@ + plan.skipped_urls@.subrange(0, j as int),
        decreases plan.skipped_urls@.len() - j,
    {
        r.push(plan.skipped_urls[j].clone());
        j = j + 1;
        assert(r@ =~= plan.skipped_names@ + plan.skipped_urls@.subrange(0, j as int));
    }
    assert(plan.skipped_names@.subrange(0, i as int) =~= plan.skipped_names@);
    assert(plan.skipped_urls@.subrange(0, j as int) =~= plan.skipped_urls@);
    r
}

/// The word that follows a count of packages: singular for one.
pub fn package_noun(n: usize) -> (r: &'static str)
    ensures
        n == 1 ==> r@ == "package"@,
        n != 1 ==> r@ == "packages"@,
{
    if n == 1 {
        "package"
    } else {
        "packages"
    }
}

} // verus!
