//! A table of pre-defined package metadata, consulted in place of building or downloading a
//! distribution to learn its dependencies.

use vstd::prelude::*;

use crate::text::{clone_opt, clone_strings, opt_text, str_eq};

verus! {

/// A subset of the Python Package Metadata 2.3 standard, given ahead of time for one package.
/// Names, versions, requirements and extras are held in their normalized text form.
#[derive(Debug, Clone)]
pub struct StaticMetadata {
    pub name: String,
    pub version: Option<String>,
    pub requires_dist: Vec<String>,
    pub requires_python: Option<String>,
    pub provides_extras: Vec<String>,
}

/// The metadata of a distribution, as the resolver consumes it.
#[derive(Debug, Clone)]
pub struct ResolutionMetadata {
    pub name: String,
    pub version: String,
    pub requires_dist: Vec<String>,
    pub requires_python: Option<String>,
    pub provides_extras: Vec<String>,
    pub dynamic: bool,
}

/// Pre-defined [`StaticMetadata`] entries, looked up by package name and version. They are held
/// as one list in the order in which they were given, which a lookup scans; the entries of a
/// name are those of the list with that name.
#[derive(Debug, Clone)]
pub struct DependencyMetadata {
    entries: Vec<StaticMetadata>,
}

/// The result of a metadata lookup.
#[derive(Debug, Clone)]
pub enum MetadataLookup {
    Found(ResolutionMetadata),
    /// The table has no entry for the package.
    NoPackage,
    /// A version was asked for, and the package has neither an entry of that version nor a
    /// global one.
    NoMatchingVersion,
    /// No version was asked for, and the package has several entries.
    Ambiguous,
    /// No version was asked for, and the package's only entry carries no version.
    Unversioned,
}

impl MetadataLookup {
    /// The metadata found, if any.
    pub open spec fn found(self) -> Option<ResolutionMetadata> {
        match self {
            MetadataLookup::Found(m) => Some(m),
            _ => None,
        }
    }
}

/// Whether `e` is an entry for `package` whose version is `version` (`None`: a versionless,
/// or global, entry).
pub open spec fn entry_matches(e: StaticMetadata, package: Seq<char>, version: Option<Seq<char>>) -> bool {
    e.name@ == package && opt_text(e.version) == version
}

/// Whether `i` is the first index of `s` at which an entry for `package` with version
/// `version` stands.
pub open spec fn is_first_match(
    s: Seq<StaticMetadata>,
    i: int,
    package: Seq<char>,
    version: Option<Seq<char>>,
) -> bool {
    &&& 0 <= i < s.len()
    &&& entry_matches(s[i], package, version)
    &&& forall|j: int| 0 <= j < i ==> !entry_matches(#[trigger] s[j], package, version)
}

/// Whether some entry of `s` is for `package` with version `version`.
pub open spec fn has_match(s: Seq<StaticMetadata>, package: Seq<char>, version: Option<Seq<char>>) -> bool {
    exists|i: int| 0 <= i < s.len() && entry_matches(#[trigger] s[i], package, version)
}

/// The number of entries of `s` for `package`.
pub open spec fn count_named(s: Seq<StaticMetadata>, package: Seq<char>) -> nat
    decreases s.len(),
{
    if s.len() == 0 {
        0
    } else {
        count_named(s.drop_last(), package) + if s.last().name@ == package {
            1nat
        } else {
            0nat
        }
    }
}

/// Whether `m` is the metadata that entry `e` gives for version `version`.
pub open spec fn resolves_to(m: ResolutionMetadata, e: StaticMetadata, version: Seq<char>) -> bool {
    &&& m.name@ == e.name@
    &&& m.version@ == version
    &&& m.requires_dist@ == e.requires_dist@
    &&& opt_text(m.requires_python) == opt_text(e.requires_python)
    &&& m.provides_extras@ == e.provides_extras@
    &&& !m.dynamic
}

/// What a lookup of `package` at `version` gives: with a version, the first entry of exactly
/// that version, else the first global entry, else nothing; without one, the only entry for the
/// package, provided there is exactly one and it carries a version.
pub open spec fn lookup_spec(
    s: Seq<StaticMetadata>,
    package: Seq<char>,
    version: Option<Seq<char>>,
    r: Option<ResolutionMetadata>,
) -> bool {
    match version {
        Some(v) => {
            &&& (r is Some <==> has_match(s, package, Some(v)) || has_match(s, package, None))
            &&& has_match(s, package, Some(v)) ==> exists|i: int|
                is_first_match(s, i, package, Some(v)) && resolves_to(r->Some_0, #[trigger] s[i], v)
            &&& !has_match(s, package, Some(v)) && has_match(s, package, None) ==> exists|i: int|
                is_first_match(s, i, package, None) && resolves_to(r->Some_0, #[trigger] s[i], v)
        },
        None => {
            &&& (r is Some <==> count_named(s, package) == 1 && exists|i: int|
                0 <= i < s.len() && s[i].name@ == package && (#[trigger] s[i]).version is Some)
            &&& r is Some ==> exists|i: int|
                0 <= i < s.len() && s[i].name@ == package && (#[trigger] s[i]).version is Some
                    && resolves_to(r->Some_0, s[i], s[i].version->Some_0@)
        },
    }
}

/// The metadata that entry `e` gives for `version`.
fn resolution_metadata(e: &StaticMetadata, version: String) -> (r: ResolutionMetadata)
    ensures
        resolves_to(r, *e, version@),
{
    ResolutionMetadata {
        name: e.name.clone(),
        version,
        requires_dist: clone_strings(&e.requires_dist),
        requires_python: clone_opt(&e.requires_python),
        provides_extras: clone_strings(&e.provides_extras),
        dynamic: false,
    }
}

/// Whether two optional strings hold the same text.
fn same_version(a: &Option<String>, b: Option<&str>) -> (r: bool)
    ensures
        r == (opt_text(*a) == match b {
            Some(s) => Some(s@),
            None => None::<Seq<char>>,
        }),
{
    match (a, b) {
        (Some(x), Some(y)) => str_eq(x.as_str(), y),
        (None, None) => true,
        _ => false,
    }
}

impl DependencyMetadata {
    /// The entries, in the order in which they were given.
    pub closed spec fn view(&self) -> Seq<StaticMetadata> {
        self.entries@
    }

    /// Index a set of [`StaticMetadata`] entries by package name and version.
    pub fn from_entries(entries: Vec<StaticMetadata>) -> (r: Self)
        ensures
            r@ == entries@,
    {
        DependencyMetadata { entries }
    }

    /// Return the index of the first entry for `package` with version `version`, if any.
    fn find_first(&self, package: &str, version: Option<&str>) -> (r: Option<usize>)
        ensures
            match r {
                Some(i) => is_first_match(self@, i as int, package@, match version {
                    Some(v) => Some(v@),
                    None => None,
                }),
                None => !has_match(self@, package@, match version {
                    Some(v) => Some(v@),
                    None => None,
                }),
            },
    {
        let ghost want = match version {
            Some(v) => Some(v@),
            None => None,
        };
        let mut i: usize = 0;
        while i < self.entries.len()
            invariant
                i <= self@.len(),
                self@ == self.entries@,
                want == match version {
                    Some(v) => Some(v@),
                    None => None::<Seq<char>>,
                },
                forall|j: int| 0 <= j < i ==> !entry_matches(#[trigger] self@[j], package@, want),
            decreases self@.len() - i,
        {
            let e = &self.entries[i];
            if str_eq(e.name.as_str(), package) && same_version(&e.version, version) {
                return Some(i);
            }
            i = i + 1;
        }
        None
    }

    /// Return the number of entries for `package`, and the index of the last of them.
    fn count_for(&self, package: &str) -> (r: (usize, usize))
        ensures
            r.0 == count_named(self@, package@),
            r.0 > 0 ==> r.1 < self@.len() && self@[r.1 as int].name@ == package@,
    {
        let mut count: usize = 0;
        let mut last: usize = 0;
        let mut i: usize = 0;
        while i < self.entries.len()
            invariant
                i <= self@.len(),
                self@ == self.entries@,
                count == count_named(self@.subrange(0, i as int), package@),
                count <= i,
                count > 0 ==> last < i && self@[last as int].name@ == package@,
            decreases self@.len() - i,
        {
            assert(self@.subrange(0, i + 1).drop_last() =~= self@.subrange(0, i as int));
            if str_eq(self.entries[i].name.as_str(), package) {
                count = count + 1;
                last = i;
            }
            i = i + 1;
        }
        assert(self@.subrange(0, self@.len() as int) =~= self@);
        (count, last)
    }

    /// Look up the metadata of `package` at `version`, telling apart the ways a lookup can miss.
    /// With a version, an entry of exactly that version is preferred, then a global
    /// (versionless) entry. Without one (a direct URL dependency), the package must have exactly
    /// one entry, and it must carry a version. Versions are compared as text, so both sides are
    /// to be in normalized form (`1.0` and `1.0.0` are different texts).
    pub fn lookup(&self, package: &str, version: Option<&str>) -> (r: MetadataLookup)
        ensures
            lookup_spec(self@, package@, match version {
                Some(v) => Some(v@),
                None => None,
            }, r.found()),
            r is NoPackage <==> count_named(self@, package@) == 0,
            r is NoMatchingVersion <==> version is Some && count_named(self@, package@) > 0
                && r.found() is None,
            r is Ambiguous <==> version is None && count_named(self@, package@) > 1,
            r is Unversioned <==> version is None && count_named(self@, package@) == 1
                && r.found() is None,
    {
        let (count, last) = self.count_for(package);
        if let Some(v) = version {
            let exact = self.find_first(package, Some(v));
            let found = match exact {
                Some(i) => Some(i),
                None => self.find_first(package, None),
            };
            match found {
                Some(i) => {
                    proof {
                        lemma_count_one(self@, package@, i as int);
                    }
                    let r = resolution_metadata(&self.entries[i], String::from_str(v));
                    assert(resolves_to(r, self@[i as int], v@));
                    MetadataLookup::Found(r)
                },
                None => if count == 0 {
                    MetadataLookup::NoPackage
                } else {
                    MetadataLookup::NoMatchingVersion
                },
            }
        } else {
            if count == 0 {
                return MetadataLookup::NoPackage;
            }
            if count != 1 {
                return MetadataLookup::Ambiguous;
            }
            proof {
                lemma_single_named(self@, package@, last as int);
            }
            let e = &self.entries[last];
            match &e.version {
                Some(v) => {
                    let r = resolution_metadata(e, v.clone());
                    assert(resolves_to(r, self@[last as int], self@[last as int].version->Some_0@));
                    MetadataLookup::Found(r)
                },
                None => MetadataLookup::Unversioned,
            }
        }
    }

    /// Retrieve the metadata of `package` at `version`, as [`DependencyMetadata::lookup`] finds
    /// it; every way of missing gives `None`.
    pub fn get(&self, package: &str, version: Option<&str>) -> (r: Option<ResolutionMetadata>)
        ensures
            lookup_spec(self@, package@, match version {
                Some(v) => Some(v@),
                None => None,
            }, r),
    {
        match self.lookup(package, version) {
            MetadataLookup::Found(m) => Some(m),
            _ => None,
        }
    }

    /// Retrieve all [`StaticMetadata`] entries.
    pub fn values(&self) -> (r: &Vec<StaticMetadata>)
        ensures
            r@ == self@,
    {
        &self.entries
    }
}

/// Where only one entry of `s` is for `package`, it is the one at any index that is for it.
proof fn lemma_single_named(s: Seq<StaticMetadata>, package: Seq<char>, k: int)
    requires
        count_named(s, package) == 1,
        0 <= k < s.len(),
        s[k].name@ == package,
    ensures
        forall|j: int| 0 <= j < s.len() && s[j].name@ == package ==> j == k,
    decreases s.len(),
{
    assert forall|j: int| 0 <= j < s.len() && s[j].name@ == package implies j == k by {
        if j != k {
            lemma_count_two(s, package, j, k);
        }
    }
}

/// Two distinct entries for `package` make its count at least two.
proof fn lemma_count_two(s: Seq<StaticMetadata>, package: Seq<char>, a: int, b: int)
    requires
        0 <= a < s.len(),
        0 <= b < s.len(),
        a != b,
        s[a].name@ == package,
        s[b].name@ == package,
    ensures
        count_named(s, package) >= 2,
    decreases s.len(),
{
    let t = s.drop_last();
    let last = s.len() - 1;
    if a == last {
        lemma_count_one(t, package, b);
    } else if b == last {
        lemma_count_one(t, package, a);
    } else {
        assert(t[a] == s[a] && t[b] == s[b]);
        lemma_count_two(t, package, a, b);
    }
}

/// An entry for `package` makes its count at least one.
proof fn lemma_count_one(s: Seq<StaticMetadata>, package: Seq<char>, a: int)
    requires
        0 <= a < s.len(),
        s[a].name@ == package,
    ensures
        count_named(s, package) >= 1,
    decreases s.len(),
{
    if a < s.len() - 1 {
        assert(s.drop_last()[a] == s[a]);
        lemma_count_one(s.drop_last(), package, a);
    }
}

} // verus!
