use vstd::prelude::*;

use crate::assoc::{
    assoc_get, assoc_insert, lemma_assoc_get_absent, lemma_assoc_get_first, lemma_assoc_get_some,
    lemma_assoc_insert_get, lemma_assoc_insert_shape,
};
use crate::section::SelectedSection;

verus! {

/// The registry summary the dashboard shows: for each crate list the crate
/// names, and the names of the popular keywords and categories.
#[derive(Debug, Clone)]
pub struct Summary {
    pub num_crates: u64,
    pub num_downloads: u64,
    pub new_crates: Vec<String>,
    pub most_downloaded: Vec<String>,
    pub just_updated: Vec<String>,
    pub most_recently_downloaded: Vec<String>,
    pub popular_keywords: Vec<String>,
    pub popular_categories: Vec<String>,
}

/// The entries listed in section `s`: crate names for the four crate lists,
/// keyword names and category names for the last two.
pub open spec fn section_entries(summary: Summary, s: SelectedSection) -> Seq<String> {
    match s {
        SelectedSection::NewCrates => summary.new_crates@,
        SelectedSection::MostDownloaded => summary.most_downloaded@,
        SelectedSection::JustUpdated => summary.just_updated@,
        SelectedSection::RecentDownloads => summary.most_recently_downloaded@,
        SelectedSection::PopularKeywords => summary.popular_keywords@,
        SelectedSection::PopularCategories => summary.popular_categories@,
    }
}

/// Whether section `s` lists crates (rather than keywords or categories).
pub open spec fn is_crate_section(s: SelectedSection) -> bool {
    match s {
        SelectedSection::NewCrates
        | SelectedSection::MostDownloaded
        | SelectedSection::JustUpdated
        | SelectedSection::RecentDownloads => true,
        _ => false,
    }
}

impl Summary {
    /// The entries listed in section `s`.
    pub fn entries(&self, s: SelectedSection) -> (r: &Vec<String>)
        ensures
            r@ == section_entries(*self, s),
    {
        match s {
            SelectedSection::NewCrates => &self.new_crates,
            SelectedSection::MostDownloaded => &self.most_downloaded,
            SelectedSection::JustUpdated => &self.just_updated,
            SelectedSection::RecentDownloads => &self.most_recently_downloaded,
            SelectedSection::PopularKeywords => &self.popular_keywords,
            SelectedSection::PopularCategories => &self.popular_categories,
        }
    }

    /// Whether section `s` lists crates.
    pub fn lists_crates(s: SelectedSection) -> (r: bool)
        ensures
            r == is_crate_section(s),
    {
        match s {
            SelectedSection::NewCrates
            | SelectedSection::MostDownloaded
            | SelectedSection::JustUpdated
            | SelectedSection::RecentDownloads => true,
            _ => false,
        }
    }
}

/// A copy of a list of strings.
pub fn copy_strings(v: &Vec<String>) -> (r: Vec<String>)
    ensures
        r@ == v@,
{
    let mut r: Vec<String> = Vec::new();
    let n = v.len();
    for i in 0..n
        invariant
            n == v.len(),
            r@ == v@.subrange(0, i as int),
    {
        r.push(v[i].clone());
        assert(r@ =~= v@.subrange(0, i + 1));
    }
    assert(r@ =~= v@);
    r
}

/// What the info popup shows of a crate.
#[derive(Debug, Clone)]
pub struct CrateDetails {
    pub name: String,
    pub description: Option<String>,
    pub keywords: Option<Vec<String>>,
    pub max_version: String,
}

/// One cached crate: its name and its details.
#[derive(Debug, Clone)]
pub struct CachedCrate {
    pub name: String,
    pub details: CrateDetails,
}

/// Crate details fetched so far, by crate name.
#[derive(Debug, Clone)]
pub struct CrateCache {
    pub entries: Vec<CachedCrate>,
}

impl CrateCache {
    /// The cache as pairs of crate name and details.
    pub open spec fn pairs(self) -> Seq<(Seq<char>, CrateDetails)> {
        self.entries@.map_values(|e: CachedCrate| (e.name@, e.details))
    }

    /// The details cached for a crate name.
    pub open spec fn lookup(self, name: Seq<char>) -> Option<CrateDetails> {
        assoc_get(self.pairs(), name)
    }

    /// Whether details are cached for a crate name.
    pub open spec fn has(self, name: Seq<char>) -> bool {
        self.lookup(name) is Some
    }

    /// An empty cache.
    pub fn new() -> (r: CrateCache)
        ensures
            r.pairs() == Seq::<(Seq<char>, CrateDetails)>::empty(),
            forall|n: Seq<char>| !(#[trigger] r.has(n)),
    {
        let r = CrateCache { entries: Vec::new() };
        assert(r.pairs() =~= Seq::<(Seq<char>, CrateDetails)>::empty());
        r
    }

    /// The number of cached crates.
    pub fn len(&self) -> (r: usize)
        ensures
            r == self.pairs().len(),
    {
        self.entries.len()
    }

    /// The position of the entry for `name`, if any.
    fn position(&self, name: &String) -> (r: Option<usize>)
        ensures
            match r {
                Some(i) => {
                    &&& i < self.entries@.len()
                    &&& self.pairs()[i as int].0 == name@
                    &&& forall|j: int| 0 <= j < i ==> self.pairs()[j].0 != name@
                },
                None => forall|j: int| 0 <= j < self.pairs().len() ==> self.pairs()[j].0 != name@,
            },
    {
        let n = self.entries.len();
        for i in 0..n
            invariant
                n == self.entries@.len(),
                forall|j: int| 0 <= j < i ==> self.pairs()[j].0 != name@,
        {
            if self.entries[i].name == *name {
                return Some(i);
            }
        }
        None
    }

    /// Whether details are cached for `name`.
    pub fn contains_key(&self, name: &String) -> (r: bool)
        ensures
            r == self.has(name@),
    {
        proof {
            lemma_assoc_get_some(self.pairs(), name@);
        }
        self.position(name).is_some()
    }

    /// The details cached for `name`.
    pub fn get(&self, name: &String) -> (r: Option<&CrateDetails>)
        ensures
            match r {
                Some(d) => self.lookup(name@) == Some(*d),
                None => self.lookup(name@) is None,
            },
    {
        match self.position(name) {
            Some(i) => {
                proof {
                    lemma_assoc_get_first(self.pairs(), name@, i as int);
                }
                Some(&self.entries[i].details)
            },
            None => {
                proof {
                    lemma_assoc_get_absent(self.pairs(), name@);
                }
                None
            },
        }
    }

    /// Caches `details` under `name`, replacing what was cached for it.
    pub fn insert(&mut self, name: String, details: CrateDetails)
        ensures
            final(self).pairs() == assoc_insert(old(self).pairs(), name@, details),
            final(self).lookup(name@) == Some(details),
            forall|n: Seq<char>| n != name@ ==> #[trigger] final(self).lookup(n) == old(self).lookup(n),
    {
        let ghost old_pairs = self.pairs();
        let ghost nv = name@;
        proof {
            lemma_assoc_insert_shape(old_pairs, nv, details);
        }
        match self.position(&name) {
            Some(i) => {
                self.entries.set(i, CachedCrate { name, details });
                assert(self.pairs() =~= old_pairs.update(i as int, (nv, details)));
            },
            None => {
                self.entries.push(CachedCrate { name, details });
                assert(self.pairs() =~= old_pairs.push((nv, details)));
            },
        }
        proof {
            lemma_assoc_insert_get(old_pairs, nv, details, nv);
            assert forall|n: Seq<char>| n != nv implies #[trigger] self.lookup(n) == assoc_get(old_pairs, n) by {
                lemma_assoc_insert_get(old_pairs, nv, details, n);
            }
        }
    }
}

} // verus!
