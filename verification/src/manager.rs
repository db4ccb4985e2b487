//! The registry manager: a named collection of registry clients, and the
//! merge semantics of the federated search.
//!
//! The mapping is kept as a vector with pairwise-distinct names. Adding a
//! client whose name is already present replaces the prior entry
//! (last-write-wins), so repeated registration is idempotent. The federated
//! search fans out per registry; a registry that fails contributes nothing,
//! and the result is the union of what succeeded.

use vstd::prelude::*;
use vstd::seq_lib::*;

use crate::registry::{ImageInfo, RegistryClient};
use crate::substr::{contains_seq, str_contains, str_eq};

verus! {

/// The clients registered under unique names.
#[derive(Debug, Clone, PartialEq)]
pub struct RegistryManager {
    pub registries: Vec<RegistryClient>,
}

/// What one registry contributed to a federated search: its name, and its
/// image results — or `None` where that registry failed and was skipped.
#[derive(Debug, PartialEq)]
pub struct RegistrySearchOutcome {
    pub registry: String,
    pub images: Option<Vec<ImageInfo>>,
}

/// The images of one outcome, each tagged with the registry's name.
pub open spec fn tagged(registry: String, images: Seq<ImageInfo>) -> Seq<(String, ImageInfo)> {
    Seq::new(images.len(), |i: int| (registry, images[i]))
}

/// What one outcome contributes to the merged result.
pub open spec fn contribution(o: RegistrySearchOutcome) -> Seq<(String, ImageInfo)> {
    match o.images {
        Some(v) => tagged(o.registry, v@),
        None => Seq::empty(),
    }
}

/// The merged federated-search result: every successful outcome's images in
/// order, failures contributing nothing.
pub open spec fn merged(outcomes: Seq<RegistrySearchOutcome>) -> Seq<(String, ImageInfo)>
    decreases outcomes.len(),
{
    if outcomes.len() == 0 {
        Seq::empty()
    } else {
        contribution(outcomes[0]) + merged(outcomes.drop_first())
    }
}

proof fn lemma_merged_push(outcomes: Seq<RegistrySearchOutcome>, o: RegistrySearchOutcome)
    ensures
        merged(outcomes.push(o)) == merged(outcomes) + contribution(o),
    decreases outcomes.len(),
{
    if outcomes.len() == 0 {
        let p = outcomes.push(o);
        assert(p[0] == o);
        assert(p.drop_first() =~= Seq::<RegistrySearchOutcome>::empty());
        assert(merged(p) == contribution(o) + merged(p.drop_first()));
        assert(merged(p.drop_first()) == Seq::<(String, ImageInfo)>::empty());
        assert(merged(outcomes) == Seq::<(String, ImageInfo)>::empty());
        assert(merged(p) =~= merged(outcomes) + contribution(o));
    } else {
        assert(outcomes.push(o)[0] == outcomes[0]);
        assert(outcomes.push(o).drop_first() =~= outcomes.drop_first().push(o));
        lemma_merged_push(outcomes.drop_first(), o);
        assert(merged(outcomes.push(o)) =~= merged(outcomes) + contribution(o));
    }
}

pub(crate) proof fn lemma_filter_push<A>(s: Seq<A>, p: spec_fn(A) -> bool, x: A)
    ensures
        s.push(x).filter(p) == if p(x) {
            s.filter(p).push(x)
        } else {
            s.filter(p)
        },
{
    reveal(Seq::filter);
    assert(s.push(x).drop_last() =~= s);
}

/// Failed registries contribute nothing: the merged result is unchanged
/// when every failed outcome is dropped beforehand. Together with the
/// definition of `merged`, the federated search returns exactly the union
/// of the successful registries' results, and a failure aborts nothing.
pub proof fn lemma_merged_skips_failures(outcomes: Seq<RegistrySearchOutcome>)
    ensures
        merged(outcomes) == merged(
            outcomes.filter(|o: RegistrySearchOutcome| o.images is Some),
        ),
    decreases outcomes.len(),
{
    let p = |o: RegistrySearchOutcome| o.images is Some;
    if outcomes.len() == 0 {
        reveal(Seq::filter);
    } else {
        let t = outcomes.drop_last();
        let x = outcomes.last();
        lemma_merged_skips_failures(t);
        lemma_filter_push(t, p, x);
        assert(t.push(x) =~= outcomes);
        lemma_merged_push(t, x);
        if p(x) {
            lemma_merged_push(t.filter(p), x);
        } else {
            assert(contribution(x) =~= Seq::<(String, ImageInfo)>::empty());
            assert(merged(t) + contribution(x) =~= merged(t));
        }
    }
}

/// Merges per-registry search outcomes: failures are swallowed, successes
/// are concatenated in order, each image tagged with its registry's name.
pub fn merge_search_results(outcomes: Vec<RegistrySearchOutcome>) -> (r: Vec<(String, ImageInfo)>)
    ensures
        r@ == merged(outcomes@),
{
    let ghost orig = outcomes@;
    let mut outcomes = outcomes;
    let mut results: Vec<(String, ImageInfo)> = Vec::new();
    while outcomes.len() > 0
        invariant
            merged(orig) == results@ + merged(outcomes@),
        decreases outcomes@.len(),
    {
        let ghost pre = outcomes@;
        let ghost base = results@;
        let o = outcomes.remove(0);
        let ghost og = o;
        proof {
            assert(outcomes@ =~= pre.drop_first());
            assert(pre[0] == og);
            assert(merged(pre) == contribution(og) + merged(outcomes@));
        }
        let RegistrySearchOutcome { registry, images } = o;
        match images {
            Some(mut imgs) => {
                let ghost vorig = imgs@;
                let initial_len = imgs.len();
                let mut j: usize = 0;
                proof {
                    assert(vorig.len() == initial_len);
                    assert(tagged(registry, vorig).take(0) =~= Seq::<(String, ImageInfo)>::empty());
                    assert(base + tagged(registry, vorig).take(0) =~= base);
                }
                while imgs.len() > 0
                    invariant
                        j + imgs@.len() == vorig.len(),
                        vorig.len() <= usize::MAX,
                        imgs@ =~= vorig.skip(j as int),
                        results@ == base + tagged(registry, vorig).take(j as int),
                    decreases imgs@.len(),
                {
                    let ghost ipre = imgs@;
                    let img = imgs.remove(0);
                    proof {
                        assert(imgs@ =~= ipre.drop_first());
                        assert(ipre[0] == vorig[j as int]);
                        assert(imgs@ =~= vorig.skip(j as int + 1));
                    }
                    results.push((registry.clone(), img));
                    proof {
                        assert(tagged(registry, vorig).take(j + 1) =~= tagged(
                            registry,
                            vorig,
                        ).take(j as int).push((registry, vorig[j as int])));
                        assert(base + tagged(registry, vorig).take(j + 1) =~= (base + tagged(
                            registry,
                            vorig,
                        ).take(j as int)).push((registry, vorig[j as int])));
                    }
                    j = j + 1;
                }
                proof {
                    assert(tagged(registry, vorig).take(j as int) =~= tagged(registry, vorig));
                    assert(contribution(og) == tagged(registry, vorig));
                    assert((base + contribution(og)) + merged(outcomes@) =~= base + (contribution(
                        og,
                    ) + merged(outcomes@)));
                }
            },
            None => {
                proof {
                    assert(contribution(og) =~= Seq::<(String, ImageInfo)>::empty());
                    assert(contribution(og) + merged(outcomes@) =~= merged(outcomes@));
                }
            },
        }
    }
    proof {
        assert(merged(outcomes@) =~= Seq::<(String, ImageInfo)>::empty());
        assert(results@ + merged(outcomes@) =~= results@);
    }
    results
}

/// The repositories whose name contains the query, in order: the filter
/// step of the federated search.
pub fn matching_repositories(repositories: &Vec<String>, query: &str) -> (r: Vec<String>)
    ensures
        r@ == repositories@.filter(|s: String| contains_seq(s@, query@)),
{
    let mut r: Vec<String> = Vec::new();
    let mut i: usize = 0;
    proof {
        reveal(Seq::filter);
        assert(repositories@.take(0) =~= Seq::<String>::empty());
    }
    while i < repositories.len()
        invariant
            0 <= i <= repositories@.len(),
            r@ == repositories@.take(i as int).filter(|s: String| contains_seq(s@, query@)),
        decreases repositories@.len() - i,
    {
        proof {
            lemma_filter_push(
                repositories@.take(i as int),
                |s: String| contains_seq(s@, query@),
                repositories@[i as int],
            );
            assert(repositories@.take(i + 1) =~= repositories@.take(i as int).push(
                repositories@[i as int],
            ));
        }
        if str_contains(repositories[i].as_str(), query) {
            r.push(repositories[i].clone());
        }
        i = i + 1;
    }
    proof {
        assert(repositories@.take(repositories@.len() as int) =~= repositories@);
    }
    r
}

impl RegistryManager {
    /// The registered names, in storage order.
    pub open spec fn names(self) -> Seq<Seq<char>> {
        Seq::new(self.registries@.len(), |i: int| self.registries@[i].config.name@)
    }

    /// At most one client per name.
    pub open spec fn wf(self) -> bool {
        forall|i: int, j: int|
            0 <= i < j < self.names().len() ==> self.names()[i] != self.names()[j]
    }

    pub open spec fn spec_contains(self, name: Seq<char>) -> bool {
        exists|i: int| 0 <= i < self.names().len() && self.names()[i] == name
    }

    pub open spec fn idx_of(self, name: Seq<char>) -> int {
        choose|i: int| 0 <= i < self.names().len() && self.names()[i] == name
    }

    /// The client registered under a name.
    pub open spec fn spec_get(self, name: Seq<char>) -> Option<RegistryClient> {
        if self.spec_contains(name) {
            Some(self.registries@[self.idx_of(name)])
        } else {
            None
        }
    }

    pub open spec fn spec_len(self) -> nat {
        self.registries@.len()
    }

    /// An empty manager.
    pub fn new() -> (r: Self)
        ensures
            r.wf(),
            r.spec_len() == 0,
            forall|n: Seq<char>| !r.spec_contains(n),
    {
        RegistryManager { registries: Vec::new() }
    }

    proof fn lemma_get_at(self, i: int)
        requires
            self.wf(),
            0 <= i < self.names().len(),
        ensures
            self.spec_contains(self.names()[i]),
            self.spec_get(self.names()[i]) == Some(self.registries@[i]),
    {
        let n = self.names()[i];
        assert(self.spec_contains(n));
        let j = self.idx_of(n);
        assert(0 <= j < self.names().len() && self.names()[j] == n);
        if i < j {
            assert(false);
        } else if j < i {
            assert(false);
        }
    }

    /// Finds the position of a name, scanning in order.
    fn find_index(&self, name: &str) -> (r: Option<usize>)
        ensures
            match r {
                Some(i) => i < self.names().len() && self.names()[i as int] == name@,
                None => !self.spec_contains(name@),
            },
    {
        let mut i: usize = 0;
        while i < self.registries.len()
            invariant
                0 <= i <= self.names().len(),
                forall|k: int| 0 <= k < i ==> self.names()[k] != name@,
            decreases self.names().len() - i,
        {
            if str_eq(self.registries[i].config.name.as_str(), name) {
                return Some(i);
            }
            i = i + 1;
        }
        None
    }

    /// Registers a client under its configured name. A colliding name
    /// replaces the prior entry (last-write-wins); every other entry is
    /// untouched.
    pub fn add_registry(&mut self, client: RegistryClient)
        requires
            old(self).wf(),
        ensures
            final(self).wf(),
            final(self).spec_get(client.config.name@) == Some(client),
            forall|n: Seq<char>|
                n != client.config.name@ ==> final(self).spec_get(n) == old(self).spec_get(n),
            old(self).spec_contains(client.config.name@) ==> final(self).spec_len() == old(
                self,
            ).spec_len(),
            !old(self).spec_contains(client.config.name@) ==> final(self).spec_len() == old(
                self,
            ).spec_len() + 1,
    {
        let ghost oldm = *self;
        let ghost cname = client.config.name@;
        match self.find_index(client.config.name.as_str()) {
            Some(i) => {
                self.registries.remove(i);
                self.registries.insert(i, client);
                proof {
                    assert(self.registries@ =~= oldm.registries@.update(i as int, client));
                    assert(self.names() =~= oldm.names());
                    self.lemma_get_at(i as int);
                    assert forall|n: Seq<char>| n != cname implies final(self).spec_get(n)
                        == oldm.spec_get(n) by {
                        assert(self.spec_contains(n) == oldm.spec_contains(n));
                        if oldm.spec_contains(n) {
                            let j = oldm.idx_of(n);
                            assert(0 <= j < oldm.names().len() && oldm.names()[j] == n);
                            assert(j != i);
                            oldm.lemma_get_at(j);
                            self.lemma_get_at(j);
                        }
                    }
                }
            },
            None => {
                self.registries.push(client);
                proof {
                    assert(self.names() =~= oldm.names().push(cname));
                    assert forall|i: int, j: int|
                        0 <= i < j < self.names().len() implies self.names()[i]
                        != self.names()[j] by {
                        if j < oldm.names().len() {
                        } else {
                            assert(self.names()[j] == cname);
                            assert(oldm.names()[i] == self.names()[i]);
                        }
                    }
                    self.lemma_get_at(oldm.names().len() as int);
                    assert forall|n: Seq<char>| n != cname implies final(self).spec_get(n)
                        == oldm.spec_get(n) by {
                        if self.spec_contains(n) {
                            let j = self.idx_of(n);
                            assert(0 <= j < self.names().len() && self.names()[j] == n);
                            assert(j < oldm.names().len());
                            oldm.lemma_get_at(j);
                            self.lemma_get_at(j);
                        } else {
                            if oldm.spec_contains(n) {
                                let j = oldm.idx_of(n);
                                assert(oldm.names()[j] == self.names()[j]);
                                assert(false);
                            }
                        }
                    }
                }
            },
        }
    }

    /// Read-only lookup by name.
    pub fn get_registry(&self, name: &str) -> (r: Option<&RegistryClient>)
        requires
            self.wf(),
        ensures
            match r {
                Some(c) => self.spec_contains(name@) && Some(*c) == self.spec_get(name@),
                None => !self.spec_contains(name@),
            },
    {
        match self.find_index(name) {
            Some(i) => {
                proof {
                    self.lemma_get_at(i as int);
                }
                Some(&self.registries[i])
            },
            None => None,
        }
    }

    /// The registered names.
    pub fn list_registries(&self) -> (r: Vec<&str>)
        ensures
            r@.len() == self.names().len(),
            forall|i: int| 0 <= i < r@.len() ==> (#[trigger] r@[i])@ == self.names()[i],
    {
        let mut r: Vec<&str> = Vec::new();
        let mut i: usize = 0;
        while i < self.registries.len()
            invariant
                0 <= i <= self.names().len(),
                r@.len() == i,
                forall|k: int| 0 <= k < i ==> (#[trigger] r@[k])@ == self.names()[k],
            decreases self.names().len() - i,
        {
            r.push(self.registries[i].config.name.as_str());
            i = i + 1;
        }
        r
    }

    /// Exactly what removal does: reports whether the name was present,
    /// leaves the name absent, and touches no other entry. When the name
    /// was absent the manager is unchanged.
    pub open spec fn remove_rel(
        old_m: RegistryManager,
        name: Seq<char>,
        new_m: RegistryManager,
        removed: bool,
    ) -> bool {
        &&& removed == old_m.spec_contains(name)
        &&& !new_m.spec_contains(name)
        &&& new_m.wf()
        &&& forall|n: Seq<char>| n != name ==> new_m.spec_get(n) == old_m.spec_get(n)
        &&& (removed ==> new_m.spec_len() + 1 == old_m.spec_len())
        &&& (!removed ==> new_m == old_m)
    }

    /// Removes a name; reports whether an entry existed.
    pub fn remove_registry(&mut self, name: &str) -> (removed: bool)
        requires
            old(self).wf(),
        ensures
            RegistryManager::remove_rel(*old(self), name@, *final(self), removed),
    {
        let ghost oldm = *self;
        match self.find_index(name) {
            Some(i) => {
                proof {
                    oldm.lemma_get_at(i as int);
                }
                self.registries.remove(i);
                proof {
                    assert(self.registries@ =~= oldm.registries@.remove(i as int));
                    assert(self.names() =~= oldm.names().remove(i as int));
                    assert(forall|k: int|
                        0 <= k < i ==> self.names()[k] == oldm.names()[k]);
                    assert(forall|k: int|
                        i <= k < self.names().len() ==> self.names()[k] == oldm.names()[k + 1]);
                    assert forall|a: int, b: int|
                        0 <= a < b < self.names().len() implies self.names()[a]
                        != self.names()[b] by {
                        let a0 = if a < i {
                            a
                        } else {
                            a + 1
                        };
                        let b0 = if b < i {
                            b
                        } else {
                            b + 1
                        };
                        assert(self.names()[a] == oldm.names()[a0]);
                        assert(self.names()[b] == oldm.names()[b0]);
                    }
                    if self.spec_contains(name@) {
                        let j = self.idx_of(name@);
                        assert(0 <= j < self.names().len() && self.names()[j] == name@);
                        let j0 = if j < i {
                            j
                        } else {
                            j + 1
                        };
                        assert(oldm.names()[j0] == name@);
                        assert(oldm.names()[i as int] == name@);
                        assert(false);
                    }
                    assert forall|n: Seq<char>| n != name@ implies self.spec_get(n)
                        == oldm.spec_get(n) by {
                        if self.spec_contains(n) {
                            let j = self.idx_of(n);
                            assert(0 <= j < self.names().len() && self.names()[j] == n);
                            let j0 = if j < i {
                                j
                            } else {
                                j + 1
                            };
                            assert(self.names()[j] == oldm.names()[j0]);
                            assert(self.registries@[j] == oldm.registries@[j0]);
                            oldm.lemma_get_at(j0);
                            self.lemma_get_at(j);
                        } else {
                            if oldm.spec_contains(n) {
                                let j0 = oldm.idx_of(n);
                                assert(0 <= j0 < oldm.names().len() && oldm.names()[j0] == n);
                                assert(j0 != i);
                                let j = if j0 < i {
                                    j0
                                } else {
                                    j0 - 1
                                };
                                assert(self.names()[j] == oldm.names()[j0]);
                                assert(self.spec_contains(n));
                                assert(false);
                            }
                        }
                    }
                }
                true
            },
            None => false,
        }
    }
}

/// Removal is idempotent: once a name was removed, removing it again
/// reports "not found" and changes nothing.
pub proof fn lemma_remove_registry_idempotent(
    m0: RegistryManager,
    name: Seq<char>,
    m1: RegistryManager,
    r1: bool,
    m2: RegistryManager,
    r2: bool,
)
    requires
        RegistryManager::remove_rel(m0, name, m1, r1),
        RegistryManager::remove_rel(m1, name, m2, r2),
    ensures
        !r2,
        m2 == m1,
{
}

} // verus!
