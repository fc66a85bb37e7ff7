//! The set of request paths for which responses are rewritten.

use vstd::prelude::*;
use crate::text::str_eq;

verus! {

/// A set of paths, matched exactly: no prefix, pattern or normalisation, so
/// trailing slashes, query strings and case all count.
///
/// The paths are kept in the order in which they were inserted, each once.
#[derive(Debug)]
pub struct PathSet {
    paths: Vec<String>,
}

impl View for PathSet {
    type V = Set<Seq<char>>;

    closed spec fn view(&self) -> Set<Seq<char>> {
        self.listed().to_set()
    }
}

impl PathSet {
    /// The paths in the order in which they are kept.
    pub closed spec fn listed(&self) -> Seq<Seq<char>> {
        self.paths@.map_values(|path: String| path@)
    }

    #[verifier::type_invariant]
    spec fn distinct(&self) -> bool {
        self.listed().no_duplicates()
    }

    /// The empty set.
    pub fn new() -> (set: PathSet)
        ensures
            set@ == Set::<Seq<char>>::empty(),
    {
        let set = PathSet { paths: Vec::new() };
        assert(set@ =~= Set::<Seq<char>>::empty());
        set
    }

    /// How many paths the set holds.
    pub fn len(&self) -> (length: usize)
        ensures
            self@.finite(),
            length == self@.len(),
    {
        proof {
            use_type_invariant(self);
            self.listed().unique_seq_to_set();
            vstd::seq_lib::seq_to_set_is_finite(self.listed());
        }
        self.paths.len()
    }

    /// The paths of the set, each once, in the order in which they were
    /// inserted.
    pub fn to_vec(&self) -> (paths: Vec<String>)
        ensures
            paths@.map_values(|path: String| path@) == self.listed(),
            self.listed().to_set() == self@,
            self.listed().no_duplicates(),
    {
        proof {
            use_type_invariant(self);
        }
        let length = self.paths.len();
        let mut paths: Vec<String> = Vec::new();
        let mut at: usize = 0;
        while at < length
            invariant
                0 <= at <= length,
                length == self.paths@.len(),
                paths@.len() == at,
                forall|k: int| 0 <= k < at ==> paths@[k]@ == self.paths@[k]@,
            decreases length - at,
        {
            paths.push(self.paths[at].clone());
            at += 1;
        }
        assert(paths@.map_values(|path: String| path@) =~= self.listed());
        paths
    }

    /// Whether `path` is in the set.
    pub fn contains(&self, path: &str) -> (found: bool)
        ensures
            found == self@.contains(path@),
    {
        let length = self.paths.len();
        let mut at: usize = 0;
        while at < length
            invariant
                0 <= at <= length,
                length == self.listed().len(),
                length == self.paths@.len(),
                forall|k: int| 0 <= k < at ==> self.listed()[k] != path@,
            decreases length - at,
        {
            if str_eq(self.paths[at].as_str(), path) {
                assert(self.listed()[at as int] == path@);
                return true;
            }
            at += 1;
        }
        false
    }

    /// Puts `path` into the set; says whether it was new.
    pub fn insert(&mut self, path: String) -> (added: bool)
        ensures
            final(self)@ == old(self)@.insert(path@),
            added == !old(self)@.contains(path@),
    {
        proof {
            use_type_invariant(&*self);
        }
        if self.contains(path.as_str()) {
            assert(self@ =~= self@.insert(path@));
            false
        } else {
            let ghost before = self.listed();
            let mut taken = PathSet { paths: Vec::new() };
            core::mem::swap(self, &mut taken);
            let mut paths = taken.paths;
            paths.push(path);
            proof {
                let after = paths@.map_values(|path: String| path@);
                assert(after =~= before.push(path@));
                assert forall|p: Seq<char>| after.to_set().contains(p) <==> before.to_set().insert(
                    path@,
                ).contains(p) by {
                    if before.contains(p) {
                        let k = choose|k: int| 0 <= k < before.len() && before[k] == p;
                        assert(after[k] == p);
                    }
                    if p == path@ {
                        assert(after[before.len() as int] == p);
                    }
                }
                assert(after.to_set() =~= before.to_set().insert(path@));
            }
            *self = PathSet { paths };
            true
        }
    }
}

impl Clone for PathSet {
    fn clone(&self) -> (copy: PathSet)
        ensures
            copy@ == self@,
    {
        PathSet { paths: self.to_vec() }
    }
}

} // verus!
