//! Choosing which entries of an archive to unpack: each wanted binary name
//! selects the first entry whose file stem matches it.
use crate::paths::{file_name, file_name_of, file_stem, stem_of};
use vstd::prelude::*;

verus! {

/// The views of a list of strings.
pub open spec fn views(v: Seq<String>) -> Seq<Seq<char>> {
    v.map_values(|s: String| s@)
}

/// The binary names not yet found in the archive.
pub struct Selection {
    wanted: Vec<String>,
}

proof fn lemma_remove_to_set(s: Seq<Seq<char>>, i: int)
    requires
        s.no_duplicates(),
        0 <= i < s.len(),
    ensures
        s.remove(i).no_duplicates(),
        s.remove(i).to_set() == s.to_set().remove(s[i]),
{
    let r = s.remove(i);
    assert forall|a: int, b: int| 0 <= a < r.len() && 0 <= b < r.len() && a != b implies r[a]
        != r[b] by {
        let a2 = if a < i { a } else { a + 1 };
        let b2 = if b < i { b } else { b + 1 };
        assert(r[a] == s[a2] && r[b] == s[b2]);
    }
    assert forall|x: Seq<char>| r.to_set().contains(x) <==> s.to_set().remove(s[i]).contains(x) by {
        if r.contains(x) {
            let k = choose|k: int| 0 <= k < r.len() && r[k] == x;
            let k2 = if k < i { k } else { k + 1 };
            assert(s[k2] == x);
        }
        if s.contains(x) && x != s[i] {
            let k = choose|k: int| 0 <= k < s.len() && s[k] == x;
            if k < i {
                assert(r[k] == x);
            } else {
                assert(r[k - 1] == x);
            }
        }
    }
    assert(r.to_set() =~= s.to_set().remove(s[i]));
}

impl Selection {
    /// The wanted names, in the order kept.
    pub closed spec fn names(&self) -> Seq<Seq<char>> {
        views(self.wanted@)
    }

    /// The wanted names as a set.
    pub open spec fn wanted(&self) -> Set<Seq<char>> {
        self.names().to_set()
    }

    /// Each name is held once.
    pub open spec fn wf(&self) -> bool {
        self.names().no_duplicates()
    }

    /// Starts with every name of `binaries` wanted.
    pub fn new(binaries: &Vec<String>) -> (r: Self)
        ensures
            r.wf(),
            r.wanted() == views(binaries@).to_set(),
    {
        let mut wanted: Vec<String> = Vec::new();
        let mut i: usize = 0;
        while i < binaries.len()
            invariant
                i <= binaries.len(),
                views(wanted@).no_duplicates(),
                views(wanted@).to_set() == views(binaries@.subrange(0, i as int)).to_set(),
            decreases binaries.len() - i,
        {
            let b = &binaries[i];
            let mut found = false;
            let mut j: usize = 0;
            while j < wanted.len()
                invariant
                    j <= wanted.len(),
                    found <==> exists|k: int| 0 <= k < j && wanted@[k]@ == b@,
                decreases wanted.len() - j,
            {
                if wanted[j] == *b {
                    found = true;
                }
                j = j + 1;
            }
            let ghost before = views(wanted@);
            if !found {
                wanted.push(b.clone());
                proof {
                    assert(views(wanted@) =~= before.push(b@));
                    assert(!before.contains(b@)) by {
                        if before.contains(b@) {
                            let k = choose|k: int| 0 <= k < before.len() && before[k] == b@;
                            assert(wanted@[k]@ == b@);
                        }
                    }
                    before.lemma_push_to_set_commute(b@);
                }
            } else {
                proof {
                    let k = choose|k: int| 0 <= k < j && wanted@[k]@ == b@;
                    assert(before[k] == b@);
                    assert(before.to_set().insert(b@) =~= before.to_set());
                }
            }
            proof {
                let pre = binaries@.subrange(0, i as int);
                assert(binaries@.subrange(0, i + 1) =~= pre.push(binaries@[i as int]));
                assert(views(pre.push(binaries@[i as int])) =~= views(pre).push(b@));
                views(pre).lemma_push_to_set_commute(b@);
            }
            i = i + 1;
        }
        assert(binaries@.subrange(0, binaries.len() as int) =~= binaries@);
        Selection { wanted }
    }

    /// Offers the archive entry at `entry_path`. Where the stem of its file
    /// name is still wanted, that name is no longer wanted and the file name
    /// to unpack the entry under is returned; otherwise the entry is skipped.
    pub fn offer(&mut self, entry_path: &str) -> (r: Option<String>)
        requires
            old(self).wf(),
        ensures
            final(self).wf(),
            match file_name_of(entry_path@) {
                Some(n) => if old(self).wanted().contains(stem_of(n)) {
                    &&& r matches Some(f) && f@ == n
                    &&& final(self).wanted() == old(self).wanted().remove(stem_of(n))
                } else {
                    r is None && final(self).wanted() == old(self).wanted()
                },
                None => r is None && final(self).wanted() == old(self).wanted(),
            },
    {
        let name = match file_name(entry_path) {
            Some(n) => n,
            None => {
                return None;
            },
        };
        let stem = file_stem(name.as_str());
        let mut j: usize = 0;
        while j < self.wanted.len()
            invariant
                j <= self.wanted.len(),
                self.wf(),
                *self == *old(self),
                file_name_of(entry_path@) == Some(name@),
                stem@ == stem_of(name@),
                forall|k: int| 0 <= k < j ==> self.wanted@[k]@ != stem@,
            decreases self.wanted.len() - j,
        {
            if self.wanted[j] == stem {
                let ghost before = self.names();
                self.wanted.remove(j);
                proof {
                    assert(before[j as int] == stem@);
                    assert(before.contains(stem@));
                    assert(old(self).wanted().contains(stem@));
                    assert(self.names() =~= before.remove(j as int));
                    lemma_remove_to_set(before, j as int);
                }
                return Some(name);
            }
            j = j + 1;
        }
        proof {
            if self.wanted().contains(stem@) {
                let k = choose|k: int| 0 <= k < self.names().len() && self.names()[k] == stem@;
                assert(self.wanted@[k]@ == stem@);
            }
        }
        None
    }

    /// Whether every wanted name has been found.
    pub fn is_complete(&self) -> (r: bool)
        ensures
            r == (self.wanted() == Set::<Seq<char>>::empty()),
    {
        proof {
            if self.wanted@.len() > 0 {
                assert(self.wanted().contains(self.names()[0]));
            } else {
                assert(self.wanted() =~= Set::<Seq<char>>::empty());
            }
        }
        self.wanted.len() == 0
    }

    /// The names still wanted, each once.
    pub fn missing(&self) -> (r: Vec<String>)
        requires
            self.wf(),
        ensures
            views(r@).no_duplicates(),
            views(r@).to_set() == self.wanted(),
    {
        let mut r: Vec<String> = Vec::new();
        let mut i: usize = 0;
        while i < self.wanted.len()
            invariant
                i <= self.wanted.len(),
                views(r@) == self.names().subrange(0, i as int),
            decreases self.wanted.len() - i,
        {
            let ghost before = r@;
            r.push(self.wanted[i].clone());
            proof {
                assert(r@ == before.push(self.wanted@[i as int]));
                assert(views(r@) =~= views(before).push(self.wanted@[i as int]@));
                assert(views(r@) =~= self.names().subrange(0, i + 1));
            }
            i = i + 1;
        }
        assert(self.names().subrange(0, i as int) =~= self.names());
        r
    }
}

} // verus!
