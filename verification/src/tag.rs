//! Tags: named text snippets stored by moderators, and the in-memory
//! cache of tag names kept beside the store.
//!
//! The cache mirrors the store's unique name column: once filled it is
//! kept in step on every write, so listing names needs no further query.

use vstd::prelude::*;
use vstd::string::*;

verus! {

/// One stored tag. The creation date is carried as milliseconds since
/// the epoch, when one was recorded.
pub struct Tag {
    pub name: String,
    pub moderator: u64,
    pub content: String,
    pub official: bool,
    pub create_date: Option<i64>,
}

/// The in-memory cache of tag names: nothing until it is filled from the
/// store, then the exact set of stored names.
pub struct TagNameCache {
    pub filled: bool,
    pub names: Vec<String>,
}

impl TagNameCache {
    /// Names are pairwise distinct, mirroring the store's unique column.
    pub open spec fn wf(self) -> bool {
        forall|i: int, j: int|
            0 <= i < j < self.names@.len() ==> (#[trigger] self.names@[i]@) != (
            #[trigger] self.names@[j]@)
    }

    /// Whether the cache has been filled from the store.
    pub open spec fn is_filled(self) -> bool {
        self.filled
    }

    /// Whether the cache holds the name `n`.
    pub open spec fn has_name(self, n: Seq<char>) -> bool {
        exists|i: int| 0 <= i < self.names@.len() && (#[trigger] self.names@[i]@) == n
    }

    /// An empty, unfilled cache.
    pub fn new() -> (c: TagNameCache)
        ensures
            !c.is_filled(),
            c.wf(),
    {
        TagNameCache { filled: false, names: Vec::new() }
    }

    /// Whether `name` is among the cached names.
    pub fn contains_name(&self, name: &str) -> (r: bool)
        ensures
            r == self.has_name(name@),
    {
        let mut i: usize = 0;
        while i < self.names.len()
            invariant
                i <= self.names@.len(),
                forall|k: int| 0 <= k < i ==> (#[trigger] self.names@[k]@) != name@,
            decreases self.names@.len() - i,
        {
            if crate::text::str_eq(self.names[i].as_str(), name) {
                return true;
            }
            i += 1;
        }
        false
    }

    /// Records that a tag was stored under `name`. A filled cache gains
    /// the name; an unfilled one stays empty until it is filled, as the
    /// first listing will read every name anyway.
    pub fn note_set(&mut self, name: String)
        requires
            old(self).wf(),
        ensures
            final(self).wf(),
            final(self).is_filled() == old(self).is_filled(),
            !old(self).is_filled() ==> *final(self) == *old(self),
            old(self).is_filled() ==> forall|n: Seq<char>|
                #[trigger] final(self).has_name(n) <==> (old(self).has_name(n) || n == name@),
    {
        if self.filled && !self.contains_name(name.as_str()) {
            let ghost before = self.names@;
            self.names.push(name);
            proof {
                assert forall|n: Seq<char>| #[trigger]
                    self.has_name(n) <==> (old(self).has_name(n) || n == name@) by {
                    if self.has_name(n) {
                        let k = choose|k: int|
                            0 <= k < self.names@.len() && (#[trigger] self.names@[k]@) == n;
                        if k < before.len() {
                            assert(before[k]@ == n);
                        } else {
                            assert(self.names@[k]@ == name@);
                        }
                    }
                    if old(self).has_name(n) {
                        let k = choose|k: int|
                            0 <= k < before.len() && (#[trigger] before[k]@) == n;
                        assert(self.names@[k]@ == n);
                    }
                    if n == name@ {
                        assert(self.names@[before.len() as int]@ == n);
                    }
                }
                assert forall|i: int, j: int|
                    0 <= i < j < self.names@.len() implies (#[trigger] self.names@[i]@) != (
                #[trigger] self.names@[j]@) by {
                    if j < before.len() {
                        assert(before[i]@ != before[j]@);
                    } else {
                        assert(self.names@[j]@ == name@);
                        assert(before[i]@ != name@);
                    }
                }
            }
        }
    }

    /// Records that the tag stored under `name` was deleted. A filled
    /// cache loses the name; an unfilled one is left alone.
    pub fn note_delete(&mut self, name: &str)
        requires
            old(self).wf(),
        ensures
            final(self).wf(),
            final(self).is_filled() == old(self).is_filled(),
            !old(self).is_filled() ==> *final(self) == *old(self),
            old(self).is_filled() ==> forall|n: Seq<char>|
                #[trigger] final(self).has_name(n) <==> (old(self).has_name(n) && n != name@),
    {
        if !self.filled {
            return ;
        }
        let mut i: usize = 0;
        while i < self.names.len()
            invariant
                *self == *old(self),
                self.filled,
                self.wf(),
                i <= self.names@.len(),
                forall|k: int| 0 <= k < i ==> (#[trigger] self.names@[k]@) != name@,
            decreases self.names@.len() - i,
        {
            if crate::text::str_eq(self.names[i].as_str(), name) {
                let ghost before = self.names@;
                self.names.remove(i);
                proof {
                    let after = self.names@;
                    assert(after =~= before.subrange(0, i as int) + before.subrange(
                        i as int + 1,
                        before.len() as int,
                    ));
                    assert forall|x: int| 0 <= x < after.len() implies after[x] == (if x < i {
                        before[x]
                    } else {
                        before[x + 1]
                    }) by {}
                    assert forall|x: int, y: int|
                        0 <= x < y < after.len() implies (#[trigger] after[x]@) != (
                    #[trigger] after[y]@) by {
                        let bx: int = if x < i { x } else { x + 1 };
                        let by: int = if y < i { y } else { y + 1 };
                        assert(after[x] == before[bx]);
                        assert(after[y] == before[by]);
                        assert(before[bx]@ != before[by]@);
                    }
                    assert forall|n: Seq<char>| #[trigger]
                        self.has_name(n) <==> (old(self).has_name(n) && n != name@) by {
                        if self.has_name(n) {
                            let k = choose|k: int|
                                0 <= k < after.len() && (#[trigger] after[k]@) == n;
                            let bk: int = if k < i { k } else { k + 1 };
                            assert(before[bk]@ == n);
                            assert(before[i as int]@ == name@);
                            if n == name@ {
                                assert(bk != i);
                                assert(before[bk]@ != before[i as int]@);
                            }
                        }
                        if old(self).has_name(n) && n != name@ {
                            let k = choose|k: int|
                                0 <= k < before.len() && (#[trigger] before[k]@) == n;
                            assert(k != i);
                            if k < i {
                                assert(after[k]@ == n);
                            } else {
                                assert(after[k - 1]@ == n);
                            }
                        }
                    }
                }
                return ;
            }
            i += 1;
        }
    }

    /// Fills the cache with the names read from the store, dropping any
    /// duplicates so the invariant holds whatever was handed in.
    pub fn fill(&mut self, names: Vec<String>)
        ensures
            final(self).wf(),
            final(self).is_filled(),
            forall|n: Seq<char>|
                #[trigger] final(self).has_name(n) <==> (exists|i: int|
                    0 <= i < names@.len() && (#[trigger] names@[i]@) == n),
    {
        self.filled = true;
        self.names = Vec::new();
        let mut i: usize = 0;
        while i < names.len()
            invariant
                self.filled,
                i <= names@.len(),
                self.wf(),
                forall|n: Seq<char>|
                    #[trigger] self.has_name(n) <==> (exists|k: int|
                        0 <= k < i && (#[trigger] names@[k]@) == n),
            decreases names@.len() - i,
        {
            let ghost prev = *self;
            let entry = names[i].clone();
            if !self.contains_name(entry.as_str()) {
                let ghost before = self.names@;
                self.names.push(entry);
                proof {
                    assert forall|i2: int, j2: int|
                        0 <= i2 < j2 < self.names@.len() implies (#[trigger] self.names@[i2]@) != (
                    #[trigger] self.names@[j2]@) by {
                        if j2 < before.len() {
                            assert(before[i2]@ != before[j2]@);
                        } else {
                            assert(self.names@[j2]@ == names@[i as int]@);
                            assert(!prev.has_name(names@[i as int]@));
                            assert(before[i2]@ != names@[i as int]@);
                        }
                    }
                    assert forall|n: Seq<char>| #[trigger]
                        self.has_name(n) <==> (exists|k: int|
                        0 <= k < i + 1 && (#[trigger] names@[k]@) == n) by {
                        if self.has_name(n) {
                            let k = choose|k: int|
                                0 <= k < self.names@.len() && (#[trigger] self.names@[k]@) == n;
                            if k < before.len() {
                                assert(before[k]@ == n);
                                assert(prev.has_name(n));
                            } else {
                                assert(self.names@[k]@ == names@[i as int]@);
                                assert(names@[i as int]@ == n);
                            }
                        }
                        if exists|k: int| 0 <= k < i + 1 && (#[trigger] names@[k]@) == n {
                            let k = choose|k: int| 0 <= k < i + 1 && (#[trigger] names@[k]@) == n;
                            if k < i {
                                assert(prev.has_name(n));
                                let m = choose|m: int|
                                    0 <= m < before.len() && (#[trigger] before[m]@) == n;
                                assert(self.names@[m]@ == n);
                            } else {
                                assert(self.names@[before.len() as int]@ == n);
                            }
                        }
                    }
                }
            } else {
                proof {
                    assert forall|n: Seq<char>| #[trigger]
                        self.has_name(n) <==> (exists|k: int|
                        0 <= k < i + 1 && (#[trigger] names@[k]@) == n) by {
                        if exists|k: int| 0 <= k < i + 1 && (#[trigger] names@[k]@) == n {
                            let k = choose|k: int| 0 <= k < i + 1 && (#[trigger] names@[k]@) == n;
                            if k == i {
                                assert(self.has_name(names@[i as int]@));
                            }
                        }
                        if self.has_name(n) {
                            assert(exists|k: int| 0 <= k < i && (#[trigger] names@[k]@) == n);
                        }
                    }
                }
            }
            i += 1;
        }
    }

    /// The cached names, or nothing when the cache was never filled.
    pub fn list(&self) -> (r: Option<&Vec<String>>)
        ensures
            r is Some <==> self.is_filled(),
            r matches Some(v) ==> v@ == self.names@,
    {
        if self.filled {
            Some(&self.names)
        } else {
            None
        }
    }
}

/// The tag one stored row stands for. The stored moderator id is
/// signed; an id outside the unsigned range is truncated, as the store
/// never produces one.
pub fn tag_from_row(
    name: String,
    moderator: i64,
    content: String,
    official: bool,
    create_date: Option<i64>,
) -> (t: Tag)
    ensures
        t.name@ == name@,
        t.moderator == moderator as u64,
        t.content@ == content@,
        t.official == official,
        t.create_date == create_date,
{
    Tag {
        name,
        moderator: #[verifier::truncate] (moderator as u64),
        content,
        official,
        create_date,
    }
}

/// The tag a successful store round trip hands back, built from the
/// values that were written.
pub fn stored_tag(
    moderator: u64,
    name: String,
    content: String,
    official: bool,
    create_date: Option<i64>,
) -> (t: Tag)
    ensures
        t.name@ == name@,
        t.moderator == moderator,
        t.content@ == content@,
        t.official == official,
        t.create_date == create_date,
{
    Tag { name, moderator, content, official, create_date }
}

} // verus!
