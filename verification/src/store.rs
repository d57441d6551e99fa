//! The job store: the mapping from job identifier to job record that
//! bridges the request path (which inserts the running placeholder) and the
//! background executor (which performs the single terminal write).
//!
//! The store itself is a plain sequential structure; the process wraps it in
//! a mutual-exclusion container, so every access here happens inside one
//! critical section.
use vstd::prelude::*;

use crate::job::JobLog;
use crate::job::JobLogView;

verus! {

/// The records as a mapping, later entries winning. With unique keys, the
/// entry holding a key is the mapping's value at it.
pub open spec fn map_of(s: Seq<(String, JobLog)>) -> Map<Seq<char>, JobLogView>
    decreases s.len(),
{
    if s.len() == 0 {
        Map::<Seq<char>, JobLogView>::empty()
    } else {
        map_of(s.drop_last()).insert(s.last().0@, s.last().1@)
    }
}

/// No two entries carry the same identifier.
pub open spec fn unique_keys(s: Seq<(String, JobLog)>) -> bool {
    forall|i: int, j: int| 0 <= i < j < s.len() ==> s[i].0@ != s[j].0@
}

proof fn lemma_map_of_contains(s: Seq<(String, JobLog)>, k: Seq<char>)
    ensures
        map_of(s).contains_key(k) <==> exists|i: int| 0 <= i < s.len() && s[i].0@ == k,
    decreases s.len(),
{
    if s.len() > 0 {
        let t = s.drop_last();
        lemma_map_of_contains(t, k);
        if s.last().0@ == k {
            assert(s[s.len() - 1].0@ == k);
        } else {
            if exists|i: int| 0 <= i < t.len() && t[i].0@ == k {
                let i = choose|i: int| 0 <= i < t.len() && t[i].0@ == k;
                assert(s[i].0@ == k);
            }
            if exists|i: int| 0 <= i < s.len() && s[i].0@ == k {
                let i = choose|i: int| 0 <= i < s.len() && s[i].0@ == k;
                assert(i < s.len() - 1);
                assert(t[i].0@ == k);
            }
        }
    }
}

proof fn lemma_map_of_get(s: Seq<(String, JobLog)>, i: int)
    requires
        unique_keys(s),
        0 <= i < s.len(),
    ensures
        map_of(s).contains_key(s[i].0@),
        map_of(s)[s[i].0@] == s[i].1@,
    decreases s.len(),
{
    if i < s.len() - 1 {
        let t = s.drop_last();
        assert(unique_keys(t)) by {
            assert(forall|a: int, b: int|
                0 <= a < b < t.len() ==> s[a].0@ == t[a].0@ && s[b].0@ == t[b].0@);
        }
        lemma_map_of_get(t, i);
        assert(s.last().0@ != s[i].0@);
        assert(t[i] == s[i]);
    }
}

proof fn lemma_map_of_remove(s: Seq<(String, JobLog)>, i: int)
    requires
        unique_keys(s),
        0 <= i < s.len(),
    ensures
        map_of(s.remove(i)) =~= map_of(s).remove(s[i].0@),
    decreases s.len(),
{
    let k = s[i].0@;
    if i == s.len() - 1 {
        assert(s.remove(i) =~= s.drop_last());
        lemma_map_of_contains(s.drop_last(), k);
        if exists|j: int| 0 <= j < s.drop_last().len() && s.drop_last()[j].0@ == k {
            let j = choose|j: int| 0 <= j < s.drop_last().len() && s.drop_last()[j].0@ == k;
            assert(s[j].0@ == s[i].0@);
            assert(false);
        }
        assert(map_of(s.drop_last()) =~= map_of(s).remove(k));
    } else {
        let t = s.drop_last();
        assert(unique_keys(t)) by {
            assert(forall|a: int, b: int|
                0 <= a < b < t.len() ==> s[a].0@ == t[a].0@ && s[b].0@ == t[b].0@);
        }
        lemma_map_of_remove(t, i);
        assert(t[i] == s[i]);
        assert(s.remove(i).drop_last() =~= t.remove(i));
        assert(s.remove(i).last() == s.last());
        assert(s.last().0@ != k);
        assert(map_of(s.remove(i)) =~= map_of(s).remove(k));
    }
}

/// A concurrency-free mapping from job identifier to job record. `put`
/// inserts or replaces unconditionally; `get` returns the current record,
/// if any. The process shares one store behind a mutual-exclusion
/// container.
pub struct JobStore {
    entries: Vec<(String, JobLog)>,
}

impl View for JobStore {
    type V = Map<Seq<char>, JobLogView>;

    closed spec fn view(&self) -> Map<Seq<char>, JobLogView> {
        map_of(self.entries@)
    }
}

impl JobStore {
    /// The store keeps at most one entry per identifier.
    pub closed spec fn wf(self) -> bool {
        unique_keys(self.entries@)
    }

    /// An empty store.
    pub fn new() -> (r: JobStore)
        ensures
            r.wf(),
            r@ == Map::<Seq<char>, JobLogView>::empty(),
    {
        JobStore { entries: Vec::new() }
    }

    /// Insert a record under an identifier, replacing any record already
    /// held under it.
    pub fn put(&mut self, id: String, log: JobLog)
        requires
            old(self).wf(),
        ensures
            final(self).wf(),
            final(self)@ == old(self)@.insert(id@, log@),
    {
        let n = self.entries.len();
        let mut j: usize = 0;
        while j < n
            invariant
                *self == *old(self),
                self.wf(),
                n == self.entries@.len(),
                j <= n,
                forall|k: int| 0 <= k < j ==> self.entries@[k].0@ != id@,
            decreases n - j,
        {
            if self.entries[j].0 == id {
                proof {
                    lemma_map_of_remove(self.entries@, j as int);
                }
                let ghost s = self.entries@;
                let ghost removed = s.remove(j as int);
                let _ = self.entries.remove(j);
                self.entries.push((id, log));
                proof {
                    assert(s[j as int].0@ == id@);
                    assert(forall|a: int|
                        0 <= a < removed.len() ==> removed[a] == (if a < j {
                            s[a]
                        } else {
                            s[a + 1]
                        }));
                    assert(self.entries@.drop_last() =~= removed);
                    assert(unique_keys(removed));
                    assert(forall|a: int| 0 <= a < removed.len() ==> removed[a].0@ != id@);
                    assert(self.wf());
                    assert(self@ =~= old(self)@.insert(id@, log@));
                }
                return ;
            }
            j += 1;
        }
        self.entries.push((id, log));
        proof {
            assert(self.entries@.drop_last() =~= old(self).entries@);
            assert(self.wf());
            assert(self@ =~= old(self)@.insert(id@, log@));
        }
    }

    /// Look up the record currently held under an identifier.
    pub fn get(&self, id: &String) -> (r: Option<&JobLog>)
        requires
            self.wf(),
        ensures
            match r {
                Some(l) => self@.contains_key(id@) && l@ == self@[id@],
                None => !self@.contains_key(id@),
            },
    {
        let n = self.entries.len();
        let mut j: usize = 0;
        while j < n
            invariant
                self.wf(),
                n == self.entries@.len(),
                j <= n,
                forall|k: int| 0 <= k < j ==> self.entries@[k].0@ != id@,
            decreases n - j,
        {
            if self.entries[j].0 == *id {
                proof {
                    lemma_map_of_get(self.entries@, j as int);
                }
                return Some(&self.entries[j].1);
            }
            j += 1;
        }
        proof {
            lemma_map_of_contains(self.entries@, id@);
        }
        None
    }
}

} // verus!
