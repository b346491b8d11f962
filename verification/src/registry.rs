//! The pending-task registry: an in-memory mapping from task identifier to
//! the chat that must receive the task's result. An entry lives from the
//! moment a task is created for a chat message until its result is
//! successfully delivered; the registry is adaptor-local and never persisted.

use vstd::prelude::*;

verus! {

/// One outstanding delivery: a created task and the chat it must notify.
pub struct PendingEntry {
    pub task_id: String,
    pub chat_id: i64,
}

/// Mapping from task identifier to originating chat identifier, stored as a
/// list of entries with pairwise distinct identifiers. Its view is the
/// mathematical map the entries denote.
pub struct PendingRegistry {
    entries: Vec<PendingEntry>,
}

spec fn map_of(s: Seq<PendingEntry>) -> Map<Seq<char>, i64>
    decreases s.len(),
{
    if s.len() == 0 {
        Map::empty()
    } else {
        map_of(s.drop_last()).insert(s.last().task_id@, s.last().chat_id)
    }
}

spec fn distinct_ids(s: Seq<PendingEntry>) -> bool {
    forall|i: int, j: int| 0 <= i < j < s.len() ==> s[i].task_id@ != s[j].task_id@
}

proof fn lemma_map_of_contains(s: Seq<PendingEntry>, k: Seq<char>)
    ensures
        map_of(s).contains_key(k) <==> exists|i: int| 0 <= i < s.len() && s[i].task_id@ == k,
    decreases s.len(),
{
    if s.len() > 0 {
        lemma_map_of_contains(s.drop_last(), k);
        if s.last().task_id@ == k {
            assert(s[s.len() - 1].task_id@ == k);
        } else {
            if map_of(s).contains_key(k) {
                let i = choose|i: int|
                    0 <= i < s.drop_last().len() && s.drop_last()[i].task_id@ == k;
                assert(s[i].task_id@ == k);
            }
            if exists|i: int| 0 <= i < s.len() && s[i].task_id@ == k {
                let i = choose|i: int| 0 <= i < s.len() && s[i].task_id@ == k;
                assert(i < s.len() - 1);
                assert(s.drop_last()[i].task_id@ == k);
            }
        }
    }
}

proof fn lemma_map_of_index(s: Seq<PendingEntry>, i: int)
    requires
        distinct_ids(s),
        0 <= i < s.len(),
    ensures
        map_of(s).contains_key(s[i].task_id@),
        map_of(s)[s[i].task_id@] == s[i].chat_id,
    decreases s.len(),
{
    if i < s.len() - 1 {
        assert(distinct_ids(s.drop_last()));
        lemma_map_of_index(s.drop_last(), i);
        assert(s.drop_last()[i] == s[i]);
        assert(s.last().task_id@ != s[i].task_id@);
    }
}

proof fn lemma_map_of_remove(s: Seq<PendingEntry>, i: int)
    requires
        distinct_ids(s),
        0 <= i < s.len(),
    ensures
        map_of(s.remove(i)) == map_of(s).remove(s[i].task_id@),
    decreases s.len(),
{
    let k = s[i].task_id@;
    if i == s.len() - 1 {
        assert(s.remove(i) =~= s.drop_last());
        assert(distinct_ids(s.drop_last()));
        lemma_map_of_contains(s.drop_last(), k);
        assert(!map_of(s.drop_last()).contains_key(k));
        assert(map_of(s).remove(k) =~= map_of(s.drop_last()));
    } else {
        let t = s.remove(i);
        let d = s.drop_last();
        assert(distinct_ids(d));
        assert(t.last() == s.last());
        assert(t.drop_last() =~= d.remove(i));
        lemma_map_of_remove(d, i);
        assert(map_of(t) == map_of(d.remove(i)).insert(s.last().task_id@, s.last().chat_id));
        assert(s.last().task_id@ != k);
        assert(map_of(d).remove(k).insert(s.last().task_id@, s.last().chat_id) =~= map_of(
            d,
        ).insert(s.last().task_id@, s.last().chat_id).remove(k));
    }
}

impl View for PendingRegistry {
    type V = Map<Seq<char>, i64>;

    closed spec fn view(&self) -> Map<Seq<char>, i64> {
        map_of(self.entries@)
    }
}

impl PendingRegistry {
    /// The identifiers in the registry are pairwise distinct, so each task
    /// maps to exactly one chat.
    pub closed spec fn wf(&self) -> bool {
        distinct_ids(self.entries@)
    }

    /// An empty registry: no delivery is outstanding.
    pub fn new() -> (r: Self)
        ensures
            r.wf(),
            r@ == Map::<Seq<char>, i64>::empty(),
    {
        let r = PendingRegistry { entries: Vec::new() };
        proof {
            assert(r@ =~= Map::<Seq<char>, i64>::empty());
        }
        r
    }

    fn index_of(&self, id: &String) -> (r: Option<usize>)
        ensures
            r matches Some(i) ==> i < self.entries@.len() && self.entries@[i as int].task_id@
                == id@,
            r is None ==> forall|t: int|
                0 <= t < self.entries@.len() ==> self.entries@[t].task_id@ != id@,
    {
        let n = self.entries.len();
        let mut j: usize = 0;
        while j < n
            invariant
                n == self.entries@.len(),
                0 <= j <= n,
                forall|t: int| 0 <= t < j ==> self.entries@[t].task_id@ != id@,
            decreases n - j,
        {
            if self.entries[j].task_id == *id {
                return Some(j);
            }
            j += 1;
        }
        None
    }

    /// The chat registered for a task, if the task is pending.
    pub fn get(&self, id: &String) -> (r: Option<i64>)
        requires
            self.wf(),
        ensures
            r is Some <==> self@.contains_key(id@),
            r matches Some(c) ==> self@[id@] == c,
    {
        proof {
            lemma_map_of_contains(self.entries@, id@);
        }
        match self.index_of(id) {
            Some(i) => {
                proof {
                    lemma_map_of_index(self.entries@, i as int);
                }
                Some(self.entries[i].chat_id)
            },
            None => None,
        }
    }

    /// Whether a task is registered as pending.
    pub fn contains(&self, id: &String) -> (r: bool)
        requires
            self.wf(),
        ensures
            r == self@.contains_key(id@),
    {
        self.get(id).is_some()
    }

    /// Register a task for a chat; an existing registration for the same task
    /// is replaced.
    pub fn insert(&mut self, id: String, chat_id: i64)
        requires
            old(self).wf(),
        ensures
            final(self).wf(),
            final(self)@ == old(self)@.insert(id@, chat_id),
    {
        let ghost s0 = self.entries@;
        match self.index_of(&id) {
            Some(i) => {
                proof {
                    lemma_map_of_remove(s0, i as int);
                }
                self.entries.remove(i);
                proof {
                    assert forall|a: int, b: int|
                        0 <= a < b < self.entries@.len() implies self.entries@[a].task_id@
                        != self.entries@[b].task_id@ by {
                        assert(self.entries@ == s0.remove(i as int));
                    }
                    assert forall|t: int|
                        0 <= t < self.entries@.len() implies self.entries@[t].task_id@ != id@ by {
                        assert(self.entries@ == s0.remove(i as int));
                    }
                }
                let ghost s1 = self.entries@;
                self.entries.push(PendingEntry { task_id: id, chat_id });
                proof {
                    assert(self.entries@.drop_last() =~= s1);
                    assert(map_of(self.entries@) =~= map_of(s0).insert(
                        self.entries@.last().task_id@,
                        chat_id,
                    ));
                }
            },
            None => {
                self.entries.push(PendingEntry { task_id: id, chat_id });
                proof {
                    assert(self.entries@.drop_last() =~= s0);
                }
            },
        }
    }

    /// Drop the registration for a task; reports whether one existed.
    pub fn remove(&mut self, id: &String) -> (r: bool)
        requires
            old(self).wf(),
        ensures
            final(self).wf(),
            final(self)@ == old(self)@.remove(id@),
            r == old(self)@.contains_key(id@),
    {
        let ghost s0 = self.entries@;
        proof {
            lemma_map_of_contains(s0, id@);
        }
        match self.index_of(id) {
            Some(i) => {
                proof {
                    lemma_map_of_remove(s0, i as int);
                }
                self.entries.remove(i);
                proof {
                    assert forall|a: int, b: int|
                        0 <= a < b < self.entries@.len() implies self.entries@[a].task_id@
                        != self.entries@[b].task_id@ by {
                        assert(self.entries@ == s0.remove(i as int));
                    }
                }
                true
            },
            None => {
                proof {
                    assert(old(self)@.remove(id@) =~= old(self)@);
                }
                false
            },
        }
    }

    /// A snapshot of the pending task identifiers: exactly the keys of the
    /// registry, each once.
    pub fn task_ids(&self) -> (r: Vec<String>)
        requires
            self.wf(),
        ensures
            forall|i: int| 0 <= i < r@.len() ==> self@.contains_key(#[trigger] r@[i]@),
            forall|k: Seq<char>|
                self@.contains_key(k) ==> exists|i: int| 0 <= i < r@.len() && r@[i]@ == k,
            forall|i: int, j: int| 0 <= i < j < r@.len() ==> r@[i]@ != r@[j]@,
    {
        let n = self.entries.len();
        let mut r: Vec<String> = Vec::new();
        let mut j: usize = 0;
        while j < n
            invariant
                n == self.entries@.len(),
                0 <= j <= n,
                r@.len() == j,
                forall|t: int| 0 <= t < j ==> #[trigger] r@[t]@ == self.entries@[t].task_id@,
            decreases n - j,
        {
            r.push(self.entries[j].task_id.clone());
            j += 1;
        }
        proof {
            assert forall|i: int| 0 <= i < r@.len() implies self@.contains_key(
                #[trigger] r@[i]@,
            ) by {
                lemma_map_of_index(self.entries@, i);
            }
            assert forall|k: Seq<char>| self@.contains_key(k) implies exists|i: int|
                0 <= i < r@.len() && r@[i]@ == k by {
                lemma_map_of_contains(self.entries@, k);
                let i = choose|i: int|
                    0 <= i < self.entries@.len() && self.entries@[i].task_id@ == k;
                assert(r@[i]@ == k);
            }
        }
        r
    }
}

} // verus!
