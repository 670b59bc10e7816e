//! The in-memory task store: a mapping from task identifier to task record.
//!
//! The store is kept as a vector of records whose identifiers are pairwise
//! distinct; its abstract value is the finite map from identifier to record
//! built from that vector. Every operation's effect is stated against that
//! map.

use vstd::prelude::*;

use crate::task::{apply_update, Task, TaskUpdate, TaskView};

verus! {

/// The identifiers of the records in `s` are pairwise distinct.
pub open spec fn distinct_ids(s: Seq<TaskView>) -> bool {
    forall|i: int, j: int| 0 <= i < j < s.len() ==> s[i].id != s[j].id
}

/// The map from identifier to record that a sequence of records denotes;
/// later records win on a repeated identifier.
pub open spec fn map_of(s: Seq<TaskView>) -> Map<Seq<char>, TaskView>
    decreases s.len(),
{
    if s.len() == 0 {
        Map::empty()
    } else {
        map_of(s.drop_last()).insert(s.last().id, s.last())
    }
}

/// How many of the records in `s` are completed.
pub open spec fn completed_count(s: Seq<TaskView>) -> nat
    decreases s.len(),
{
    if s.len() == 0 {
        0
    } else {
        completed_count(s.drop_last()) + if s.last().completed {
            1nat
        } else {
            0nat
        }
    }
}

pub proof fn lemma_completed_count_le_len(s: Seq<TaskView>)
    ensures
        completed_count(s) <= s.len(),
    decreases s.len(),
{
    if s.len() > 0 {
        lemma_completed_count_le_len(s.drop_last());
    }
}

pub proof fn lemma_map_of_contains(s: Seq<TaskView>, k: Seq<char>)
    ensures
        map_of(s).contains_key(k) <==> exists|i: int| 0 <= i < s.len() && s[i].id == k,
    decreases s.len(),
{
    if s.len() > 0 {
        lemma_map_of_contains(s.drop_last(), k);
        if s.last().id == k {
            assert(s[s.len() - 1].id == k);
        } else if map_of(s).contains_key(k) {
            let i = choose|i: int| 0 <= i < s.len() - 1 && s.drop_last()[i].id == k;
            assert(s[i].id == k);
        } else {
            assert(forall|i: int| 0 <= i < s.len() - 1 ==> s.drop_last()[i] == s[i]);
        }
    }
}

pub proof fn lemma_map_of_index(s: Seq<TaskView>, i: int)
    requires
        distinct_ids(s),
        0 <= i < s.len(),
    ensures
        map_of(s).contains_key(s[i].id),
        map_of(s)[s[i].id] == s[i],
    decreases s.len(),
{
    if i < s.len() - 1 {
        assert(distinct_ids(s.drop_last()));
        assert(s.drop_last()[i] == s[i]);
        lemma_map_of_index(s.drop_last(), i);
        assert(s[i].id != s.last().id);
    }
}

pub proof fn lemma_map_of_finite(s: Seq<TaskView>)
    ensures
        map_of(s).dom().finite(),
    decreases s.len(),
{
    if s.len() > 0 {
        lemma_map_of_finite(s.drop_last());
    }
}

pub proof fn lemma_map_of_len(s: Seq<TaskView>)
    requires
        distinct_ids(s),
    ensures
        map_of(s).dom().finite(),
        map_of(s).len() == s.len(),
    decreases s.len(),
{
    lemma_map_of_finite(s);
    if s.len() > 0 {
        assert(distinct_ids(s.drop_last()));
        lemma_map_of_len(s.drop_last());
        lemma_map_of_contains(s.drop_last(), s.last().id);
        assert(forall|i: int| 0 <= i < s.len() - 1 ==> s.drop_last()[i] == s[i]);
        assert(!map_of(s.drop_last()).contains_key(s.last().id));
        assert(map_of(s).dom() =~= map_of(s.drop_last()).dom().insert(s.last().id));
        vstd::set::axiom_set_insert_len(map_of(s.drop_last()).dom(), s.last().id);
    }
}

/// Replacing the record at `i` by one with the same identifier is, on the
/// map, an insert of that record.
pub proof fn lemma_map_of_update(s: Seq<TaskView>, i: int, t: TaskView)
    requires
        distinct_ids(s),
        0 <= i < s.len(),
        t.id == s[i].id,
    ensures
        map_of(s.update(i, t)) =~= map_of(s).insert(t.id, t),
    decreases s.len(),
{
    let su = s.update(i, t);
    if i == s.len() - 1 {
        assert(su.drop_last() =~= s.drop_last());
        assert(su.last() == t);
    } else {
        assert(distinct_ids(s.drop_last()));
        assert(su.drop_last() =~= s.drop_last().update(i, t));
        assert(s.drop_last()[i] == s[i]);
        lemma_map_of_update(s.drop_last(), i, t);
        assert(su.last() == s.last());
        assert(t.id != s.last().id);
    }
}

/// Removing the record at `i` is, on the map, a removal of its identifier.
pub proof fn lemma_map_of_remove(s: Seq<TaskView>, i: int)
    requires
        distinct_ids(s),
        0 <= i < s.len(),
    ensures
        map_of(s.remove(i)) =~= map_of(s).remove(s[i].id),
    decreases s.len(),
{
    let sr = s.remove(i);
    if i == s.len() - 1 {
        assert(sr =~= s.drop_last());
        lemma_map_of_contains(s.drop_last(), s[i].id);
        assert(forall|j: int| 0 <= j < s.len() - 1 ==> s.drop_last()[j] == s[j]);
        assert(!map_of(s.drop_last()).contains_key(s[i].id));
    } else {
        assert(distinct_ids(s.drop_last()));
        assert(sr.drop_last() =~= s.drop_last().remove(i));
        assert(s.drop_last()[i] == s[i]);
        lemma_map_of_remove(s.drop_last(), i);
        assert(sr.last() == s.last());
        assert(s[i].id != s.last().id);
    }
}

/// The exclusive-access in-memory map from task id to task record.
///
/// Identifiers of live records are pairwise distinct ([`TaskStore::wf`]); the
/// abstract value of the store is the map [`map_of`] of the record views.
pub struct TaskStore {
    tasks: Vec<Task>,
}

impl View for TaskStore {
    type V = Map<Seq<char>, TaskView>;

    open spec fn view(&self) -> Map<Seq<char>, TaskView> {
        map_of(self.views())
    }
}

impl TaskStore {
    /// The views of the live records, in storage order. Callers must not
    /// rely on that order.
    pub closed spec fn views(&self) -> Seq<TaskView> {
        self.tasks@.map_values(|t: Task| t@)
    }

    /// Well-formedness: no two live records share an identifier.
    pub open spec fn wf(&self) -> bool {
        distinct_ids(self.views())
    }

    /// An empty store.
    pub fn new() -> (r: TaskStore)
        ensures
            r.wf(),
            r@ == Map::<Seq<char>, TaskView>::empty(),
            r.views() == Seq::<TaskView>::empty(),
    {
        let r = TaskStore { tasks: Vec::new() };
        proof {
            assert(r.views() =~= Seq::<TaskView>::empty());
        }
        r
    }

    /// The index of the record with identifier `id`, if one is live.
    fn find_index(&self, id: &String) -> (r: Option<usize>)
        ensures
            match r {
                Some(i) => i < self.views().len() && self.views()[i as int].id == id@,
                None => forall|i: int|
                    0 <= i < self.views().len() ==> self.views()[i].id != id@,
            },
    {
        let n = self.tasks.len();
        let mut i: usize = 0;
        while i < n
            invariant
                n == self.tasks.len(),
                i <= n,
                forall|j: int| 0 <= j < i ==> self.views()[j].id != id@,
            decreases n - i,
        {
            if self.tasks[i].id == *id {
                assert(self.views()[i as int].id == id@);
                return Some(i);
            }
            i = i + 1;
        }
        None
    }

    /// How many records are live.
    pub fn len(&self) -> (r: usize)
        requires
            self.wf(),
        ensures
            r == self@.len(),
            r == self.views().len(),
    {
        proof {
            lemma_map_of_len(self.views());
        }
        self.tasks.len()
    }

    /// A snapshot of the record with identifier `id`, if one is live.
    pub fn get(&self, id: &String) -> (r: Option<Task>)
        requires
            self.wf(),
        ensures
            match r {
                Some(t) => self@.contains_key(id@) && t@ == self@[id@],
                None => !self@.contains_key(id@),
            },
    {
        proof {
            lemma_map_of_contains(self.views(), id@);
        }
        match self.find_index(id) {
            Some(i) => {
                proof {
                    lemma_map_of_index(self.views(), i as int);
                }
                Some(self.tasks[i].clone())
            },
            None => None,
        }
    }

    /// Adds a record; a live record with the same identifier, if any, is
    /// replaced (the creator draws identifiers fresh, so this does not arise
    /// there).
    pub fn insert(&mut self, task: Task)
        requires
            old(self).wf(),
        ensures
            final(self).wf(),
            final(self)@ == old(self)@.insert(task.id@, task@),
            final(self).views().len() <= old(self).views().len() + 1,
    {
        let ghost s = self.views();
        match self.find_index(&task.id) {
            Some(i) => {
                proof {
                    lemma_map_of_update(s, i as int, task@);
                }
                self.tasks.set(i, task);
                proof {
                    assert(self.views() =~= s.update(i as int, task@));
                    assert(distinct_ids(self.views()));
                    assert(final(self)@ =~= old(self)@.insert(task.id@, task@));
                }
            },
            None => {
                self.tasks.push(task);
                proof {
                    assert(self.views() =~= s.push(task@));
                    assert(self.views().drop_last() =~= s);
                    assert(forall|j: int| 0 <= j < s.len() ==> self.views()[j] == s[j]);
                    assert(distinct_ids(self.views()));
                }
            },
        }
    }

    /// Applies the present fields of `up` to the record with identifier
    /// `id`, stamps it with `now`, and returns a snapshot of the result;
    /// reports absence without touching the store.
    pub fn update(&mut self, id: &String, up: &TaskUpdate, now: i64) -> (r: Option<Task>)
        requires
            old(self).wf(),
        ensures
            final(self).wf(),
            match r {
                Some(t) => old(self)@.contains_key(id@) && t@ == apply_update(
                    old(self)@[id@],
                    up@,
                    now as int,
                ) && final(self)@ == old(self)@.insert(id@, t@),
                None => !old(self)@.contains_key(id@) && *final(self) == *old(self),
            },
    {
        proof {
            lemma_map_of_contains(self.views(), id@);
        }
        let ghost s = self.views();
        match self.find_index(id) {
            Some(i) => {
                proof {
                    lemma_map_of_index(s, i as int);
                }
                let current = &self.tasks[i];
                let new_title = match &up.title {
                    Some(t) => t.clone(),
                    None => current.title.clone(),
                };
                let new_description = match &up.description {
                    Some(d) => d.clone(),
                    None => current.description.clone(),
                };
                let new_completed = match up.completed {
                    Some(c) => c,
                    None => current.completed,
                };
                let updated = Task {
                    id: current.id.clone(),
                    title: new_title,
                    description: new_description,
                    completed: new_completed,
                    created_at: current.created_at,
                    updated_at: now,
                };
                let snapshot = updated.clone();
                proof {
                    assert(updated@ == apply_update(s[i as int], up@, now as int));
                    lemma_map_of_update(s, i as int, updated@);
                }
                self.tasks.set(i, updated);
                proof {
                    assert(self.views() =~= s.update(i as int, snapshot@));
                    assert(distinct_ids(self.views()));
                }
                Some(snapshot)
            },
            None => None,
        }
    }

    /// Removes the record with identifier `id`; reports whether one was
    /// live.
    pub fn remove(&mut self, id: &String) -> (r: bool)
        requires
            old(self).wf(),
        ensures
            final(self).wf(),
            r == old(self)@.contains_key(id@),
            final(self)@ == old(self)@.remove(id@),
            !r ==> *final(self) == *old(self),
        {
        proof {
            lemma_map_of_contains(self.views(), id@);
        }
        let ghost s = self.views();
        match self.find_index(id) {
            Some(i) => {
                proof {
                    lemma_map_of_remove(s, i as int);
                }
                self.tasks.remove(i);
                proof {
                    assert(self.views() =~= s.remove(i as int));
                    assert(distinct_ids(self.views()));
                    assert(s[i as int].id == id@);
                    assert(final(self)@ =~= old(self)@.remove(id@));
                }
                true
            },
            None => {
                proof {
                    assert(final(self)@ =~= old(self)@.remove(id@));
                }
                false
            },
        }
    }

    /// A snapshot of all live records; the order carries no meaning.
    pub fn list(&self) -> (r: Vec<Task>)
        ensures
            (r@.map_values(|t: Task| t@) == self.views()),
            r@.len() == self.views().len(),
    {
        let n = self.tasks.len();
        let mut out: Vec<Task> = Vec::new();
        let mut i: usize = 0;
        while i < n
            invariant
                n == self.tasks.len(),
                i <= n,
                out@.len() == i,
                (out@.map_values(|t: Task| t@) =~= self.views().subrange(0, i as int)),
            decreases n - i,
        {
            out.push(self.tasks[i].clone());
            proof {
                assert(out@.map_values(|t: Task| t@) =~= self.views().subrange(
                    0,
                    i + 1,
                ));
            }
            i = i + 1;
        }
        proof {
            assert(self.views().subrange(0, n as int) =~= self.views());
        }
        out
    }

    /// How many live records are completed.
    pub fn count_completed(&self) -> (r: usize)
        ensures
            r == completed_count(self.views()),
            r <= self.views().len(),
    {
        proof {
            lemma_completed_count_le_len(self.views());
        }
        let n = self.tasks.len();
        let mut count: usize = 0;
        let mut i: usize = 0;
        while i < n
            invariant
                n == self.tasks.len(),
                i <= n,
                count == completed_count(self.views().subrange(0, i as int)),
                count <= i,
            decreases n - i,
        {
            proof {
                let pre = self.views().subrange(0, i as int);
                let post = self.views().subrange(0, i + 1);
                assert(post.drop_last() =~= pre);
                assert(post.last() == self.views()[i as int]);
            }
            if self.tasks[i].completed {
                count = count + 1;
            }
            i = i + 1;
        }
        proof {
            assert(self.views().subrange(0, n as int) =~= self.views());
        }
        count
    }
}

} // verus!
