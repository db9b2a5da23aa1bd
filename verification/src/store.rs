//! An issues table modeled as a store: rows in insertion order, ids unique
//! and assigned from a monotone counter, abstracted for the contracts as a
//! map from id to row view.
//!
//! The production table sits behind a SQL client; this model captures the
//! collaborator contract the handlers rely on: point queries return zero or
//! one row per id, creation assigns a fresh id, updates and deletes touch
//! exactly the addressed row.

use vstd::prelude::*;
use crate::model::{Issue, IssuePayload, IssueView, new_row, updated_row};

verus! {

/// The map a sequence of rows denotes: later rows win, though well-formed
/// stores never hold two rows with one id.
pub open spec fn map_of_rows(rows: Seq<Issue>) -> Map<u64, IssueView>
    decreases rows.len(),
{
    if rows.len() == 0 {
        Map::empty()
    } else {
        map_of_rows(rows.drop_last()).insert(rows.last().id, rows.last()@)
    }
}

/// No two rows share an id.
pub open spec fn ids_unique(rows: Seq<Issue>) -> bool {
    forall|i: int, j: int|
        0 <= i < j < rows.len() ==> rows[i].id != rows[j].id
}

/// A key is in the denoted map exactly when some row carries it.
pub proof fn lemma_map_domain(rows: Seq<Issue>, key: u64)
    ensures
        map_of_rows(rows).contains_key(key) <==> exists|i: int|
            0 <= i < rows.len() && rows[i].id == key,
    decreases rows.len(),
{
    if rows.len() > 0 {
        lemma_map_domain(rows.drop_last(), key);
        if map_of_rows(rows).contains_key(key) {
            if rows.last().id == key {
                assert(rows[rows.len() - 1].id == key);
            } else {
                let i = choose|i: int|
                    0 <= i < rows.drop_last().len() && rows.drop_last()[i].id == key;
                assert(rows[i].id == key);
            }
        }
        if exists|i: int| 0 <= i < rows.len() && rows[i].id == key {
            let i = choose|i: int| 0 <= i < rows.len() && rows[i].id == key;
            if i < rows.len() - 1 {
                assert(rows.drop_last()[i].id == key);
            }
        }
    }
}

/// With unique ids, the denoted map sends each row's id to that row's view.
pub proof fn lemma_map_index(rows: Seq<Issue>, i: int)
    requires
        ids_unique(rows),
        0 <= i < rows.len(),
    ensures
        map_of_rows(rows).contains_key(rows[i].id),
        map_of_rows(rows)[rows[i].id] == rows[i]@,
    decreases rows.len(),
{
    if i == rows.len() - 1 {
        assert(rows.last() == rows[i]);
    } else {
        assert(ids_unique(rows.drop_last())) by {
            assert(forall|p: int, q: int|
                0 <= p < q < rows.drop_last().len() ==> rows.drop_last()[p].id
                    != rows.drop_last()[q].id) by {
                assert(forall|p: int, q: int|
                    0 <= p < q < rows.drop_last().len() ==> rows[p].id != rows[q].id);
            }
        }
        assert(rows.drop_last()[i] == rows[i]);
        lemma_map_index(rows.drop_last(), i);
        assert(rows.last().id != rows[i].id);
    }
}

/// Replacing the row at one index, id kept, denotes inserting its view.
pub proof fn lemma_map_update(rows: Seq<Issue>, i: int, row: Issue)
    requires
        ids_unique(rows),
        0 <= i < rows.len(),
        row.id == rows[i].id,
    ensures
        map_of_rows(rows.update(i, row)) =~= map_of_rows(rows).insert(row.id, row@),
    decreases rows.len(),
{
    let updated = rows.update(i, row);
    if i == rows.len() - 1 {
        assert(updated.drop_last() =~= rows.drop_last());
        assert(updated.last() == row);
    } else {
        assert(ids_unique(rows.drop_last())) by {
            assert(forall|p: int, q: int|
                0 <= p < q < rows.drop_last().len() ==> rows[p].id != rows[q].id);
        }
        assert(rows.drop_last()[i] == rows[i]);
        lemma_map_update(rows.drop_last(), i, row);
        assert(updated.drop_last() =~= rows.drop_last().update(i, row));
        assert(updated.last() == rows.last());
        assert(rows.last().id != row.id);
    }
}

/// Removing the row at one index denotes removing its id.
pub proof fn lemma_map_remove(rows: Seq<Issue>, i: int)
    requires
        ids_unique(rows),
        0 <= i < rows.len(),
    ensures
        map_of_rows(rows.remove(i)) =~= map_of_rows(rows).remove(rows[i].id),
    decreases rows.len(),
{
    let shortened = rows.remove(i);
    if i == rows.len() - 1 {
        assert(shortened =~= rows.drop_last());
        assert(!map_of_rows(rows.drop_last()).contains_key(rows[i].id)) by {
            lemma_map_domain(rows.drop_last(), rows[i].id);
            assert(forall|j: int|
                0 <= j < rows.drop_last().len() ==> rows[j].id != rows[i].id);
        }
    } else {
        assert(ids_unique(rows.drop_last())) by {
            assert(forall|p: int, q: int|
                0 <= p < q < rows.drop_last().len() ==> rows[p].id != rows[q].id);
        }
        assert(rows.drop_last()[i] == rows[i]);
        lemma_map_remove(rows.drop_last(), i);
        assert(shortened.drop_last() =~= rows.drop_last().remove(i));
        assert(shortened.last() == rows.last());
        assert(rows.last().id != rows[i].id);
    }
}

/// Appending a row with a fresh id denotes inserting its view.
pub proof fn lemma_map_push(rows: Seq<Issue>, row: Issue)
    ensures
        map_of_rows(rows.push(row)) =~= map_of_rows(rows).insert(row.id, row@),
{
    assert(rows.push(row).drop_last() =~= rows);
    assert(rows.push(row).last() == row);
}

/// The issues table: rows in insertion order and the next id the store will
/// assign.
pub struct Store {
    rows: Vec<Issue>,
    next_id: u64,
}

impl Store {
    /// The abstract contents: id to row view.
    pub closed spec fn as_map(self) -> Map<u64, IssueView> {
        map_of_rows(self.rows@)
    }

    /// The rows in store order, as views.
    pub closed spec fn row_views(self) -> Seq<IssueView> {
        self.rows@.map_values(|r: Issue| r@)
    }

    /// The id the store will assign next.
    pub closed spec fn next_id_spec(self) -> u64 {
        self.next_id
    }

    /// Well-formedness: ids start at 1, every row's id is below the counter
    /// (so fresh ids never collide), and no id repeats.
    pub closed spec fn wf(self) -> bool {
        &&& self.next_id >= 1
        &&& forall|i: int| 0 <= i < self.rows@.len() ==> (#[trigger] self.rows@[i].id) < self.next_id
        &&& ids_unique(self.rows@)
    }

    /// An empty store; the first created row gets id 1.
    pub fn new() -> (store: Store)
        ensures
            store.wf(),
            store.as_map() =~= Map::<u64, IssueView>::empty(),
            store.row_views() =~= Seq::<IssueView>::empty(),
            store.next_id_spec() == 1,
    {
        Store { rows: Vec::new(), next_id: 1 }
    }

    /// The point query: the row whose id matches, or nothing. At most one
    /// row can match a well-formed store.
    pub fn lookup(&self, id: u64) -> (found: Option<Issue>)
        requires
            self.wf(),
        ensures
            match found {
                Some(row) => self.as_map().contains_key(id) && row@ == self.as_map()[id]
                    && row.id == id,
                None => !self.as_map().contains_key(id),
            },
    {
        let n = self.rows.len();
        let mut i: usize = 0;
        while i < n
            invariant
                self.wf(),
                n == self.rows@.len(),
                0 <= i <= n,
                forall|j: int| 0 <= j < i ==> (#[trigger] self.rows@[j].id) != id,
            decreases n - i,
        {
            if self.rows[i].id == id {
                proof {
                    lemma_map_index(self.rows@, i as int);
                }
                return Some(self.rows[i].duplicate());
            }
            i = i + 1;
        }
        proof {
            lemma_map_domain(self.rows@, id);
        }
        None
    }

    /// All rows, in store order.
    pub fn all_rows(&self) -> (rows: Vec<Issue>)
        requires
            self.wf(),
        ensures
            rows@.map_values(|r: Issue| r@) =~= self.row_views(),
    {
        let n = self.rows.len();
        let mut out: Vec<Issue> = Vec::new();
        let mut i: usize = 0;
        while i < n
            invariant
                n == self.rows@.len(),
                0 <= i <= n,
                out@.len() == i,
                forall|j: int| 0 <= j < i ==> (#[trigger] out@[j]@) == self.rows@[j]@,
            decreases n - i,
        {
            out.push(self.rows[i].duplicate());
            i = i + 1;
        }
        out
    }

    /// Insert a new row for a payload: the store assigns the next id and
    /// stamps the given author. The id is fresh by well-formedness.
    pub fn insert_new(&mut self, payload: &IssuePayload, author: &String) -> (created: Issue)
        requires
            old(self).wf(),
            old(self).next_id_spec() < u64::MAX,
        ensures
            final(self).wf(),
            created@ == new_row(old(self).next_id_spec(), payload@, author@),
            created.id == old(self).next_id_spec(),
            !old(self).as_map().contains_key(created.id),
            final(self).as_map() =~= old(self).as_map().insert(created.id, created@),
            final(self).row_views() =~= old(self).row_views().push(created@),
            final(self).next_id_spec() == old(self).next_id_spec() + 1,
    {
        let id = self.next_id;
        let row = Issue {
            id,
            title: payload.title.clone(),
            description: payload.description.clone(),
            status: payload.status.clone(),
            label: payload.label.clone(),
            author: author.clone(),
        };
        let created = row.duplicate();
        proof {
            lemma_map_domain(self.rows@, id);
            lemma_map_push(self.rows@, row);
        }
        self.rows.push(row);
        self.next_id = self.next_id + 1;
        proof {
            assert(self.row_views() =~= old(self).row_views().push(created@));
        }
        created
    }

    /// Overwrite the mutable fields of the row with this id; `id` and
    /// `author` stay as they were.
    pub fn update_fields(&mut self, id: u64, payload: &IssuePayload)
        requires
            old(self).wf(),
            old(self).as_map().contains_key(id),
        ensures
            final(self).wf(),
            final(self).as_map() =~= old(self).as_map().insert(
                id,
                updated_row(old(self).as_map()[id], payload@),
            ),
            final(self).next_id_spec() == old(self).next_id_spec(),
    {
        let n = self.rows.len();
        let mut i: usize = 0;
        while i < n
            invariant
                self.wf(),
                *self == *old(self),
                n == self.rows@.len(),
                0 <= i <= n,
                forall|j: int| 0 <= j < i ==> (#[trigger] self.rows@[j].id) != id,
            decreases n - i,
        {
            if self.rows[i].id == id {
                let replacement = Issue {
                    id,
                    title: payload.title.clone(),
                    description: payload.description.clone(),
                    status: payload.status.clone(),
                    label: payload.label.clone(),
                    author: self.rows[i].author.clone(),
                };
                proof {
                    lemma_map_index(self.rows@, i as int);
                    lemma_map_update(self.rows@, i as int, replacement);
                }
                self.rows[i] = replacement;
                return ;
            }
            i = i + 1;
        }
        proof {
            lemma_map_domain(self.rows@, id);
        }
    }

    /// Remove the row with this id.
    pub fn remove_by_id(&mut self, id: u64)
        requires
            old(self).wf(),
            old(self).as_map().contains_key(id),
        ensures
            final(self).wf(),
            final(self).as_map() =~= old(self).as_map().remove(id),
            final(self).next_id_spec() == old(self).next_id_spec(),
    {
        let n = self.rows.len();
        let mut i: usize = 0;
        while i < n
            invariant
                self.wf(),
                *self == *old(self),
                n == self.rows@.len(),
                0 <= i <= n,
                forall|j: int| 0 <= j < i ==> (#[trigger] self.rows@[j].id) != id,
            decreases n - i,
        {
            if self.rows[i].id == id {
                proof {
                    lemma_map_remove(self.rows@, i as int);
                }
                self.rows.remove(i);
                proof {
                    assert(ids_unique(self.rows@)) by {
                        assert(forall|p: int, q: int|
                            0 <= p < q < self.rows@.len() ==> #[trigger] self.rows@[p].id
                                != #[trigger] self.rows@[q].id) by {
                            assert(forall|p: int, q: int|
                                0 <= p < q < old(self).rows@.len() ==> old(self).rows@[p].id
                                    != old(self).rows@[q].id);
                        }
                    }
                }
                return ;
            }
            i = i + 1;
        }
        proof {
            lemma_map_domain(self.rows@, id);
        }
    }
}

} // verus!
