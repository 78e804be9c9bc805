//! The storage adapter's model: one table per collection, rows keyed by a
//! store-assigned 32-bit id, listed in ascending id order.
//!
//! The real site keeps these tables in an embedded relational database; this
//! model is the contract that adapter must satisfy: ids are assigned
//! monotonically and never reused, `list` is ascending, and `fetch`, `update`
//! and `delete` distinguish a missing id from any other failure.

use vstd::prelude::*;

verus! {

/// How a storage operation fails: the id is absent, or the underlying store
/// broke in some other way.
#[derive(Clone, Copy, Debug, PartialEq, Eq, Structural)]
pub enum StoreError {
    NotFound,
    Failure,
}

/// One table of the store: rows of payload `T`, each under a unique id,
/// kept in ascending id order. `next_id` is the id the next created row gets.
pub struct Table<T> {
    pub rows: Vec<(u32, T)>,
    pub next_id: u32,
}

/// The payload of the row with the given id, if the id is present.
pub open spec fn lookup_rows<T>(rows: Seq<(u32, T)>, id: u32) -> Option<T>
    decreases rows.len(),
{
    if rows.len() == 0 {
        None
    } else if rows[0].0 == id {
        Some(rows[0].1)
    } else {
        lookup_rows(rows.drop_first(), id)
    }
}

/// After an insert under a fresh id, `lookup` of that id finds the new
/// payload, and every other id finds what it did.
pub proof fn lemma_lookup_after_push<T>(pre: Seq<(u32, T)>, id: u32, item: T)
    requires
        forall|k: int| 0 <= k < pre.len() ==> (#[trigger] pre[k]).0 != id,
    ensures
        lookup_rows(pre.push((id, item)), id) == Some(item),
        forall|id2: u32|
            id2 != id ==> lookup_rows(pre.push((id, item)), id2) == lookup_rows(pre, id2),
    decreases pre.len(),
{
    let post = pre.push((id, item));
    if pre.len() == 0 {
        assert(post[0] == (id, item));
        assert forall|id2: u32| id2 != id implies lookup_rows(post, id2) == lookup_rows(
            pre,
            id2,
        ) by {
            assert(post.drop_first() =~= Seq::<(u32, T)>::empty());
            assert(lookup_rows(post, id2) == lookup_rows(post.drop_first(), id2));
        }
    } else {
        assert forall|k: int|
            0 <= k < pre.drop_first().len() implies (#[trigger] pre.drop_first()[k]).0
            != id by {
            assert(pre.drop_first()[k] == pre[k + 1]);
        }
        lemma_lookup_after_push(pre.drop_first(), id, item);
        assert(post[0] == pre[0]);
        assert(post.drop_first() =~= pre.drop_first().push((id, item)));
        assert(lookup_rows(post, id) == Some(item));
        assert forall|id2: u32| id2 != id implies lookup_rows(post, id2) == lookup_rows(
            pre,
            id2,
        ) by {
            assert(lookup_rows(pre.drop_first().push((id, item)), id2) == lookup_rows(
                pre.drop_first(),
                id2,
            ));
            assert(lookup_rows(post, id2) == (if pre[0].0 == id2 {
                Some(pre[0].1)
            } else {
                lookup_rows(post.drop_first(), id2)
            }));
        }
    }
}

/// After the one row with `id` is replaced, `lookup` of that id finds the new
/// payload, and every other id finds what it did.
pub proof fn lemma_lookup_after_update<T>(pre: Seq<(u32, T)>, i: int, id: u32, item: T)
    requires
        0 <= i < pre.len(),
        pre[i].0 == id,
        forall|k: int| 0 <= k < pre.len() && k != i ==> (#[trigger] pre[k]).0 != id,
    ensures
        lookup_rows(pre.update(i, (id, item)), id) == Some(item),
        forall|id2: u32|
            id2 != id ==> lookup_rows(pre.update(i, (id, item)), id2) == lookup_rows(pre, id2),
    decreases pre.len(),
{
    let post = pre.update(i, (id, item));
    if i == 0 {
        assert(post[0] == (id, item));
        assert(post.drop_first() =~= pre.drop_first());
    } else {
        assert(post[0] == pre[0]);
        assert(pre[0].0 != id);
        assert forall|k: int|
            0 <= k < pre.drop_first().len() && k != i - 1 implies (
        #[trigger] pre.drop_first()[k]).0 != id by {
            assert(pre.drop_first()[k] == pre[k + 1]);
        }
        assert(pre.drop_first()[i - 1] == pre[i]);
        lemma_lookup_after_update(pre.drop_first(), i - 1, id, item);
        assert(post.drop_first() =~= pre.drop_first().update(i - 1, (id, item)));
        assert(lookup_rows(post, id) == lookup_rows(post.drop_first(), id));
        assert forall|id2: u32| id2 != id implies lookup_rows(post, id2) == lookup_rows(
            pre,
            id2,
        ) by {
            assert(lookup_rows(pre.drop_first().update(i - 1, (id, item)), id2) == lookup_rows(
                pre.drop_first(),
                id2,
            ));
            assert(lookup_rows(post, id2) == (if pre[0].0 == id2 {
                Some(pre[0].1)
            } else {
                lookup_rows(post.drop_first(), id2)
            }));
        }
    }
}

/// After the one row with `id` is removed, `lookup` of that id misses, and
/// every other id finds what it did.
pub proof fn lemma_lookup_after_remove<T>(pre: Seq<(u32, T)>, i: int, id: u32)
    requires
        0 <= i < pre.len(),
        pre[i].0 == id,
        forall|k: int| 0 <= k < pre.len() && k != i ==> (#[trigger] pre[k]).0 != id,
    ensures
        lookup_rows(pre.remove(i), id) is None,
        forall|id2: u32|
            id2 != id ==> lookup_rows(pre.remove(i), id2) == lookup_rows(pre, id2),
    decreases pre.len(),
{
    let post = pre.remove(i);
    if i == 0 {
        assert(post =~= pre.drop_first());
        lemma_lookup_none_when_absent(post, id);
    } else {
        assert(post[0] == pre[0]);
        assert(pre[0].0 != id);
        assert forall|k: int|
            0 <= k < pre.drop_first().len() && k != i - 1 implies (
        #[trigger] pre.drop_first()[k]).0 != id by {
            assert(pre.drop_first()[k] == pre[k + 1]);
        }
        assert(pre.drop_first()[i - 1] == pre[i]);
        lemma_lookup_after_remove(pre.drop_first(), i - 1, id);
        assert(post.drop_first() =~= pre.drop_first().remove(i - 1));
        assert(lookup_rows(post, id) == lookup_rows(post.drop_first(), id));
        assert forall|id2: u32| id2 != id implies lookup_rows(post, id2) == lookup_rows(
            pre,
            id2,
        ) by {
            assert(lookup_rows(pre.drop_first().remove(i - 1), id2) == lookup_rows(
                pre.drop_first(),
                id2,
            ));
            assert(lookup_rows(post, id2) == (if pre[0].0 == id2 {
                Some(pre[0].1)
            } else {
                lookup_rows(post.drop_first(), id2)
            }));
        }
    }
}

/// When ids are unique, `lookup` finds exactly the payload of the row that
/// holds the id.
pub proof fn lemma_lookup_at_index<T>(rows: Seq<(u32, T)>, i: int, id: u32)
    requires
        0 <= i < rows.len(),
        rows[i].0 == id,
        forall|k: int| 0 <= k < rows.len() && k != i ==> (#[trigger] rows[k]).0 != id,
    ensures
        lookup_rows(rows, id) == Some(rows[i].1),
    decreases rows.len(),
{
    if i > 0 {
        assert forall|k: int|
            0 <= k < rows.drop_first().len() && k != i - 1 implies (
        #[trigger] rows.drop_first()[k]).0 != id by {
            assert(rows.drop_first()[k] == rows[k + 1]);
        }
        assert(rows.drop_first()[i - 1] == rows[i]);
        lemma_lookup_at_index(rows.drop_first(), i - 1, id);
    }
}

/// `lookup` misses every id no row holds.
pub proof fn lemma_lookup_none_when_absent<T>(rows: Seq<(u32, T)>, id: u32)
    requires
        forall|k: int| 0 <= k < rows.len() ==> (#[trigger] rows[k]).0 != id,
    ensures
        lookup_rows(rows, id) is None,
    decreases rows.len(),
{
    if rows.len() > 0 {
        assert forall|k: int|
            0 <= k < rows.drop_first().len() implies (#[trigger] rows.drop_first()[k]).0
            != id by {
            assert(rows.drop_first()[k] == rows[k + 1]);
        }
        lemma_lookup_none_when_absent(rows.drop_first(), id);
    }
}

/// A newly created row lists exactly once, as the highest id: it is the last
/// row, and no earlier row carries its id.
pub proof fn lemma_created_lists_once<T>(pre: Table<T>, post: Table<T>, item: T, id: u32)
    requires
        pre.wf(),
        id == pre.next_id,
        post.rows@ =~= pre.rows@.push((id, item)),
    ensures
        post.rows@.len() > 0,
        post.rows@[post.rows@.len() - 1] == (id, item),
        forall|k: int| 0 <= k < post.rows@.len() - 1 ==> (#[trigger] post.rows@[k]).0 < id,
{
}

impl<T> Table<T> {
    /// The table's rows are strictly ascending by id, and every id is below
    /// `next_id`: ids are assigned monotonically and never reused.
    pub open spec fn wf(self) -> bool {
        &&& forall|i: int, j: int|
            0 <= i < j < self.rows@.len() ==> self.rows@[i].0 < self.rows@[j].0
        &&& forall|i: int| 0 <= i < self.rows@.len() ==> self.rows@[i].0 < self.next_id
    }

    /// The ids present in the table, in row order.
    pub open spec fn ids(self) -> Seq<u32> {
        self.rows@.map_values(|r: (u32, T)| r.0)
    }

    /// Whether a row with the given id is present.
    pub open spec fn contains_id(self, id: u32) -> bool {
        exists|i: int| 0 <= i < self.rows@.len() && self.rows@[i].0 == id
    }

    /// The payload stored under the given id, if any.
    pub open spec fn lookup(self, id: u32) -> Option<T> {
        lookup_rows(self.rows@, id)
    }

    /// An empty table, as a fresh store provides it.
    pub fn new() -> (t: Table<T>)
        ensures
            t.wf(),
            t.rows@ =~= Seq::<(u32, T)>::empty(),
            t.next_id == 1,
    {
        Table { rows: Vec::new(), next_id: 1 }
    }

    pub fn len(&self) -> (n: usize)
        ensures
            n == self.rows@.len(),
    {
        self.rows.len()
    }

    /// A borrowed view of the rows, ascending by id.
    pub fn all_rows(&self) -> (r: &Vec<(u32, T)>)
        ensures
            r == &self.rows,
    {
        &self.rows
    }

    /// Looks the id up; a missing id is reported as `NotFound`.
    pub fn fetch(&self, id: u32) -> (r: Result<&T, StoreError>)
        ensures
            match r {
                Ok(v) => self.lookup(id) == Some(*v),
                Err(e) => e == StoreError::NotFound && self.lookup(id) is None,
            },
    {
        let n = self.rows.len();
        let mut i: usize = 0;
        proof {
            assert(self.rows@.skip(0) =~= self.rows@);
        }
        while i < n
            invariant
                n == self.rows@.len(),
                0 <= i <= n,
                lookup_rows(self.rows@, id) == lookup_rows(self.rows@.skip(i as int), id),
            decreases n - i,
        {
            proof {
                assert(self.rows@.skip(i as int).drop_first() =~= self.rows@.skip(i as int + 1));
            }
            if self.rows[i].0 == id {
                proof {
                    assert(self.rows@.skip(i as int)[0] == self.rows@[i as int]);
                }
                return Ok(&self.rows[i].1);
            }
            i = i + 1;
        }
        proof {
            assert(self.rows@.skip(n as int) =~= Seq::<(u32, T)>::empty());
        }
        Err(StoreError::NotFound)
    }

    /// Inserts a new row under the next fresh id and returns that id.
    /// Fails only when the id space is exhausted.
    pub fn create(&mut self, item: T) -> (r: Result<u32, StoreError>)
        requires
            old(self).wf(),
        ensures
            final(self).wf(),
            match r {
                Ok(id) => {
                    &&& id == old(self).next_id
                    &&& final(self).rows@ =~= old(self).rows@.push((id, item))
                    &&& final(self).next_id == id + 1
                    &&& forall|i: int| 0 <= i < old(self).rows@.len()
                        ==> old(self).rows@[i].0 < id
                },
                Err(e) => {
                    &&& e == StoreError::Failure
                    &&& *final(self) == *old(self)
                    &&& old(self).next_id == u32::MAX
                },
            },
    {
        if self.next_id == u32::MAX {
            return Err(StoreError::Failure);
        }
        let id = self.next_id;
        self.rows.push((id, item));
        self.next_id = id + 1;
        Ok(id)
    }

    /// Replaces the payload under the given id; a missing id is `NotFound`.
    pub fn update(&mut self, id: u32, item: T) -> (r: Result<(), StoreError>)
        requires
            old(self).wf(),
        ensures
            final(self).wf(),
            final(self).next_id == old(self).next_id,
            match r {
                Ok(()) => {
                    &&& old(self).contains_id(id)
                    &&& exists|i: int|
                        {
                            &&& 0 <= i < old(self).rows@.len()
                            &&& old(self).rows@[i].0 == id
                            &&& final(self).rows@ =~= old(self).rows@.update(i, (id, item))
                        }
                },
                Err(e) => {
                    &&& e == StoreError::NotFound
                    &&& !old(self).contains_id(id)
                    &&& *final(self) == *old(self)
                },
            },
    {
        let n = self.rows.len();
        let mut i: usize = 0;
        while i < n
            invariant
                old(self).wf(),
                n == self.rows@.len(),
                0 <= i <= n,
                *self == *old(self),
                forall|k: int| 0 <= k < i ==> self.rows@[k].0 != id,
            decreases n - i,
        {
            if self.rows[i].0 == id {
                self.rows.set(i, (id, item));
                proof {
                    assert(forall|k: int|
                        0 <= k < self.rows@.len() ==> self.rows@[k].0 == old(self).rows@[k].0);
                }
                return Ok(());
            }
            i = i + 1;
        }
        Err(StoreError::NotFound)
    }

    /// Removes the row with the given id; a missing id is `NotFound`.
    pub fn delete(&mut self, id: u32) -> (r: Result<(), StoreError>)
        requires
            old(self).wf(),
        ensures
            final(self).wf(),
            final(self).next_id == old(self).next_id,
            match r {
                Ok(()) => {
                    &&& old(self).contains_id(id)
                    &&& exists|i: int|
                        {
                            &&& 0 <= i < old(self).rows@.len()
                            &&& old(self).rows@[i].0 == id
                            &&& final(self).rows@ =~= old(self).rows@.remove(i)
                        }
                },
                Err(e) => {
                    &&& e == StoreError::NotFound
                    &&& !old(self).contains_id(id)
                    &&& *final(self) == *old(self)
                },
            },
    {
        let n = self.rows.len();
        let mut i: usize = 0;
        while i < n
            invariant
                old(self).wf(),
                n == self.rows@.len(),
                0 <= i <= n,
                *self == *old(self),
                forall|k: int| 0 <= k < i ==> self.rows@[k].0 != id,
            decreases n - i,
        {
            if self.rows[i].0 == id {
                self.rows.remove(i);
                proof {
                    assert(forall|k: int|
                        0 <= k < i ==> self.rows@[k] == old(self).rows@[k]);
                    assert(forall|k: int|
                        i <= k < self.rows@.len() ==> self.rows@[k] == old(self).rows@[k + 1]);
                }
                return Ok(());
            }
            i = i + 1;
        }
        Err(StoreError::NotFound)
    }
}

} // verus!
