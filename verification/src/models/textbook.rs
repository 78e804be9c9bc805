//! Textbooks: name, link and description, with a cover image.

use vstd::prelude::*;
use crate::store::{StoreError, Table};

verus! {

/// The fields of a textbook as a client submits them.
#[derive(Debug)]
pub struct NewTextBook {
    pub name: String,
    pub link: String,
    pub description: String,
    pub cover: String,
}

/// A stored textbook: the submitted fields under their store-assigned id.
#[derive(Debug)]
pub struct TextBook {
    pub id: u32,
    pub name: String,
    pub link: String,
    pub description: String,
    pub cover: String,
}

impl NewTextBook {
    pub fn dup(&self) -> (r: NewTextBook)
        ensures
            r == *self,
    {
        NewTextBook {
            name: self.name.clone(),
            link: self.link.clone(),
            description: self.description.clone(),
            cover: self.cover.clone(),
        }
    }
}

/// The listed records, row for row.
pub open spec fn rows_match(rows: Seq<(u32, NewTextBook)>, v: Seq<TextBook>) -> bool {
    &&& v.len() == rows.len()
    &&& forall|i: int| 0 <= i < rows.len() ==> (#[trigger] v[i]).is_row(rows[i].0, rows[i].1)
}

impl TextBook {
    /// Whether this record is the row `(id, p)` of the table.
    pub open spec fn is_row(self, id: u32, p: NewTextBook) -> bool {
        &&& self.id == id
        &&& self.name@ == p.name@
        &&& self.link@ == p.link@
        &&& self.description@ == p.description@
        &&& self.cover@ == p.cover@
    }

    pub fn from_row(id: u32, p: &NewTextBook) -> (r: TextBook)
        ensures
            r.is_row(id, *p),
    {
        TextBook {
            id,
            name: p.name.clone(),
            link: p.link.clone(),
            description: p.description.clone(),
            cover: p.cover.clone(),
        }
    }

    /// All textbooks, ascending by id.
    pub fn list(t: &Table<NewTextBook>) -> (r: Vec<TextBook>)
        requires
            t.wf(),
        ensures
            rows_match(t.rows@, r@),
            forall|i: int, j: int| 0 <= i < j < r@.len() ==> r@[i].id < r@[j].id,
    {
        let n = t.all_rows().len();
        let mut r: Vec<TextBook> = Vec::new();
        let mut i: usize = 0;
        while i < n
            invariant
                t.wf(),
                n == t.rows@.len(),
                0 <= i <= n,
                r@.len() == i,
                forall|k: int| 0 <= k < i ==> r@[k].is_row(t.rows@[k].0, t.rows@[k].1),
            decreases n - i,
        {
            let row = &t.all_rows()[i];
            r.push(TextBook::from_row(row.0, &row.1));
            i = i + 1;
        }
        r
    }

    /// The textbook with the given id; a missing id is `NotFound`.
    pub fn fetch(t: &Table<NewTextBook>, id: u32) -> (r: Result<TextBook, StoreError>)
        ensures
            match r {
                Ok(b) => t.lookup(id) matches Some(p) && b.is_row(id, p),
                Err(e) => e == StoreError::NotFound && t.lookup(id) is None,
            },
    {
        match t.fetch(id) {
            Ok(p) => Ok(TextBook::from_row(id, p)),
            Err(e) => Err(e),
        }
    }

    /// Inserts a new textbook and returns its assigned id.
    pub fn create(t: &mut Table<NewTextBook>, new_textbook: NewTextBook) -> (r: Result<u32, StoreError>)
        requires
            old(t).wf(),
        ensures
            final(t).wf(),
            match r {
                Ok(id) => {
                    &&& id == old(t).next_id
                    &&& final(t).rows@ =~= old(t).rows@.push((id, new_textbook))
                },
                Err(e) => e == StoreError::Failure && *final(t) == *old(t) && old(t).next_id
                    == u32::MAX,
            },
    {
        t.create(new_textbook)
    }

    /// Replaces the fields of the textbook with the given id.
    pub fn update(t: &mut Table<NewTextBook>, id: u32, updated_textbook: NewTextBook) -> (r: Result<
        (),
        StoreError,
    >)
        requires
            old(t).wf(),
        ensures
            final(t).wf(),
            match r {
                Ok(()) => exists|i: int|
                    {
                        &&& 0 <= i < old(t).rows@.len()
                        &&& old(t).rows@[i].0 == id
                        &&& final(t).rows@ =~= old(t).rows@.update(i, (id, updated_textbook))
                    },
                Err(e) => {
                    &&& e == StoreError::NotFound
                    &&& !old(t).contains_id(id)
                    &&& *final(t) == *old(t)
                },
            },
    {
        t.update(id, updated_textbook)
    }

    /// Removes the textbook with the given id.
    pub fn delete(t: &mut Table<NewTextBook>, id: u32) -> (r: Result<(), StoreError>)
        requires
            old(t).wf(),
        ensures
            final(t).wf(),
            match r {
                Ok(()) => exists|i: int|
                    {
                        &&& 0 <= i < old(t).rows@.len()
                        &&& old(t).rows@[i].0 == id
                        &&& final(t).rows@ =~= old(t).rows@.remove(i)
                    },
                Err(e) => {
                    &&& e == StoreError::NotFound
                    &&& !old(t).contains_id(id)
                    &&& *final(t) == *old(t)
                },
            },
    {
        t.delete(id)
    }
}

} // verus!
