//! Publications: name, link and description; no cover image.

use vstd::prelude::*;
use crate::store::{StoreError, Table};

verus! {

/// The fields of a publication as a client submits them.
#[derive(Debug)]
pub struct NewPublication {
    pub name: String,
    pub link: String,
    pub description: String,
}

/// A stored publication: the submitted fields under their store-assigned id.
#[derive(Debug)]
pub struct Publication {
    pub id: u32,
    pub name: String,
    pub link: String,
    pub description: String,
}

impl NewPublication {
    pub fn dup(&self) -> (r: NewPublication)
        ensures
            r == *self,
    {
        NewPublication {
            name: self.name.clone(),
            link: self.link.clone(),
            description: self.description.clone(),
        }
    }
}

/// The listed records, row for row.
pub open spec fn rows_match(rows: Seq<(u32, NewPublication)>, v: Seq<Publication>) -> bool {
    &&& v.len() == rows.len()
    &&& forall|i: int| 0 <= i < rows.len() ==> (#[trigger] v[i]).is_row(rows[i].0, rows[i].1)
}

impl Publication {
    /// Whether this record is the row `(id, p)` of the table.
    pub open spec fn is_row(self, id: u32, p: NewPublication) -> bool {
        &&& self.id == id
        &&& self.name@ == p.name@
        &&& self.link@ == p.link@
        &&& self.description@ == p.description@
    }

    pub fn from_row(id: u32, p: &NewPublication) -> (r: Publication)
        ensures
            r.is_row(id, *p),
    {
        Publication {
            id,
            name: p.name.clone(),
            link: p.link.clone(),
            description: p.description.clone(),
        }
    }

    /// All publications, ascending by id.
    pub fn list(t: &Table<NewPublication>) -> (r: Vec<Publication>)
        requires
            t.wf(),
        ensures
            rows_match(t.rows@, r@),
            forall|i: int, j: int| 0 <= i < j < r@.len() ==> r@[i].id < r@[j].id,
    {
        let n = t.all_rows().len();
        let mut r: Vec<Publication> = Vec::new();
        let mut i: usize = 0;
        while i < n
            invariant
                t.wf(),
                n == t.rows@.len(),
                0 <= i <= n,
                r@.len() == i,
                forall|k: int| 0 <= k < i ==> r@[k].is_row(t.rows@[k].0, t.rows@[k].1),
            decreases n - i,
        {
            let row = &t.all_rows()[i];
            r.push(Publication::from_row(row.0, &row.1));
            i = i + 1;
        }
        r
    }

    /// The publication with the given id; a missing id is `NotFound`.
    pub fn fetch(t: &Table<NewPublication>, id: u32) -> (r: Result<Publication, StoreError>)
        ensures
            match r {
                Ok(b) => t.lookup(id) matches Some(p) && b.is_row(id, p),
                Err(e) => e == StoreError::NotFound && t.lookup(id) is None,
            },
    {
        match t.fetch(id) {
            Ok(p) => Ok(Publication::from_row(id, p)),
            Err(e) => Err(e),
        }
    }

    /// Inserts a new publication and returns its assigned id.
    pub fn create(t: &mut Table<NewPublication>, new_publication: NewPublication) -> (r: Result<u32, StoreError>)
        requires
            old(t).wf(),
        ensures
            final(t).wf(),
            match r {
                Ok(id) => {
                    &&& id == old(t).next_id
                    &&& final(t).rows@ =~= old(t).rows@.push((id, new_publication))
                },
                Err(e) => e == StoreError::Failure && *final(t) == *old(t) && old(t).next_id
                    == u32::MAX,
            },
    {
        t.create(new_publication)
    }

    /// Replaces the fields of the publication with the given id.
    pub fn update(t: &mut Table<NewPublication>, id: u32, updated_publication: NewPublication) -> (r: Result<
        (),
        StoreError,
    >)
        requires
            old(t).wf(),
        ensures
            final(t).wf(),
            match r {
                Ok(()) => exists|i: int|
                    {
                        &&& 0 <= i < old(t).rows@.len()
                        &&& old(t).rows@[i].0 == id
                        &&& final(t).rows@ =~= old(t).rows@.update(i, (id, updated_publication))
                    },
                Err(e) => {
                    &&& e == StoreError::NotFound
                    &&& !old(t).contains_id(id)
                    &&& *final(t) == *old(t)
                },
            },
    {
        t.update(id, updated_publication)
    }

    /// Removes the publication with the given id.
    pub fn delete(t: &mut Table<NewPublication>, id: u32) -> (r: Result<(), StoreError>)
        requires
            old(t).wf(),
        ensures
            final(t).wf(),
            match r {
                Ok(()) => exists|i: int|
                    {
                        &&& 0 <= i < old(t).rows@.len()
                        &&& old(t).rows@[i].0 == id
                        &&& final(t).rows@ =~= old(t).rows@.remove(i)
                    },
                Err(e) => {
                    &&& e == StoreError::NotFound
                    &&& !old(t).contains_id(id)
                    &&& *final(t) == *old(t)
                },
            },
    {
        t.delete(id)
    }
}

} // verus!
