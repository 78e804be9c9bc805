//! Blog posts: title, lead and body text, and a cover image whose
//! filename is stamped with the upload time.

use vstd::prelude::*;
use crate::store::{StoreError, Table};

verus! {

/// The fields of a post as a client submits them.
#[derive(Debug)]
pub struct NewPost {
    pub title: String,
    pub lead: String,
    pub body: String,
    pub cover: String,
}

/// A stored post: the submitted fields under their store-assigned id.
#[derive(Debug)]
pub struct Post {
    pub id: u32,
    pub title: String,
    pub lead: String,
    pub body: String,
    pub cover: String,
}

impl NewPost {
    pub fn dup(&self) -> (r: NewPost)
        ensures
            r == *self,
    {
        NewPost {
            title: self.title.clone(),
            lead: self.lead.clone(),
            body: self.body.clone(),
            cover: self.cover.clone(),
        }
    }
}

/// The listed records, row for row.
pub open spec fn rows_match(rows: Seq<(u32, NewPost)>, v: Seq<Post>) -> bool {
    &&& v.len() == rows.len()
    &&& forall|i: int| 0 <= i < rows.len() ==> (#[trigger] v[i]).is_row(rows[i].0, rows[i].1)
}

impl Post {
    /// Whether this record is the row `(id, p)` of the table.
    pub open spec fn is_row(self, id: u32, p: NewPost) -> bool {
        &&& self.id == id
        &&& self.title@ == p.title@
        &&& self.lead@ == p.lead@
        &&& self.body@ == p.body@
        &&& self.cover@ == p.cover@
    }

    pub fn from_row(id: u32, p: &NewPost) -> (r: Post)
        ensures
            r.is_row(id, *p),
    {
        Post {
            id,
            title: p.title.clone(),
            lead: p.lead.clone(),
            body: p.body.clone(),
            cover: p.cover.clone(),
        }
    }

    /// All posts, ascending by id.
    pub fn list(t: &Table<NewPost>) -> (r: Vec<Post>)
        requires
            t.wf(),
        ensures
            rows_match(t.rows@, r@),
            forall|i: int, j: int| 0 <= i < j < r@.len() ==> r@[i].id < r@[j].id,
    {
        let n = t.all_rows().len();
        let mut r: Vec<Post> = Vec::new();
        let mut i: usize = 0;
        while i < n
            invariant
                t.wf(),
                n == t.rows@.len(),
                0 <= i <= n,
                r@.len() == i,
                forall|k: int| 0 <= k < i ==> r@[k].is_row(t.rows@[k].0, t.rows@[k].1),
            decreases n - i,
        {
            let row = &t.all_rows()[i];
            r.push(Post::from_row(row.0, &row.1));
            i = i + 1;
        }
        r
    }

    /// The post with the given id; a missing id is `NotFound`.
    pub fn fetch(t: &Table<NewPost>, id: u32) -> (r: Result<Post, StoreError>)
        ensures
            match r {
                Ok(b) => t.lookup(id) matches Some(p) && b.is_row(id, p),
                Err(e) => e == StoreError::NotFound && t.lookup(id) is None,
            },
    {
        match t.fetch(id) {
            Ok(p) => Ok(Post::from_row(id, p)),
            Err(e) => Err(e),
        }
    }

    /// Inserts a new post and returns its assigned id.
    pub fn create(t: &mut Table<NewPost>, new_post: NewPost) -> (r: Result<u32, StoreError>)
        requires
            old(t).wf(),
        ensures
            final(t).wf(),
            match r {
                Ok(id) => {
                    &&& id == old(t).next_id
                    &&& final(t).rows@ =~= old(t).rows@.push((id, new_post))
                },
                Err(e) => e == StoreError::Failure && *final(t) == *old(t) && old(t).next_id
                    == u32::MAX,
            },
    {
        t.create(new_post)
    }

    /// Replaces the fields of the post with the given id.
    pub fn update(t: &mut Table<NewPost>, id: u32, updated_post: NewPost) -> (r: Result<
        (),
        StoreError,
    >)
        requires
            old(t).wf(),
        ensures
            final(t).wf(),
            match r {
                Ok(()) => exists|i: int|
                    {
                        &&& 0 <= i < old(t).rows@.len()
                        &&& old(t).rows@[i].0 == id
                        &&& final(t).rows@ =~= old(t).rows@.update(i, (id, updated_post))
                    },
                Err(e) => {
                    &&& e == StoreError::NotFound
                    &&& !old(t).contains_id(id)
                    &&& *final(t) == *old(t)
                },
            },
    {
        t.update(id, updated_post)
    }

    /// Removes the post with the given id.
    pub fn delete(t: &mut Table<NewPost>, id: u32) -> (r: Result<(), StoreError>)
        requires
            old(t).wf(),
        ensures
            final(t).wf(),
            match r {
                Ok(()) => exists|i: int|
                    {
                        &&& 0 <= i < old(t).rows@.len()
                        &&& old(t).rows@[i].0 == id
                        &&& final(t).rows@ =~= old(t).rows@.remove(i)
                    },
                Err(e) => {
                    &&& e == StoreError::NotFound
                    &&& !old(t).contains_id(id)
                    &&& *final(t) == *old(t)
                },
            },
    {
        t.delete(id)
    }
}

} // verus!
