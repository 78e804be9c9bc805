//! The content service for the cover-bearing collections: the cover-filename
//! policy, and the create/update/delete protocol that keeps the image store
//! and a table consistent.
//!
//! The protocol order is fixed: create writes the file and then inserts the
//! row; update writes the new file, updates the row, then removes the old
//! file; delete removes the row and then its file. On a failure in the middle
//! an orphan file may be left behind; the contracts state exactly which.

use vstd::prelude::*;
use crate::chars::{dec_digits, decimal_string};
use crate::images::ImageStore;
use crate::models::post::NewPost;
use crate::models::text::NewText;
use crate::models::textbook::NewTextBook;
use crate::store::{lookup_rows, StoreError, Table};

verus! {

/// A payload carrying a cover filename; empty means "no cover".
pub trait HasCover: Sized {
    spec fn cover_view(&self) -> Seq<char>;

    fn cover(&self) -> (r: &String)
        ensures
            r@ == self.cover_view(),
    ;
}

impl HasCover for NewPost {
    open spec fn cover_view(&self) -> Seq<char> {
        self.cover@
    }

    fn cover(&self) -> (r: &String) {
        &self.cover
    }
}

impl HasCover for NewText {
    open spec fn cover_view(&self) -> Seq<char> {
        self.cover@
    }

    fn cover(&self) -> (r: &String) {
        &self.cover
    }
}

impl HasCover for NewTextBook {
    open spec fn cover_view(&self) -> Seq<char> {
        self.cover@
    }

    fn cover(&self) -> (r: &String) {
        &self.cover
    }
}

/// Every non-empty cover filename of a row names a file that is present.
pub open spec fn covers_ok<T: HasCover>(rows: Seq<(u32, T)>, names: Set<Seq<char>>) -> bool {
    forall|i: int|
        0 <= i < rows.len() ==> {
            let c = (#[trigger] rows[i]).1.cover_view();
            c.len() == 0 || names.contains(c)
        }
}

/// No row names the file `c` as its cover.
pub open spec fn no_ref<T: HasCover>(rows: Seq<(u32, T)>, c: Seq<char>) -> bool {
    forall|i: int| 0 <= i < rows.len() ==> (#[trigger] rows[i]).1.cover_view() != c
}

/// The file `c` is the cover of at most the `subject` row with the given id:
/// no other subject row and no row of the two other collections names it.
pub open spec fn sole_cover_ref<T: HasCover, U: HasCover, V: HasCover>(
    subject: Seq<(u32, T)>,
    others1: Seq<(u32, U)>,
    others2: Seq<(u32, V)>,
    id: u32,
    c: Seq<char>,
) -> bool {
    &&& only_row_with_cover(subject, id, c)
    &&& no_ref(others1, c)
    &&& no_ref(others2, c)
}

/// At most the row with the given id names the file `c` as its cover.
pub open spec fn only_row_with_cover<T: HasCover>(
    rows: Seq<(u32, T)>,
    id: u32,
    c: Seq<char>,
) -> bool {
    forall|i: int|
        0 <= i < rows.len() && (#[trigger] rows[i]).0 != id ==> rows[i].1.cover_view() != c
}

/// Consistency survives the image store gaining files.
pub proof fn lemma_covers_ok_grow<T: HasCover>(
    rows: Seq<(u32, T)>,
    a: Set<Seq<char>>,
    b: Set<Seq<char>>,
)
    requires
        covers_ok(rows, a),
        a.subset_of(b),
    ensures
        covers_ok(rows, b),
{
}

/// Consistency survives losing a file no row refers to.
pub proof fn lemma_covers_ok_shrink<T: HasCover>(
    rows: Seq<(u32, T)>,
    a: Set<Seq<char>>,
    c: Seq<char>,
)
    requires
        covers_ok(rows, a),
        forall|i: int| 0 <= i < rows.len() ==> (#[trigger] rows[i]).1.cover_view() != c,
    ensures
        covers_ok(rows, a.remove(c)),
{
}

/// Consistency survives removing a row.
pub proof fn lemma_covers_ok_remove_row<T: HasCover>(
    rows: Seq<(u32, T)>,
    names: Set<Seq<char>>,
    i: int,
)
    requires
        covers_ok(rows, names),
        0 <= i < rows.len(),
    ensures
        covers_ok(rows.remove(i), names),
{
    let post = rows.remove(i);
    assert forall|k: int| 0 <= k < post.len() implies {
        let c = (#[trigger] post[k]).1.cover_view();
        c.len() == 0 || names.contains(c)
    } by {
        if k < i {
            assert(post[k] == rows[k]);
        } else {
            assert(post[k] == rows[k + 1]);
        }
    }
}

/// Consistency survives inserting a row whose cover is empty or present.
pub proof fn lemma_covers_ok_push<T: HasCover>(
    rows: Seq<(u32, T)>,
    names: Set<Seq<char>>,
    id: u32,
    item: T,
)
    requires
        covers_ok(rows, names),
        item.cover_view().len() == 0 || names.contains(item.cover_view()),
    ensures
        covers_ok(rows.push((id, item)), names),
{
    let post = rows.push((id, item));
    assert forall|k: int| 0 <= k < post.len() implies {
        let c = (#[trigger] post[k]).1.cover_view();
        c.len() == 0 || names.contains(c)
    } by {
        if k < rows.len() {
            assert(post[k] == rows[k]);
        } else {
            assert(post[k] == (id, item));
        }
    }
}

/// Consistency survives replacing a row with one whose cover is empty or
/// present.
pub proof fn lemma_covers_ok_update_row<T: HasCover>(
    rows: Seq<(u32, T)>,
    names: Set<Seq<char>>,
    i: int,
    id: u32,
    item: T,
)
    requires
        covers_ok(rows, names),
        0 <= i < rows.len(),
        item.cover_view().len() == 0 || names.contains(item.cover_view()),
    ensures
        covers_ok(rows.update(i, (id, item)), names),
{
    let post = rows.update(i, (id, item));
    assert forall|k: int| 0 <= k < post.len() implies {
        let c = (#[trigger] post[k]).1.cover_view();
        c.len() == 0 || names.contains(c)
    } by {
        if k != i {
            assert(post[k] == rows[k]);
        } else {
            assert(post[k] == (id, item));
        }
    }
}

/// The filename a post's cover is stored under: the upload second, an
/// underscore, then the client-supplied name.
pub open spec fn post_cover_name_spec(stamp: u64, client: Seq<char>) -> Seq<char> {
    dec_digits(stamp as nat) + seq!['_'] + client
}

pub fn post_cover_name(stamp: u64, client: &String) -> (r: String)
    ensures
        r@ == post_cover_name_spec(stamp, client@),
{
    proof {
        reveal_strlit("_");
    }
    let r = decimal_string(stamp).concat("_").concat(client.as_str());
    proof {
        assert(r@ =~= post_cover_name_spec(stamp, client@));
    }
    r
}

/// The cover filename an update stores: an empty client-supplied name keeps
/// the old cover; otherwise posts stamp the name, other collections take it
/// verbatim.
pub open spec fn next_cover_spec(
    old_cover: Seq<char>,
    client: Seq<char>,
    stamped: bool,
    stamp: u64,
) -> Seq<char> {
    if client.len() == 0 {
        old_cover
    } else if stamped {
        post_cover_name_spec(stamp, client)
    } else {
        client
    }
}

pub fn next_cover(old_cover: &String, client: &String, stamped: bool, stamp: u64) -> (r:
    String)
    ensures
        r@ == next_cover_spec(old_cover@, client@, stamped, stamp),
{
    if client.as_str().is_empty() {
        old_cover.clone()
    } else if stamped {
        post_cover_name(stamp, client)
    } else {
        client.clone()
    }
}

/// Creates an item of a cover-bearing collection: writes the cover file (when
/// one is named), then inserts the row. When the insert fails the written
/// file is left behind, an orphan.
pub fn create_with_cover<T: HasCover>(
    t: &mut Table<T>,
    imgs: &mut ImageStore,
    item: T,
) -> (r: Result<u32, StoreError>)
    requires
        old(t).wf(),
        old(imgs).wf(),
    ensures
        final(t).wf(),
        final(imgs).wf(),
        final(imgs).names() == (if item.cover_view().len() == 0 {
            old(imgs).names()
        } else {
            old(imgs).names().insert(item.cover_view())
        }),
        match r {
            Ok(id) => {
                &&& id == old(t).next_id
                &&& final(t).rows@ =~= old(t).rows@.push((id, item))
                &&& forall|i: int|
                    0 <= i < old(t).rows@.len() ==> (#[trigger] old(t).rows@[i]).0 < id
            },
            Err(e) => e == StoreError::Failure && *final(t) == *old(t) && old(t).next_id
                == u32::MAX,
        },
{
    if !item.cover().as_str().is_empty() {
        let name = item.cover().clone();
        imgs.write(name);
    }
    t.create(item)
}

/// Updates an item of a cover-bearing collection. The caller has computed the
/// item's cover filename from the old row (`old_cover`) and the upload. When
/// the cover changed: the new file is written, the row updated, the old file
/// removed. When the row is missing the new file is left behind, an orphan.
pub fn update_with_cover<T: HasCover>(
    t: &mut Table<T>,
    imgs: &mut ImageStore,
    id: u32,
    item: T,
    old_cover: &String,
) -> (r: Result<(), StoreError>)
    requires
        old(t).wf(),
        old(imgs).wf(),
    ensures
        final(t).wf(),
        final(imgs).wf(),
        match r {
            Ok(()) => {
                &&& exists|i: int|
                    {
                        &&& 0 <= i < old(t).rows@.len()
                        &&& (#[trigger] old(t).rows@[i]).0 == id
                        &&& final(t).rows@ =~= old(t).rows@.update(i, (id, item))
                    }
                &&& final(imgs).names() == (if item.cover_view() == old_cover@ {
                    old(imgs).names()
                } else {
                    old(imgs).names().insert(item.cover_view()).remove(old_cover@)
                })
            },
            Err(e) => {
                &&& e == StoreError::NotFound
                &&& !old(t).contains_id(id)
                &&& *final(t) == *old(t)
                &&& final(imgs).names() == (if item.cover_view() == old_cover@ {
                    old(imgs).names()
                } else {
                    old(imgs).names().insert(item.cover_view())
                })
            },
        },
{
    let changed = !item.cover().eq(old_cover);
    if changed {
        let name = item.cover().clone();
        imgs.write(name);
    }
    match t.update(id, item) {
        Ok(()) => {
            if changed {
                imgs.remove(old_cover);
            }
            Ok(())
        },
        Err(e) => Err(e),
    }
}

/// Deletes an item of a cover-bearing collection: removes the row, then its
/// cover file.
pub fn delete_with_cover<T: HasCover>(t: &mut Table<T>, imgs: &mut ImageStore, id: u32) -> (r:
    Result<(), StoreError>)
    requires
        old(t).wf(),
        old(imgs).wf(),
    ensures
        final(t).wf(),
        final(imgs).wf(),
        match r {
            Ok(()) => {
                &&& old(t).lookup(id) is Some
                &&& exists|i: int|
                    {
                        &&& 0 <= i < old(t).rows@.len()
                        &&& (#[trigger] old(t).rows@[i]).0 == id
                        &&& final(t).rows@ =~= old(t).rows@.remove(i)
                    }
                &&& final(imgs).names() == old(imgs).names().remove(
                    old(t).lookup(id)->Some_0.cover_view(),
                )
            },
            Err(e) => {
                &&& e == StoreError::NotFound
                &&& old(t).lookup(id) is None
                &&& *final(t) == *old(t)
                &&& *final(imgs) == *old(imgs)
            },
        },
{
    let cover = match t.fetch(id) {
        Ok(p) => p.cover().clone(),
        Err(e) => {
            return Err(e);
        },
    };
    proof {
        lemma_lookup_means_contains(t.rows@, id);
    }
    match t.delete(id) {
        Ok(()) => {
            imgs.remove(&cover);
            Ok(())
        },
        Err(e) => {
            proof {
                assert(false);
            }
            Err(e)
        },
    }
}

/// A row's payload is found by `lookup` exactly when its id is present.
pub proof fn lemma_lookup_means_contains<T>(rows: Seq<(u32, T)>, id: u32)
    ensures
        (lookup_rows(rows, id) is Some) == (exists|i: int|
            0 <= i < rows.len() && (#[trigger] rows[i]).0 == id),
    decreases rows.len(),
{
    if rows.len() > 0 {
        lemma_lookup_means_contains(rows.drop_first(), id);
        if rows[0].0 != id {
            assert forall|i: int|
                0 <= i < rows.len() && (#[trigger] rows[i]).0 == id implies (lookup_rows(
                rows,
                id,
            ) is Some) by {
                assert(rows.drop_first()[i - 1] == rows[i]);
            }
            if lookup_rows(rows, id) is Some {
                let i = choose|i: int|
                    0 <= i < rows.drop_first().len() && (#[trigger] rows.drop_first()[i]).0
                        == id;
                assert(rows[i + 1] == rows.drop_first()[i]);
            }
        }
    }
}

} // verus!
