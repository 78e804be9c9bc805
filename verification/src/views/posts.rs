//! The blog-post handlers. Posts carry a cover image whose stored filename
//! is stamped with the upload second: every mutation follows the image
//! protocol, and each states under which sharing assumptions it keeps the
//! cover files and the rows consistent.

use vstd::prelude::*;
use crate::content::{
    create_with_cover, delete_with_cover, lemma_covers_ok_grow, lemma_covers_ok_push,
    lemma_covers_ok_remove_row, lemma_covers_ok_shrink, lemma_covers_ok_update_row,
    lemma_lookup_means_contains, next_cover, next_cover_spec, no_ref, only_row_with_cover,
    post_cover_name, post_cover_name_spec, update_with_cover, HasCover,
};
use crate::chars::lemma_dec_digits_nonempty;
use crate::error::HistoryError;
use crate::models::post::{rows_match, NewPost, Post};
use crate::state::App;
use crate::store::lemma_lookup_after_push;
use crate::views::Redirect;

verus! {

/// The fields of a post as a multipart upload carries them: the text fields,
/// and the client-supplied filename of the cover part (empty when no file was
/// named).
pub struct PostWithImage {
    pub title: String,
    pub lead: String,
    pub body: String,
    pub cover: String,
}

/// The list page.
pub struct PostsTemplate {
    pub posts: Vec<Post>,
}

/// The empty add form.
pub struct NewPostTemplate;

/// The edit form, seeded with the current values.
pub struct EditPostTemplate {
    pub post: Post,
}

pub fn all(app: &App) -> (t: PostsTemplate)
    requires
        app.wf(),
    ensures
        rows_match(app.posts.rows@, t.posts@),
        forall|i: int, j: int|
            0 <= i < j < t.posts@.len() ==> t.posts@[i].id < t.posts@[j].id,
{
    PostsTemplate { posts: Post::list(&app.posts) }
}

pub fn add() -> (t: NewPostTemplate) {
    NewPostTemplate {  }
}

pub fn edit(app: &App, id: u32) -> (r: Result<EditPostTemplate, HistoryError>)
    ensures
        match r {
            Ok(t) => app.posts.lookup(id) matches Some(p) && t.post.is_row(id, p),
            Err(e) => e == HistoryError::NotFound && app.posts.lookup(id) is None,
        },
{
    match Post::fetch(&app.posts, id) {
        Ok(post) => Ok(EditPostTemplate { post }),
        Err(e) => Err(HistoryError::from_fetch(e)),
    }
}

/// Stamps the upload second onto the client-supplied cover filename, writes
/// the cover file, then inserts the row. Consistency is kept outright: the
/// new file only adds to the image store.
pub fn create(app: &mut App, stamp: u64, upload: PostWithImage) -> (r: Result<
    Redirect,
    HistoryError,
>)
    requires
        old(app).wf(),
    ensures
        final(app).wf(),
        old(app).agrees_except_posts(*final(app)),
        final(app).images.names() == old(app).images.names().insert(
            post_cover_name_spec(stamp, upload.cover@),
        ),
        old(app).covers_consistent() ==> final(app).covers_consistent(),
        match r {
            Ok(rd) => {
                &&& rd.location@ == "/posts"@
                &&& final(app).posts.rows@.len() == old(app).posts.rows@.len() + 1
                &&& (forall|k: int|
                    0 <= k < old(app).posts.rows@.len() ==> final(app).posts.rows@[k] == old(
                        app,
                    ).posts.rows@[k])
                &&& final(app).posts.rows@.last().0 == old(app).posts.next_id
                &&& final(app).posts.rows@.last().1.title@ == upload.title@
                &&& final(app).posts.rows@.last().1.lead@ == upload.lead@
                &&& final(app).posts.rows@.last().1.body@ == upload.body@
                &&& final(app).posts.rows@.last().1.cover@ == post_cover_name_spec(
                    stamp,
                    upload.cover@,
                )
                &&& final(app).posts.lookup(old(app).posts.next_id) == Some(
                    final(app).posts.rows@.last().1,
                )
            },
            Err(e) => e == HistoryError::InternalError && final(app).posts == old(app).posts
                && old(app).posts.next_id == u32::MAX,
        },
{
    let cover = post_cover_name(stamp, &upload.cover);
    proof {
        lemma_dec_digits_nonempty(stamp as nat);
    }
    let item = NewPost { title: upload.title, lead: upload.lead, body: upload.body, cover };
    let ghost gitem = item;
    let ghost pre_rows = app.posts.rows@;
    let ghost pre_names = app.images.names();
    let r = create_with_cover(&mut app.posts, &mut app.images, item);
    proof {
        if old(app).covers_consistent() {
            assert(pre_names.subset_of(app.images.names()));
            lemma_covers_ok_grow(pre_rows, pre_names, app.images.names());
            lemma_covers_ok_grow(old(app).textbooks.rows@, pre_names, app.images.names());
            lemma_covers_ok_grow(old(app).texts.rows@, pre_names, app.images.names());
            if r is Ok {
                lemma_covers_ok_push(pre_rows, app.images.names(), old(app).posts.next_id, gitem);
            }
        }
    }
    match r {
        Ok(id) => {
            proof {
                lemma_lookup_after_push(pre_rows, id, gitem);
            }
            Ok(Redirect::to("/posts"))
        },
        Err(e) => Err(HistoryError::from_mutation(e)),
    }
}

/// Fetches the old row (a missing id surfaces as an internal error, as for
/// every mutation of an absent id), computes the new
/// cover filename — an empty upload keeps the old cover — and follows the
/// protocol: write new file, update row, remove old file. Consistency is kept
/// when the replaced cover file was not shared with any other row.
pub fn update(app: &mut App, id: u32, stamp: u64, upload: PostWithImage) -> (r: Result<
    Redirect,
    HistoryError,
>)
    requires
        old(app).wf(),
    ensures
        final(app).wf(),
        old(app).agrees_except_posts(*final(app)),
        match r {
            Ok(rd) => {
                &&& rd.location@ == "/posts"@
                &&& old(app).posts.lookup(id) matches Some(p) && {
                    let nc = next_cover_spec(p.cover@, upload.cover@, true, stamp);
                    &&& exists|i: int|
                        {
                            &&& 0 <= i < old(app).posts.rows@.len()
                            &&& (#[trigger] old(app).posts.rows@[i]).0 == id
                            &&& final(app).posts.rows@.len() == old(app).posts.rows@.len()
                            &&& (forall|k: int|
                                0 <= k < old(app).posts.rows@.len() && k != i
                                    ==> final(app).posts.rows@[k] == old(app).posts.rows@[k])
                            &&& final(app).posts.rows@[i].0 == id
                            &&& final(app).posts.rows@[i].1.title@ == upload.title@
                            &&& final(app).posts.rows@[i].1.lead@ == upload.lead@
                            &&& final(app).posts.rows@[i].1.body@
                                == upload.body@
                            &&& final(app).posts.rows@[i].1.cover@ == nc
                        }
                    &&& final(app).images.names() == (if nc == p.cover@ {
                        old(app).images.names()
                    } else {
                        old(app).images.names().insert(nc).remove(p.cover@)
                    })
                    &&& final(app).posts.lookup(id) matches Some(q) && q.title@
                        == upload.title@ && q.lead@ == upload.lead@ && q.body@
                        == upload.body@ && q.cover@ == nc
                    &&& (old(app).covers_consistent() && (nc == p.cover@ || (
                    only_row_with_cover(old(app).posts.rows@, id, p.cover@) && no_ref(
                        old(app).texts.rows@,
                        p.cover@,
                    ) && no_ref(old(app).textbooks.rows@, p.cover@)))) ==> final(app).covers_consistent()
                }
            },
            Err(e) => {
                // the store's NotFound surfaces as an internal error here
                &&& e == HistoryError::InternalError
                &&& old(app).posts.lookup(id) is None
                &&& *final(app) == *old(app)
            },
        },
{
    let old_item = match Post::fetch(&app.posts, id) {
        Ok(p) => p,
        Err(e) => {
            return Err(HistoryError::from_mutation(e));
        },
    };
    let nc = next_cover(&old_item.cover, &upload.cover, true, stamp);
    let item = NewPost { title: upload.title, lead: upload.lead, body: upload.body, cover: nc };
    let ghost pre_rows = app.posts.rows@;
    let ghost pre_names = app.images.names();
    let ghost oc = old_item.cover@;
    let ghost ncv = item.cover@;
    proof {
        lemma_lookup_means_contains(pre_rows, id);
    }
    match update_with_cover(&mut app.posts, &mut app.images, id, item, &old_item.cover) {
        Ok(()) => {
            proof {
                let i = choose|i: int|
                    {
                        &&& 0 <= i < pre_rows.len()
                        &&& (#[trigger] pre_rows[i]).0 == id
                        &&& app.posts.rows@ =~= pre_rows.update(i, (id, item))
                    };
                crate::store::lemma_lookup_after_update(pre_rows, i, id, item);
                crate::store::lemma_lookup_at_index(pre_rows, i, id);
                assert(pre_rows[i].1.cover@ == oc);
                if old(app).covers_consistent() {
                    if ncv == oc {
                        assert(pre_names.contains(oc) || oc.len() == 0);
                        lemma_covers_ok_update_row(pre_rows, pre_names, i, id, item);
                    } else if only_row_with_cover(pre_rows, id, oc) && no_ref(
                        old(app).texts.rows@,
                        oc,
                    ) && no_ref(old(app).textbooks.rows@, oc) {
                        let grown = pre_names.insert(ncv);
                        assert(pre_names.subset_of(grown));
                        lemma_covers_ok_grow(pre_rows, pre_names, grown);
                        lemma_covers_ok_update_row(pre_rows, grown, i, id, item);
                        lemma_covers_ok_shrink(pre_rows.update(i, (id, item)), grown, oc);
                        lemma_covers_ok_grow(old(app).texts.rows@, pre_names, grown);
                        lemma_covers_ok_shrink(old(app).texts.rows@, grown, oc);
                        lemma_covers_ok_grow(old(app).textbooks.rows@, pre_names, grown);
                        lemma_covers_ok_shrink(old(app).textbooks.rows@, grown, oc);
                    }
                }
            }
            Ok(Redirect::to("/posts"))
        },
        Err(_) => {
            proof {
                assert(false);
            }
            Err(HistoryError::InternalError)
        },
    }
}

/// Fetches the row (a missing id surfaces as an internal error, as for
/// every mutation of an absent id), removes it, then
/// removes its cover file. Consistency is kept when the removed cover file
/// was not shared with any other row.
pub fn delete(app: &mut App, id: u32) -> (r: Result<Redirect, HistoryError>)
    requires
        old(app).wf(),
    ensures
        final(app).wf(),
        old(app).agrees_except_posts(*final(app)),
        match r {
            Ok(rd) => {
                &&& rd.location@ == "/posts"@
                &&& old(app).posts.lookup(id) matches Some(p) && {
                    &&& exists|i: int|
                        {
                            &&& 0 <= i < old(app).posts.rows@.len()
                            &&& (#[trigger] old(app).posts.rows@[i]).0 == id
                            &&& final(app).posts.rows@ =~= old(app).posts.rows@.remove(i)
                        }
                    &&& final(app).images.names() == old(app).images.names().remove(p.cover@)
                    &&& final(app).posts.lookup(id) is None
                    &&& (old(app).covers_consistent() && only_row_with_cover(
                        old(app).posts.rows@,
                        id,
                        p.cover@,
                    ) && no_ref(old(app).texts.rows@, p.cover@) && no_ref(
                        old(app).textbooks.rows@,
                        p.cover@,
                    )) ==> final(app).covers_consistent()
                }
            },
            Err(e) => {
                // the store's NotFound surfaces as an internal error here
                &&& e == HistoryError::InternalError
                &&& old(app).posts.lookup(id) is None
                &&& *final(app) == *old(app)
            },
        },
{
    let ghost pre_rows = app.posts.rows@;
    let ghost pre_names = app.images.names();
    match delete_with_cover(&mut app.posts, &mut app.images, id) {
        Ok(()) => {
            proof {
                let ghost oc = crate::store::lookup_rows(pre_rows, id)->Some_0.cover@;
                let i = choose|i: int|
                    {
                        &&& 0 <= i < pre_rows.len()
                        &&& (#[trigger] pre_rows[i]).0 == id
                        &&& app.posts.rows@ =~= pre_rows.remove(i)
                    };
                crate::store::lemma_lookup_after_remove(pre_rows, i, id);
                if old(app).covers_consistent() && only_row_with_cover(pre_rows, id, oc)
                    && no_ref(old(app).texts.rows@, oc) && no_ref(old(app).textbooks.rows@, oc) {
                    lemma_covers_ok_remove_row(pre_rows, pre_names, i);
                    assert forall|k: int|
                        0 <= k < pre_rows.remove(i).len() implies (#[trigger] pre_rows.remove(
                        i,
                    )[k]).1.cover_view() != oc by {
                        if k < i {
                            assert(pre_rows.remove(i)[k] == pre_rows[k]);
                        } else {
                            assert(pre_rows.remove(i)[k] == pre_rows[k + 1]);
                        }
                    }
                    lemma_covers_ok_shrink(pre_rows.remove(i), pre_names, oc);
                    lemma_covers_ok_shrink(old(app).texts.rows@, pre_names, oc);
                    lemma_covers_ok_shrink(old(app).textbooks.rows@, pre_names, oc);
                }
            }
            Ok(Redirect::to("/posts"))
        },
        Err(e) => Err(HistoryError::from_mutation(e)),
    }
}

} // verus!
