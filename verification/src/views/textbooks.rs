//! The textbooks handlers. Textbooks carry a cover image: every mutation
//! follows the image protocol, and each states under which sharing
//! assumptions it keeps the cover files and the rows consistent.

use vstd::prelude::*;
use crate::content::{
    create_with_cover, delete_with_cover, lemma_covers_ok_grow, lemma_covers_ok_push,
    lemma_covers_ok_remove_row, lemma_covers_ok_shrink, lemma_covers_ok_update_row,
    lemma_lookup_means_contains, next_cover, next_cover_spec, no_ref, only_row_with_cover,
    update_with_cover, HasCover,
};
use crate::error::HistoryError;
use crate::models::textbook::{rows_match, NewTextBook, TextBook};
use crate::state::App;
use crate::store::lemma_lookup_after_push;
use crate::views::Redirect;

verus! {

/// The fields of a textbook as a multipart upload carries them: the text
/// fields, and the client-supplied filename of the cover part (empty when no
/// file was named).
pub struct TextBookWithImage {
    pub name: String,
    pub link: String,
    pub description: String,
    pub cover: String,
}

/// The list page.
pub struct TextBooksTemplate {
    pub textbooks: Vec<TextBook>,
}

/// The empty add form.
pub struct NewTextBookTemplate;

/// The edit form, seeded with the current values.
pub struct EditTextBookTemplate {
    pub textbook: TextBook,
}

pub fn all(app: &App) -> (t: TextBooksTemplate)
    requires
        app.wf(),
    ensures
        rows_match(app.textbooks.rows@, t.textbooks@),
        forall|i: int, j: int|
            0 <= i < j < t.textbooks@.len() ==> t.textbooks@[i].id < t.textbooks@[j].id,
{
    TextBooksTemplate { textbooks: TextBook::list(&app.textbooks) }
}

pub fn add() -> (t: NewTextBookTemplate) {
    NewTextBookTemplate {  }
}

pub fn edit(app: &App, id: u32) -> (r: Result<EditTextBookTemplate, HistoryError>)
    ensures
        match r {
            Ok(t) => app.textbooks.lookup(id) matches Some(p) && t.textbook.is_row(id, p),
            Err(e) => e == HistoryError::NotFound && app.textbooks.lookup(id) is None,
        },
{
    match TextBook::fetch(&app.textbooks, id) {
        Ok(textbook) => Ok(EditTextBookTemplate { textbook }),
        Err(e) => Err(HistoryError::from_fetch(e)),
    }
}

/// Writes the named cover file, then inserts the row. Consistency is kept
/// outright: the new file only adds to the image store.
pub fn create(app: &mut App, upload: TextBookWithImage) -> (r: Result<Redirect, HistoryError>)
    requires
        old(app).wf(),
    ensures
        final(app).wf(),
        old(app).agrees_except_textbooks(*final(app)),
        final(app).images.names() == (if upload.cover@.len() == 0 {
            old(app).images.names()
        } else {
            old(app).images.names().insert(upload.cover@)
        }),
        old(app).covers_consistent() ==> final(app).covers_consistent(),
        match r {
            Ok(rd) => {
                &&& rd.location@ == "/textbooks"@
                &&& final(app).textbooks.rows@ =~= old(app).textbooks.rows@.push(
                    (
                        old(app).textbooks.next_id,
                        (NewTextBook {
                            name: upload.name,
                            link: upload.link,
                            description: upload.description,
                            cover: upload.cover,
                        }),
                    ),
                )
                &&& final(app).textbooks.lookup(old(app).textbooks.next_id) == Some(
                    NewTextBook {
                        name: upload.name,
                        link: upload.link,
                        description: upload.description,
                        cover: upload.cover,
                    },
                )
            },
            Err(e) => e == HistoryError::InternalError && final(app).textbooks == old(app).textbooks
                && old(app).textbooks.next_id == u32::MAX,
        },
{
    let item = NewTextBook {
        name: upload.name,
        link: upload.link,
        description: upload.description,
        cover: upload.cover,
    };
    let ghost pre_rows = app.textbooks.rows@;
    let ghost pre_names = app.images.names();
    let r = create_with_cover(&mut app.textbooks, &mut app.images, item);
    proof {
        if old(app).covers_consistent() {
            assert(pre_names.subset_of(app.images.names()));
            lemma_covers_ok_grow(pre_rows, pre_names, app.images.names());
            lemma_covers_ok_grow(old(app).texts.rows@, pre_names, app.images.names());
            lemma_covers_ok_grow(old(app).posts.rows@, pre_names, app.images.names());
            if r is Ok {
                lemma_covers_ok_push(
                    pre_rows,
                    app.images.names(),
                    old(app).textbooks.next_id,
                    item,
                );
            }
        }
    }
    match r {
        Ok(id) => {
            proof {
                lemma_lookup_after_push(pre_rows, id, item);
            }
            Ok(Redirect::to("/textbooks"))
        },
        Err(e) => Err(HistoryError::from_mutation(e)),
    }
}

/// Fetches the old row (a missing id surfaces as an internal error, as for
/// every mutation of an absent id), computes the new
/// cover filename — an empty upload keeps the old cover — and follows the
/// protocol: write new file, update row, remove old file. Consistency is kept
/// when the replaced cover file was not shared with any other row.
pub fn update(app: &mut App, id: u32, upload: TextBookWithImage) -> (r: Result<
    Redirect,
    HistoryError,
>)
    requires
        old(app).wf(),
    ensures
        final(app).wf(),
        old(app).agrees_except_textbooks(*final(app)),
        match r {
            Ok(rd) => {
                &&& rd.location@ == "/textbooks"@
                &&& old(app).textbooks.lookup(id) matches Some(p) && {
                    let nc = next_cover_spec(p.cover@, upload.cover@, false, 0);
                    &&& exists|i: int|
                        {
                            &&& 0 <= i < old(app).textbooks.rows@.len()
                            &&& (#[trigger] old(app).textbooks.rows@[i]).0 == id
                            &&& final(app).textbooks.rows@.len() == old(app).textbooks.rows@.len()
                            &&& (forall|k: int|
                                0 <= k < old(app).textbooks.rows@.len() && k != i
                                    ==> final(app).textbooks.rows@[k] == old(app).textbooks.rows@[k])
                            &&& final(app).textbooks.rows@[i].0 == id
                            &&& final(app).textbooks.rows@[i].1.name@ == upload.name@
                            &&& final(app).textbooks.rows@[i].1.link@ == upload.link@
                            &&& final(app).textbooks.rows@[i].1.description@
                                == upload.description@
                            &&& final(app).textbooks.rows@[i].1.cover@ == nc
                        }
                    &&& final(app).images.names() == (if nc == p.cover@ {
                        old(app).images.names()
                    } else {
                        old(app).images.names().insert(nc).remove(p.cover@)
                    })
                    &&& final(app).textbooks.lookup(id) matches Some(q) && q.name@
                        == upload.name@ && q.link@ == upload.link@ && q.description@
                        == upload.description@ && q.cover@ == nc
                    &&& (old(app).covers_consistent() && (nc == p.cover@ || (
                    only_row_with_cover(old(app).textbooks.rows@, id, p.cover@) && no_ref(
                        old(app).texts.rows@,
                        p.cover@,
                    ) && no_ref(old(app).posts.rows@, p.cover@)))) ==> final(app).covers_consistent()
                }
            },
            Err(e) => {
                // the store's NotFound surfaces as an internal error here
                &&& e == HistoryError::InternalError
                &&& old(app).textbooks.lookup(id) is None
                &&& *final(app) == *old(app)
            },
        },
{
    let old_item = match TextBook::fetch(&app.textbooks, id) {
        Ok(p) => p,
        Err(e) => {
            return Err(HistoryError::from_mutation(e));
        },
    };
    let nc = next_cover(&old_item.cover, &upload.cover, false, 0);
    let item = NewTextBook {
        name: upload.name,
        link: upload.link,
        description: upload.description,
        cover: nc,
    };
    let ghost pre_rows = app.textbooks.rows@;
    let ghost pre_names = app.images.names();
    let ghost oc = old_item.cover@;
    let ghost ncv = item.cover@;
    proof {
        lemma_lookup_means_contains(pre_rows, id);
    }
    match update_with_cover(&mut app.textbooks, &mut app.images, id, item, &old_item.cover) {
        Ok(()) => {
            proof {
                let i = choose|i: int|
                    {
                        &&& 0 <= i < pre_rows.len()
                        &&& (#[trigger] pre_rows[i]).0 == id
                        &&& app.textbooks.rows@ =~= pre_rows.update(i, (id, item))
                    };
                crate::store::lemma_lookup_after_update(pre_rows, i, id, item);
                crate::store::lemma_lookup_at_index(pre_rows, i, id);
                assert(pre_rows[i].1.cover@ == oc);
                if old(app).covers_consistent() {
                    if ncv == oc {
                        assert(pre_names.contains(oc) || oc.len() == 0);
                        lemma_covers_ok_update_row(pre_rows, pre_names, i, id, item);
                    } else if only_row_with_cover(pre_rows, id, oc) && no_ref(
                        old(app).texts.rows@,
                        oc,
                    ) && no_ref(old(app).posts.rows@, oc) {
                        let grown = pre_names.insert(ncv);
                        assert(pre_names.subset_of(grown));
                        lemma_covers_ok_grow(pre_rows, pre_names, grown);
                        lemma_covers_ok_update_row(pre_rows, grown, i, id, item);
                        lemma_covers_ok_shrink(pre_rows.update(i, (id, item)), grown, oc);
                        lemma_covers_ok_grow(old(app).texts.rows@, pre_names, grown);
                        lemma_covers_ok_shrink(old(app).texts.rows@, grown, oc);
                        lemma_covers_ok_grow(old(app).posts.rows@, pre_names, grown);
                        lemma_covers_ok_shrink(old(app).posts.rows@, grown, oc);
                    }
                }
            }
            Ok(Redirect::to("/textbooks"))
        },
        Err(_) => {
            proof {
                assert(false);
            }
            Err(HistoryError::InternalError)
        },
    }
}

/// Fetches the row (a missing id surfaces as an internal error, as for
/// every mutation of an absent id), removes it, then
/// removes its cover file. Consistency is kept when the removed cover file
/// was not shared with any other row.
pub fn delete(app: &mut App, id: u32) -> (r: Result<Redirect, HistoryError>)
    requires
        old(app).wf(),
    ensures
        final(app).wf(),
        old(app).agrees_except_textbooks(*final(app)),
        match r {
            Ok(rd) => {
                &&& rd.location@ == "/textbooks"@
                &&& old(app).textbooks.lookup(id) matches Some(p) && {
                    &&& exists|i: int|
                        {
                            &&& 0 <= i < old(app).textbooks.rows@.len()
                            &&& (#[trigger] old(app).textbooks.rows@[i]).0 == id
                            &&& final(app).textbooks.rows@ =~= old(app).textbooks.rows@.remove(i)
                        }
                    &&& final(app).images.names() == old(app).images.names().remove(p.cover@)
                    &&& final(app).textbooks.lookup(id) is None
                    &&& (old(app).covers_consistent() && only_row_with_cover(
                        old(app).textbooks.rows@,
                        id,
                        p.cover@,
                    ) && no_ref(old(app).texts.rows@, p.cover@) && no_ref(
                        old(app).posts.rows@,
                        p.cover@,
                    )) ==> final(app).covers_consistent()
                }
            },
            Err(e) => {
                // the store's NotFound surfaces as an internal error here
                &&& e == HistoryError::InternalError
                &&& old(app).textbooks.lookup(id) is None
                &&& *final(app) == *old(app)
            },
        },
{
    let ghost pre_rows = app.textbooks.rows@;
    let ghost pre_names = app.images.names();
    match delete_with_cover(&mut app.textbooks, &mut app.images, id) {
        Ok(()) => {
            proof {
                let ghost oc = crate::store::lookup_rows(pre_rows, id)->Some_0.cover@;
                let i = choose|i: int|
                    {
                        &&& 0 <= i < pre_rows.len()
                        &&& (#[trigger] pre_rows[i]).0 == id
                        &&& app.textbooks.rows@ =~= pre_rows.remove(i)
                    };
                crate::store::lemma_lookup_after_remove(pre_rows, i, id);
                if old(app).covers_consistent() && only_row_with_cover(pre_rows, id, oc)
                    && no_ref(old(app).texts.rows@, oc) && no_ref(old(app).posts.rows@, oc) {
                    lemma_covers_ok_remove_row(pre_rows, pre_names, i);
                    assert forall|k: int|
                        0 <= k < pre_rows.remove(i).len() implies (#[trigger] pre_rows.remove(
                        i,
                    )[k]).1.cover_view() != oc by {
                        if k < i {
                            assert(pre_rows.remove(i)[k] == pre_rows[k]);
                        } else {
                            assert(pre_rows.remove(i)[k] == pre_rows[k + 1]);
                        }
                    }
                    lemma_covers_ok_shrink(pre_rows.remove(i), pre_names, oc);
                    lemma_covers_ok_shrink(old(app).texts.rows@, pre_names, oc);
                    lemma_covers_ok_shrink(old(app).posts.rows@, pre_names, oc);
                }
            }
            Ok(Redirect::to("/textbooks"))
        },
        Err(e) => Err(HistoryError::from_mutation(e)),
    }
}

} // verus!
