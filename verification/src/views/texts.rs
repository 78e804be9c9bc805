//! The texts handlers. Texts carry a cover image, named by the form's
//! `cover` field: every mutation follows the image protocol, and each states
//! under which sharing assumptions it keeps the cover files and the rows
//! consistent.

use vstd::prelude::*;
use crate::content::{
    create_with_cover, delete_with_cover, lemma_covers_ok_grow, lemma_covers_ok_push,
    lemma_covers_ok_remove_row, lemma_covers_ok_shrink, lemma_covers_ok_update_row,
    lemma_lookup_means_contains, next_cover, next_cover_spec, no_ref, only_row_with_cover,
    update_with_cover, HasCover,
};
use crate::error::HistoryError;
use crate::models::text::{rows_match, NewText, Text};
use crate::state::App;
use crate::store::lemma_lookup_after_push;
use crate::views::Redirect;

verus! {

/// The list page.
pub struct TextsTemplate {
    pub texts: Vec<Text>,
}

/// The empty add form.
pub struct NewTextTemplate;

/// The edit form, seeded with the current values.
pub struct EditTextTemplate {
    pub text: Text,
}

pub fn all(app: &App) -> (t: TextsTemplate)
    requires
        app.wf(),
    ensures
        rows_match(app.texts.rows@, t.texts@),
        forall|i: int, j: int|
            0 <= i < j < t.texts@.len() ==> t.texts@[i].id < t.texts@[j].id,
{
    TextsTemplate { texts: Text::list(&app.texts) }
}

pub fn add() -> (t: NewTextTemplate) {
    NewTextTemplate {  }
}

pub fn edit(app: &App, id: u32) -> (r: Result<EditTextTemplate, HistoryError>)
    ensures
        match r {
            Ok(t) => app.texts.lookup(id) matches Some(p) && t.text.is_row(id, p),
            Err(e) => e == HistoryError::NotFound && app.texts.lookup(id) is None,
        },
{
    match Text::fetch(&app.texts, id) {
        Ok(text) => Ok(EditTextTemplate { text }),
        Err(e) => Err(HistoryError::from_fetch(e)),
    }
}

/// Writes the named cover file, then inserts the row. Consistency is kept
/// outright: the new file only adds to the image store.
pub fn create(app: &mut App, new_text: NewText) -> (r: Result<Redirect, HistoryError>)
    requires
        old(app).wf(),
    ensures
        final(app).wf(),
        old(app).agrees_except_texts(*final(app)),
        final(app).images.names() == (if new_text.cover@.len() == 0 {
            old(app).images.names()
        } else {
            old(app).images.names().insert(new_text.cover@)
        }),
        old(app).covers_consistent() ==> final(app).covers_consistent(),
        match r {
            Ok(rd) => {
                &&& rd.location@ == "/texts"@
                &&& final(app).texts.rows@ =~= old(app).texts.rows@.push(
                    (old(app).texts.next_id, new_text),
                )
                &&& final(app).texts.lookup(old(app).texts.next_id) == Some(new_text)
            },
            Err(e) => e == HistoryError::InternalError && final(app).texts == old(app).texts
                && old(app).texts.next_id == u32::MAX,
        },
{
    let ghost item = new_text;
    let ghost pre_rows = app.texts.rows@;
    let ghost pre_names = app.images.names();
    let r = create_with_cover(&mut app.texts, &mut app.images, new_text);
    proof {
        if old(app).covers_consistent() {
            assert(pre_names.subset_of(app.images.names()));
            lemma_covers_ok_grow(pre_rows, pre_names, app.images.names());
            lemma_covers_ok_grow(old(app).textbooks.rows@, pre_names, app.images.names());
            lemma_covers_ok_grow(old(app).posts.rows@, pre_names, app.images.names());
            if r is Ok {
                lemma_covers_ok_push(pre_rows, app.images.names(), old(app).texts.next_id, item);
            }
        }
    }
    match r {
        Ok(id) => {
            proof {
                lemma_lookup_after_push(pre_rows, id, item);
            }
            Ok(Redirect::to("/texts"))
        },
        Err(e) => Err(HistoryError::from_mutation(e)),
    }
}

/// Fetches the old row (a missing id surfaces as an internal error, as for
/// every mutation of an absent id), computes the new
/// cover filename — an empty `cover` field keeps the old cover — and follows
/// the protocol: write new file, update row, remove old file. Consistency is
/// kept when the replaced cover file was not shared with any other row.
pub fn update(app: &mut App, id: u32, updated_text: NewText) -> (r: Result<
    Redirect,
    HistoryError,
>)
    requires
        old(app).wf(),
    ensures
        final(app).wf(),
        old(app).agrees_except_texts(*final(app)),
        match r {
            Ok(rd) => {
                &&& rd.location@ == "/texts"@
                &&& old(app).texts.lookup(id) matches Some(p) && {
                    let nc = next_cover_spec(p.cover@, updated_text.cover@, false, 0);
                    &&& exists|i: int|
                        {
                            &&& 0 <= i < old(app).texts.rows@.len()
                            &&& (#[trigger] old(app).texts.rows@[i]).0 == id
                            &&& final(app).texts.rows@.len() == old(app).texts.rows@.len()
                            &&& (forall|k: int|
                                0 <= k < old(app).texts.rows@.len() && k != i
                                    ==> final(app).texts.rows@[k] == old(app).texts.rows@[k])
                            &&& final(app).texts.rows@[i].0 == id
                            &&& final(app).texts.rows@[i].1.name@ == updated_text.name@
                            &&& final(app).texts.rows@[i].1.link@ == updated_text.link@
                            &&& final(app).texts.rows@[i].1.description@
                                == updated_text.description@
                            &&& final(app).texts.rows@[i].1.cover@ == nc
                        }
                    &&& final(app).images.names() == (if nc == p.cover@ {
                        old(app).images.names()
                    } else {
                        old(app).images.names().insert(nc).remove(p.cover@)
                    })
                    &&& final(app).texts.lookup(id) matches Some(q) && q.name@
                        == updated_text.name@ && q.link@ == updated_text.link@ && q.description@
                        == updated_text.description@ && q.cover@ == nc
                    &&& (old(app).covers_consistent() && (nc == p.cover@ || (
                    only_row_with_cover(old(app).texts.rows@, id, p.cover@) && no_ref(
                        old(app).textbooks.rows@,
                        p.cover@,
                    ) && no_ref(old(app).posts.rows@, p.cover@)))) ==> final(app).covers_consistent()
                }
            },
            Err(e) => {
                // the store's NotFound surfaces as an internal error here
                &&& e == HistoryError::InternalError
                &&& old(app).texts.lookup(id) is None
                &&& *final(app) == *old(app)
            },
        },
{
    let old_item = match Text::fetch(&app.texts, id) {
        Ok(p) => p,
        Err(e) => {
            return Err(HistoryError::from_mutation(e));
        },
    };
    let nc = next_cover(&old_item.cover, &updated_text.cover, false, 0);
    let item = NewText {
        name: updated_text.name,
        link: updated_text.link,
        description: updated_text.description,
        cover: nc,
    };
    let ghost pre_rows = app.texts.rows@;
    let ghost pre_names = app.images.names();
    let ghost oc = old_item.cover@;
    let ghost ncv = item.cover@;
    proof {
        lemma_lookup_means_contains(pre_rows, id);
    }
    match update_with_cover(&mut app.texts, &mut app.images, id, item, &old_item.cover) {
        Ok(()) => {
            proof {
                let i = choose|i: int|
                    {
                        &&& 0 <= i < pre_rows.len()
                        &&& (#[trigger] pre_rows[i]).0 == id
                        &&& app.texts.rows@ =~= pre_rows.update(i, (id, item))
                    };
                crate::store::lemma_lookup_after_update(pre_rows, i, id, item);
                crate::store::lemma_lookup_at_index(pre_rows, i, id);
                assert(pre_rows[i].1.cover@ == oc);
                if old(app).covers_consistent() {
                    if ncv == oc {
                        assert(pre_names.contains(oc) || oc.len() == 0);
                        lemma_covers_ok_update_row(pre_rows, pre_names, i, id, item);
                    } else if only_row_with_cover(pre_rows, id, oc) && no_ref(
                        old(app).textbooks.rows@,
                        oc,
                    ) && no_ref(old(app).posts.rows@, oc) {
                        let grown = pre_names.insert(ncv);
                        assert(pre_names.subset_of(grown));
                        lemma_covers_ok_grow(pre_rows, pre_names, grown);
                        lemma_covers_ok_update_row(pre_rows, grown, i, id, item);
                        lemma_covers_ok_shrink(pre_rows.update(i, (id, item)), grown, oc);
                        lemma_covers_ok_grow(old(app).textbooks.rows@, pre_names, grown);
                        lemma_covers_ok_shrink(old(app).textbooks.rows@, grown, oc);
                        lemma_covers_ok_grow(old(app).posts.rows@, pre_names, grown);
                        lemma_covers_ok_shrink(old(app).posts.rows@, grown, oc);
                    }
                }
            }
            Ok(Redirect::to("/texts"))
        },
        Err(_) => {
            proof {
                assert(false);
            }
            Err(HistoryError::InternalError)
        },
    }
}

/// Fetches the row (a missing id surfaces as an internal error, as for
/// every mutation of an absent id), removes it, then
/// removes its cover file. Consistency is kept when the removed cover file
/// was not shared with any other row.
pub fn delete(app: &mut App, id: u32) -> (r: Result<Redirect, HistoryError>)
    requires
        old(app).wf(),
    ensures
        final(app).wf(),
        old(app).agrees_except_texts(*final(app)),
        match r {
            Ok(rd) => {
                &&& rd.location@ == "/texts"@
                &&& old(app).texts.lookup(id) matches Some(p) && {
                    &&& exists|i: int|
                        {
                            &&& 0 <= i < old(app).texts.rows@.len()
                            &&& (#[trigger] old(app).texts.rows@[i]).0 == id
                            &&& final(app).texts.rows@ =~= old(app).texts.rows@.remove(i)
                        }
                    &&& final(app).images.names() == old(app).images.names().remove(p.cover@)
                    &&& final(app).texts.lookup(id) is None
                    &&& (old(app).covers_consistent() && only_row_with_cover(
                        old(app).texts.rows@,
                        id,
                        p.cover@,
                    ) && no_ref(old(app).textbooks.rows@, p.cover@) && no_ref(
                        old(app).posts.rows@,
                        p.cover@,
                    )) ==> final(app).covers_consistent()
                }
            },
            Err(e) => {
                // the store's NotFound surfaces as an internal error here
                &&& e == HistoryError::InternalError
                &&& old(app).texts.lookup(id) is None
                &&& *final(app) == *old(app)
            },
        },
{
    let ghost pre_rows = app.texts.rows@;
    let ghost pre_names = app.images.names();
    match delete_with_cover(&mut app.texts, &mut app.images, id) {
        Ok(()) => {
            proof {
                let ghost oc = crate::store::lookup_rows(pre_rows, id)->Some_0.cover@;
                let i = choose|i: int|
                    {
                        &&& 0 <= i < pre_rows.len()
                        &&& (#[trigger] pre_rows[i]).0 == id
                        &&& app.texts.rows@ =~= pre_rows.remove(i)
                    };
                crate::store::lemma_lookup_after_remove(pre_rows, i, id);
                if old(app).covers_consistent() && only_row_with_cover(pre_rows, id, oc)
                    && no_ref(old(app).textbooks.rows@, oc) && no_ref(old(app).posts.rows@, oc) {
                    lemma_covers_ok_remove_row(pre_rows, pre_names, i);
                    assert forall|k: int|
                        0 <= k < pre_rows.remove(i).len() implies (#[trigger] pre_rows.remove(
                        i,
                    )[k]).1.cover_view() != oc by {
                        if k < i {
                            assert(pre_rows.remove(i)[k] == pre_rows[k]);
                        } else {
                            assert(pre_rows.remove(i)[k] == pre_rows[k + 1]);
                        }
                    }
                    lemma_covers_ok_shrink(pre_rows.remove(i), pre_names, oc);
                    lemma_covers_ok_shrink(old(app).textbooks.rows@, pre_names, oc);
                    lemma_covers_ok_shrink(old(app).posts.rows@, pre_names, oc);
                }
            }
            Ok(Redirect::to("/texts"))
        },
        Err(e) => Err(HistoryError::from_mutation(e)),
    }
}

} // verus!
