//! The publications handlers: list, forms, create, update, delete.
//! Publications carry no cover image, so mutations touch the table alone.

use vstd::prelude::*;
use crate::error::HistoryError;
use crate::models::publication::{rows_match, NewPublication, Publication};
use crate::state::App;
use crate::views::Redirect;

verus! {

/// The list page.
pub struct PublicationsTemplate {
    pub publications: Vec<Publication>,
}

/// The empty add form.
pub struct NewPublicationTemplate;

/// The edit form, seeded with the current values.
pub struct EditPublicationTemplate {
    pub publication: Publication,
}

pub fn all(app: &App) -> (t: PublicationsTemplate)
    requires
        app.wf(),
    ensures
        rows_match(app.publications.rows@, t.publications@),
        forall|i: int, j: int| 0 <= i < j < t.publications@.len() ==> t.publications@[i].id < t.publications@[j].id,
{
    PublicationsTemplate { publications: Publication::list(&app.publications) }
}

pub fn add() -> (t: NewPublicationTemplate) {
    NewPublicationTemplate {  }
}

pub fn create(app: &mut App, new_publication: NewPublication) -> (r: Result<Redirect, HistoryError>)
    requires
        old(app).wf(),
    ensures
        final(app).wf(),
        old(app).agrees_except_publications(*final(app)),
        old(app).covers_consistent() ==> final(app).covers_consistent(),
        match r {
            Ok(rd) => {
                &&& rd.location@ == "/publications"@
                &&& final(app).publications.rows@ =~= old(app).publications.rows@.push(
                    (old(app).publications.next_id, new_publication),
                )
                &&& final(app).publications.lookup(old(app).publications.next_id) == Some(new_publication)
            },
            Err(e) => e == HistoryError::InternalError && final(app).publications == old(app).publications
                && old(app).publications.next_id == u32::MAX,
        },
{
    let ghost pre = app.publications;
    match Publication::create(&mut app.publications, new_publication) {
        Ok(id) => {
            proof {
                crate::store::lemma_lookup_after_push(pre.rows@, id, new_publication);
            }
            Ok(Redirect::to("/publications"))
        },
        Err(e) => Err(HistoryError::from_mutation(e)),
    }
}

pub fn edit(app: &App, id: u32) -> (r: Result<EditPublicationTemplate, HistoryError>)
    ensures
        match r {
            Ok(t) => app.publications.lookup(id) matches Some(p) && t.publication.is_row(id, p),
            Err(e) => e == HistoryError::NotFound && app.publications.lookup(id) is None,
        },
{
    match Publication::fetch(&app.publications, id) {
        Ok(publication) => Ok(EditPublicationTemplate { publication }),
        Err(e) => Err(HistoryError::from_fetch(e)),
    }
}

pub fn update(app: &mut App, id: u32, updated_publication: NewPublication) -> (r: Result<
    Redirect,
    HistoryError,
>)
    requires
        old(app).wf(),
    ensures
        final(app).wf(),
        old(app).agrees_except_publications(*final(app)),
        old(app).covers_consistent() ==> final(app).covers_consistent(),
        match r {
            Ok(rd) => {
                &&& rd.location@ == "/publications"@
                &&& exists|i: int|
                    {
                        &&& 0 <= i < old(app).publications.rows@.len()
                        &&& (#[trigger] old(app).publications.rows@[i]).0 == id
                        &&& final(app).publications.rows@ =~= old(app).publications.rows@.update(
                            i,
                            (id, updated_publication),
                        )
                    }
                &&& final(app).publications.lookup(id) == Some(updated_publication)
            },
            Err(e) => {
                // the store's NotFound surfaces as an internal error here
                &&& e == HistoryError::InternalError
                &&& !old(app).publications.contains_id(id)
                &&& final(app).publications == old(app).publications
            },
        },
{
    let ghost pre = app.publications;
    match Publication::update(&mut app.publications, id, updated_publication) {
        Ok(()) => {
            proof {
                let i = choose|i: int|
                    {
                        &&& 0 <= i < pre.rows@.len()
                        &&& (#[trigger] pre.rows@[i]).0 == id
                        &&& app.publications.rows@ =~= pre.rows@.update(i, (id, updated_publication))
                    };
                crate::store::lemma_lookup_after_update(pre.rows@, i, id, updated_publication);
            }
            Ok(Redirect::to("/publications"))
        },
        Err(e) => Err(HistoryError::from_mutation(e)),
    }
}

pub fn delete(app: &mut App, id: u32) -> (r: Result<Redirect, HistoryError>)
    requires
        old(app).wf(),
    ensures
        final(app).wf(),
        old(app).agrees_except_publications(*final(app)),
        old(app).covers_consistent() ==> final(app).covers_consistent(),
        match r {
            Ok(rd) => {
                &&& rd.location@ == "/publications"@
                &&& exists|i: int|
                    {
                        &&& 0 <= i < old(app).publications.rows@.len()
                        &&& (#[trigger] old(app).publications.rows@[i]).0 == id
                        &&& final(app).publications.rows@ =~= old(app).publications.rows@.remove(i)
                    }
                &&& final(app).publications.lookup(id) is None
            },
            Err(e) => {
                // the store's NotFound surfaces as an internal error here
                &&& e == HistoryError::InternalError
                &&& !old(app).publications.contains_id(id)
                &&& final(app).publications == old(app).publications
            },
        },
{
    let ghost pre = app.publications;
    match Publication::delete(&mut app.publications, id) {
        Ok(()) => {
            proof {
                let i = choose|i: int|
                    {
                        &&& 0 <= i < pre.rows@.len()
                        &&& (#[trigger] pre.rows@[i]).0 == id
                        &&& app.publications.rows@ =~= pre.rows@.remove(i)
                    };
                crate::store::lemma_lookup_after_remove(pre.rows@, i, id);
            }
            Ok(Redirect::to("/publications"))
        },
        Err(e) => Err(HistoryError::from_mutation(e)),
    }
}

} // verus!
