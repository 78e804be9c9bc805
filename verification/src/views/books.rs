//! The books handlers: list, forms, create, update, delete. Books carry no
//! cover image, so mutations touch the table alone.

use vstd::prelude::*;
use crate::error::HistoryError;
use crate::models::book::{rows_match, Book, NewBook};
use crate::state::App;
use crate::views::Redirect;

verus! {

/// The list page.
pub struct BooksTemplate {
    pub books: Vec<Book>,
}

/// The empty add form.
pub struct NewBookTemplate;

/// The edit form, seeded with the current values.
pub struct EditBookTemplate {
    pub book: Book,
}

pub fn all(app: &App) -> (t: BooksTemplate)
    requires
        app.wf(),
    ensures
        rows_match(app.books.rows@, t.books@),
        forall|i: int, j: int| 0 <= i < j < t.books@.len() ==> t.books@[i].id < t.books@[j].id,
{
    BooksTemplate { books: Book::list(&app.books) }
}

pub fn add() -> (t: NewBookTemplate) {
    NewBookTemplate {  }
}

pub fn create(app: &mut App, new_book: NewBook) -> (r: Result<Redirect, HistoryError>)
    requires
        old(app).wf(),
    ensures
        final(app).wf(),
        old(app).agrees_except_books(*final(app)),
        old(app).covers_consistent() ==> final(app).covers_consistent(),
        match r {
            Ok(rd) => {
                &&& rd.location@ == "/books"@
                &&& final(app).books.rows@ =~= old(app).books.rows@.push(
                    (old(app).books.next_id, new_book),
                )
                &&& final(app).books.lookup(old(app).books.next_id) == Some(new_book)
            },
            Err(e) => e == HistoryError::InternalError && final(app).books == old(app).books
                && old(app).books.next_id == u32::MAX,
        },
{
    let ghost pre = app.books;
    match Book::create(&mut app.books, new_book) {
        Ok(id) => {
            proof {
                crate::store::lemma_lookup_after_push(pre.rows@, id, new_book);
            }
            Ok(Redirect::to("/books"))
        },
        Err(e) => Err(HistoryError::from_mutation(e)),
    }
}

pub fn edit(app: &App, id: u32) -> (r: Result<EditBookTemplate, HistoryError>)
    ensures
        match r {
            Ok(t) => app.books.lookup(id) matches Some(p) && t.book.is_row(id, p),
            Err(e) => e == HistoryError::NotFound && app.books.lookup(id) is None,
        },
{
    match Book::fetch(&app.books, id) {
        Ok(book) => Ok(EditBookTemplate { book }),
        Err(e) => Err(HistoryError::from_fetch(e)),
    }
}

pub fn update(app: &mut App, id: u32, updated_book: NewBook) -> (r: Result<
    Redirect,
    HistoryError,
>)
    requires
        old(app).wf(),
    ensures
        final(app).wf(),
        old(app).agrees_except_books(*final(app)),
        old(app).covers_consistent() ==> final(app).covers_consistent(),
        match r {
            Ok(rd) => {
                &&& rd.location@ == "/books"@
                &&& exists|i: int|
                    {
                        &&& 0 <= i < old(app).books.rows@.len()
                        &&& (#[trigger] old(app).books.rows@[i]).0 == id
                        &&& final(app).books.rows@ =~= old(app).books.rows@.update(
                            i,
                            (id, updated_book),
                        )
                    }
                &&& final(app).books.lookup(id) == Some(updated_book)
            },
            Err(e) => {
                // the store's NotFound surfaces as an internal error here
                &&& e == HistoryError::InternalError
                &&& !old(app).books.contains_id(id)
                &&& final(app).books == old(app).books
            },
        },
{
    let ghost pre = app.books;
    match Book::update(&mut app.books, id, updated_book) {
        Ok(()) => {
            proof {
                let i = choose|i: int|
                    {
                        &&& 0 <= i < pre.rows@.len()
                        &&& (#[trigger] pre.rows@[i]).0 == id
                        &&& app.books.rows@ =~= pre.rows@.update(i, (id, updated_book))
                    };
                crate::store::lemma_lookup_after_update(pre.rows@, i, id, updated_book);
            }
            Ok(Redirect::to("/books"))
        },
        Err(e) => Err(HistoryError::from_mutation(e)),
    }
}

pub fn delete(app: &mut App, id: u32) -> (r: Result<Redirect, HistoryError>)
    requires
        old(app).wf(),
    ensures
        final(app).wf(),
        old(app).agrees_except_books(*final(app)),
        old(app).covers_consistent() ==> final(app).covers_consistent(),
        match r {
            Ok(rd) => {
                &&& rd.location@ == "/books"@
                &&& exists|i: int|
                    {
                        &&& 0 <= i < old(app).books.rows@.len()
                        &&& (#[trigger] old(app).books.rows@[i]).0 == id
                        &&& final(app).books.rows@ =~= old(app).books.rows@.remove(i)
                    }
                &&& final(app).books.lookup(id) is None
            },
            Err(e) => {
                // the store's NotFound surfaces as an internal error here
                &&& e == HistoryError::InternalError
                &&& !old(app).books.contains_id(id)
                &&& final(app).books == old(app).books
            },
        },
{
    let ghost pre = app.books;
    match Book::delete(&mut app.books, id) {
        Ok(()) => {
            proof {
                let i = choose|i: int|
                    {
                        &&& 0 <= i < pre.rows@.len()
                        &&& (#[trigger] pre.rows@[i]).0 == id
                        &&& app.books.rows@ =~= pre.rows@.remove(i)
                    };
                crate::store::lemma_lookup_after_remove(pre.rows@, i, id);
            }
            Ok(Redirect::to("/books"))
        },
        Err(e) => Err(HistoryError::from_mutation(e)),
    }
}

} // verus!
