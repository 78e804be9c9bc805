//! The public pages: home, the library landing page, the blog index, and a
//! single blog entry. None of them requires a session.

use vstd::prelude::*;
use crate::error::HistoryError;
use crate::models::book::{rows_match as book_rows_match, Book};
use crate::models::post::{rows_match as post_rows_match, Post};
use crate::models::publication::{rows_match as publication_rows_match, Publication};
use crate::models::text::{rows_match as text_rows_match, Text};
use crate::state::App;

verus! {

/// The home page, seeded with a sampler of the collections.
pub struct HomeTemplate {
    pub books: Vec<Book>,
    pub publications: Vec<Publication>,
    pub texts: Vec<Text>,
}

/// The library landing page.
pub struct LibTemplate {
    pub books: Vec<Book>,
}

/// The blog index.
pub struct BlogTemplate {
    pub posts: Vec<Post>,
}

/// A single blog entry.
pub struct EntryTemplate {
    pub post: Post,
}

pub fn home(app: &App) -> (t: HomeTemplate)
    requires
        app.wf(),
    ensures
        book_rows_match(app.books.rows@, t.books@),
        publication_rows_match(app.publications.rows@, t.publications@),
        text_rows_match(app.texts.rows@, t.texts@),
{
    HomeTemplate {
        books: Book::list(&app.books),
        publications: Publication::list(&app.publications),
        texts: Text::list(&app.texts),
    }
}

pub fn lib(app: &App) -> (t: LibTemplate)
    requires
        app.wf(),
    ensures
        book_rows_match(app.books.rows@, t.books@),
{
    LibTemplate { books: Book::list(&app.books) }
}

pub fn blog(app: &App) -> (t: BlogTemplate)
    requires
        app.wf(),
    ensures
        post_rows_match(app.posts.rows@, t.posts@),
{
    BlogTemplate { posts: Post::list(&app.posts) }
}

pub fn entry(app: &App, id: u32) -> (r: Result<EntryTemplate, HistoryError>)
    ensures
        match r {
            Ok(t) => app.posts.lookup(id) matches Some(p) && t.post.is_row(id, p),
            Err(e) => e == HistoryError::NotFound && app.posts.lookup(id) is None,
        },
{
    match Post::fetch(&app.posts, id) {
        Ok(post) => Ok(EntryTemplate { post }),
        Err(e) => Err(HistoryError::from_fetch(e)),
    }
}

} // verus!
