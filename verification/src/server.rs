//! The HTTP surface: one request in, one response out. The dispatcher matches
//! the routing table, enforces the body cap, guards the protected subtree, and
//! hands the request to its handler. The network, the clock and the real
//! stores live outside; this is every decision in between.

use vstd::prelude::*;
use crate::auth::LoginInput;
use crate::error::HistoryError;
use crate::models::book::{rows_match as book_rows_match, NewBook};
use crate::models::publication::{rows_match as publication_rows_match, NewPublication};
use crate::models::post::rows_match as post_rows_match;
use crate::models::text::{rows_match as text_rows_match, NewText};
use crate::models::textbook::rows_match as textbook_rows_match;
use crate::routes::{
    body_limit, body_limit_spec, is_protected, match_route, match_route_spec, may_remove_cover,
    route_is_protected, Collection, Method, Route,
};
use crate::content::{next_cover_spec, post_cover_name_spec, sole_cover_ref};
use crate::session::Cookie;
use crate::state::App;
use crate::views::admin;
use crate::views::admin::LoginTemplate;
use crate::views::books;
use crate::views::books::{BooksTemplate, EditBookTemplate, NewBookTemplate};
use crate::views::handlers;
use crate::views::handlers::{BlogTemplate, EntryTemplate, HomeTemplate, LibTemplate};
use crate::views::posts;
use crate::views::posts::{EditPostTemplate, NewPostTemplate, PostWithImage, PostsTemplate};
use crate::views::publications;
use crate::views::publications::{
    EditPublicationTemplate, NewPublicationTemplate, PublicationsTemplate,
};
use crate::views::textbooks;
use crate::views::textbooks::{
    EditTextBookTemplate, NewTextBookTemplate, TextBookWithImage, TextBooksTemplate,
};
use crate::views::texts;
use crate::views::texts::{EditTextTemplate, NewTextTemplate, TextsTemplate};
use crate::views::Redirect;

verus! {

/// One request, reduced to what the dispatcher reads: the request line, the
/// session cookie, the decoded body fields, the client filename of an
/// uploaded cover part (if one came), and the body's size in bytes.
pub struct Request {
    pub method: Method,
    pub path: String,
    pub cookie: Option<Cookie>,
    pub fields: Vec<(String, String)>,
    pub file_name: Option<String>,
    pub body_len: usize,
}

/// An HTML page of the site, ready for the renderer.
pub enum Page {
    Home(HomeTemplate),
    Lib(LibTemplate),
    Blog(BlogTemplate),
    Entry(EntryTemplate),
    Login(LoginTemplate),
    Books(BooksTemplate),
    BookForm(NewBookTemplate),
    BookEdit(EditBookTemplate),
    TextBooks(TextBooksTemplate),
    TextBookForm(NewTextBookTemplate),
    TextBookEdit(EditTextBookTemplate),
    Publications(PublicationsTemplate),
    PublicationForm(NewPublicationTemplate),
    PublicationEdit(EditPublicationTemplate),
    Texts(TextsTemplate),
    TextForm(NewTextTemplate),
    TextEdit(EditTextTemplate),
    Posts(PostsTemplate),
    PostForm(NewPostTemplate),
    PostEdit(EditPostTemplate),
}

/// A response body: a page for the renderer, a static file served from disk,
/// plain text, or nothing (redirects).
pub enum Body {
    Html(Page),
    File,
    Text(String),
    Empty,
}

/// What goes back to the client.
pub struct Response {
    pub status: u16,
    pub location: Option<String>,
    pub body: Body,
    pub set_cookie: Option<Cookie>,
}

impl Response {
    fn page(p: Page) -> (r: Response)
        ensures
            r.status == 200,
            r.location is None,
            r.body == Body::Html(p),
            r.set_cookie is None,
    {
        Response { status: 200, location: None, body: Body::Html(p), set_cookie: None }
    }

    fn redirect(rd: Redirect) -> (r: Response)
        ensures
            r.status == 303,
            r.location == Some(rd.location),
            r.body is Empty,
            r.set_cookie is None,
    {
        Response { status: 303, location: Some(rd.location), body: Body::Empty, set_cookie: None }
    }

    fn redirect_login(rd: Redirect, c: Option<Cookie>) -> (r: Response)
        ensures
            r.status == 303,
            r.location == Some(rd.location),
            r.body is Empty,
            r.set_cookie == c,
    {
        Response { status: 303, location: Some(rd.location), body: Body::Empty, set_cookie: c }
    }

    fn error(e: HistoryError) -> (r: Response)
        ensures
            r.status == e.spec_status(),
            r.location is None,
            r.body matches Body::Text(t) && t@ == e.spec_message(),
            r.set_cookie is None,
    {
        Response {
            status: e.status(),
            location: None,
            body: Body::Text(e.message()),
            set_cookie: None,
        }
    }

    fn too_large() -> (r: Response)
        ensures
            r.status == 413,
            r.location is None,
            r.body is Empty,
            r.set_cookie is None,
    {
        Response { status: 413, location: None, body: Body::Empty, set_cookie: None }
    }

    fn file() -> (r: Response)
        ensures
            r.status == 200,
            r.location is None,
            r.body is File,
            r.set_cookie is None,
    {
        Response { status: 200, location: None, body: Body::File, set_cookie: None }
    }
}

/// The value of the first body field with the given name, if any.
pub open spec fn lookup_field(fields: Seq<(String, String)>, name: Seq<char>) -> Option<String>
    decreases fields.len(),
{
    if fields.len() == 0 {
        None
    } else if fields[0].0@ == name {
        Some(fields[0].1)
    } else {
        lookup_field(fields.drop_first(), name)
    }
}

fn field(fields: &Vec<(String, String)>, name: &str) -> (r: Option<String>)
    ensures
        r == lookup_field(fields@, name@),
{
    let n = fields.len();
    let mut i: usize = 0;
    proof {
        assert(fields@.skip(0) =~= fields@);
    }
    while i < n
        invariant
            n == fields@.len(),
            0 <= i <= n,
            lookup_field(fields@, name@) == lookup_field(fields@.skip(i as int), name@),
        decreases n - i,
    {
        proof {
            assert(fields@.skip(i as int).drop_first() =~= fields@.skip(i as int + 1));
            assert(fields@.skip(i as int)[0] == fields@[i as int]);
        }
        if crate::chars::str_eq(fields[i].0.as_str(), name) {
            return Some(fields[i].1.clone());
        }
        i = i + 1;
    }
    proof {
        assert(fields@.skip(n as int) =~= Seq::<(String, String)>::empty());
    }
    None
}

/// The client-supplied filename of the uploaded cover part; no part, or one
/// without a name, reads as the empty name ("keep the cover", or "none").
pub open spec fn upload_name_view(file_name: Option<String>) -> Seq<char> {
    match file_name {
        Some(f) => f@,
        None => Seq::<char>::empty(),
    }
}

fn upload_name(file_name: &Option<String>) -> (r: String)
    ensures
        r@ == upload_name_view(*file_name),
{
    match file_name {
        Some(f) => f.clone(),
        None => String::new(),
    }
}

/// A book as a url-encoded form carries it; every field is required.
pub open spec fn spec_book_input(fields: Seq<(String, String)>) -> Option<NewBook> {
    if lookup_field(fields, "name"@) is Some && lookup_field(fields, "link"@) is Some
        && lookup_field(fields, "description"@) is Some {
        Some(
            NewBook {
                name: lookup_field(fields, "name"@)->Some_0,
                link: lookup_field(fields, "link"@)->Some_0,
                description: lookup_field(fields, "description"@)->Some_0,
            },
        )
    } else {
        None
    }
}

fn book_input(fields: &Vec<(String, String)>) -> (r: Result<NewBook, HistoryError>)
    ensures
        match r {
            Ok(nb) => spec_book_input(fields@) == Some(nb),
            Err(e) => e == HistoryError::InternalError && spec_book_input(fields@) is None,
        },
{
    let name = field(fields, "name");
    let link = field(fields, "link");
    let description = field(fields, "description");
    match (name, link, description) {
        (Some(name), Some(link), Some(description)) => Ok(NewBook { name, link, description }),
        _ => Err(HistoryError::InternalError),
    }
}

/// A publication as a url-encoded form carries it; every field is required.
pub open spec fn spec_publication_input(fields: Seq<(String, String)>) -> Option<
    NewPublication,
> {
    if lookup_field(fields, "name"@) is Some && lookup_field(fields, "link"@) is Some
        && lookup_field(fields, "description"@) is Some {
        Some(
            NewPublication {
                name: lookup_field(fields, "name"@)->Some_0,
                link: lookup_field(fields, "link"@)->Some_0,
                description: lookup_field(fields, "description"@)->Some_0,
            },
        )
    } else {
        None
    }
}

fn publication_input(fields: &Vec<(String, String)>) -> (r: Result<
    NewPublication,
    HistoryError,
>)
    ensures
        match r {
            Ok(np) => spec_publication_input(fields@) == Some(np),
            Err(e) => e == HistoryError::InternalError && spec_publication_input(
                fields@,
            ) is None,
        },
{
    let name = field(fields, "name");
    let link = field(fields, "link");
    let description = field(fields, "description");
    match (name, link, description) {
        (Some(name), Some(link), Some(description)) => Ok(
            NewPublication { name, link, description },
        ),
        _ => Err(HistoryError::InternalError),
    }
}

/// A text as a url-encoded form carries it: the text fields and the cover
/// filename; every field is required.
pub open spec fn spec_text_input(fields: Seq<(String, String)>) -> Option<NewText> {
    if lookup_field(fields, "name"@) is Some && lookup_field(fields, "link"@) is Some
        && lookup_field(fields, "description"@) is Some && lookup_field(
        fields,
        "cover"@,
    ) is Some {
        Some(
            NewText {
                name: lookup_field(fields, "name"@)->Some_0,
                link: lookup_field(fields, "link"@)->Some_0,
                description: lookup_field(fields, "description"@)->Some_0,
                cover: lookup_field(fields, "cover"@)->Some_0,
            },
        )
    } else {
        None
    }
}

fn text_input(fields: &Vec<(String, String)>) -> (r: Result<NewText, HistoryError>)
    ensures
        match r {
            Ok(nt) => spec_text_input(fields@) == Some(nt),
            Err(e) => e == HistoryError::InternalError && spec_text_input(fields@) is None,
        },
{
    let name = field(fields, "name");
    let link = field(fields, "link");
    let description = field(fields, "description");
    let cover = field(fields, "cover");
    match (name, link, description, cover) {
        (Some(name), Some(link), Some(description), Some(cover)) => Ok(
            NewText { name, link, description, cover },
        ),
        _ => Err(HistoryError::InternalError),
    }
}

/// Whether a multipart textbook upload carries all its text fields.
pub open spec fn spec_textbook_fields_ok(fields: Seq<(String, String)>) -> bool {
    &&& lookup_field(fields, "name"@) is Some
    &&& lookup_field(fields, "link"@) is Some
    &&& lookup_field(fields, "description"@) is Some
}

fn textbook_input(fields: &Vec<(String, String)>, file_name: &Option<String>) -> (r: Result<
    TextBookWithImage,
    HistoryError,
>)
    ensures
        match r {
            Ok(u) => {
                &&& spec_textbook_fields_ok(fields@)
                &&& Some(u.name) == lookup_field(fields@, "name"@)
                &&& Some(u.link) == lookup_field(fields@, "link"@)
                &&& Some(u.description) == lookup_field(fields@, "description"@)
                &&& u.cover@ == upload_name_view(*file_name)
            },
            Err(e) => e == HistoryError::InternalError && !spec_textbook_fields_ok(fields@),
        },
{
    let name = field(fields, "name");
    let link = field(fields, "link");
    let description = field(fields, "description");
    match (name, link, description) {
        (Some(name), Some(link), Some(description)) => Ok(
            TextBookWithImage { name, link, description, cover: upload_name(file_name) },
        ),
        _ => Err(HistoryError::InternalError),
    }
}

/// Whether a multipart post upload carries all its text fields.
pub open spec fn spec_post_fields_ok(fields: Seq<(String, String)>) -> bool {
    &&& lookup_field(fields, "title"@) is Some
    &&& lookup_field(fields, "lead"@) is Some
    &&& lookup_field(fields, "body"@) is Some
}

fn post_input(fields: &Vec<(String, String)>, file_name: &Option<String>) -> (r: Result<
    PostWithImage,
    HistoryError,
>)
    ensures
        match r {
            Ok(u) => {
                &&& spec_post_fields_ok(fields@)
                &&& Some(u.title) == lookup_field(fields@, "title"@)
                &&& Some(u.lead) == lookup_field(fields@, "lead"@)
                &&& Some(u.body) == lookup_field(fields@, "body"@)
                &&& u.cover@ == upload_name_view(*file_name)
            },
            Err(e) => e == HistoryError::InternalError && !spec_post_fields_ok(fields@),
        },
{
    let title = field(fields, "title");
    let lead = field(fields, "lead");
    let body = field(fields, "body");
    match (title, lead, body) {
        (Some(title), Some(lead), Some(body)) => Ok(
            PostWithImage { title, lead, body, cover: upload_name(file_name) },
        ),
        _ => Err(HistoryError::InternalError),
    }
}

/// What a cover-removing request (an update or delete of a cover-bearing
/// collection) may assume: the cover file it would replace or remove is named
/// by no other row of any collection. A filename shared between rows falls
/// outside this guarantee — removing one row's file would orphan the other
/// row's reference — and such sharing is reachable, since nothing stops two
/// creates from naming the same file; the running site loses the file the
/// same way. Every other request is unconditionally safe.
pub open spec fn cover_removal_safe(app: App, req: Request, stamp: u64) -> bool {
    match match_route_spec(req.method, req.path@) {
        Route::Update(c, id) => match c {
            Collection::TextBooks => app.textbooks.lookup(id) matches Some(p) ==> {
                let nc = next_cover_spec(p.cover@, upload_name_view(req.file_name), false, 0);
                nc == p.cover@ || sole_cover_ref(
                    app.textbooks.rows@,
                    app.texts.rows@,
                    app.posts.rows@,
                    id,
                    p.cover@,
                )
            },
            Collection::Texts => app.texts.lookup(id) matches Some(p) ==> lookup_field(
                req.fields@,
                "cover"@,
            ) matches Some(cv) ==> {
                let nc = next_cover_spec(p.cover@, cv@, false, 0);
                nc == p.cover@ || sole_cover_ref(
                    app.texts.rows@,
                    app.textbooks.rows@,
                    app.posts.rows@,
                    id,
                    p.cover@,
                )
            },
            Collection::Posts => app.posts.lookup(id) matches Some(p) ==> {
                let nc = next_cover_spec(p.cover@, upload_name_view(req.file_name), true, stamp);
                nc == p.cover@ || sole_cover_ref(
                    app.posts.rows@,
                    app.textbooks.rows@,
                    app.texts.rows@,
                    id,
                    p.cover@,
                )
            },
            _ => true,
        },
        Route::Delete(c, id) => match c {
            Collection::TextBooks => app.textbooks.lookup(id) matches Some(p)
                ==> sole_cover_ref(
                app.textbooks.rows@,
                app.texts.rows@,
                app.posts.rows@,
                id,
                p.cover@,
            ),
            Collection::Texts => app.texts.lookup(id) matches Some(p) ==> sole_cover_ref(
                app.texts.rows@,
                app.textbooks.rows@,
                app.posts.rows@,
                id,
                p.cover@,
            ),
            Collection::Posts => app.posts.lookup(id) matches Some(p) ==> sole_cover_ref(
                app.posts.rows@,
                app.textbooks.rows@,
                app.texts.rows@,
                id,
                p.cover@,
            ),
            _ => true,
        },
        _ => true,
    }
}

/// A listing: the state untouched, status 200, the body that collection's
/// rows, in order.
pub open spec fn list_outcome(pre: App, post: App, c: Collection, resp: Response) -> bool {
    &&& post == pre
    &&& resp.status == 200
    &&& match c {
        Collection::Books => resp.body matches Body::Html(Page::Books(t)) && book_rows_match(
            pre.books.rows@,
            t.books@,
        ),
        Collection::TextBooks => resp.body matches Body::Html(Page::TextBooks(t))
            && textbook_rows_match(pre.textbooks.rows@, t.textbooks@),
        Collection::Publications => resp.body matches Body::Html(Page::Publications(t))
            && publication_rows_match(pre.publications.rows@, t.publications@),
        Collection::Texts => resp.body matches Body::Html(Page::Texts(t)) && text_rows_match(
            pre.texts.rows@,
            t.texts@,
        ),
        Collection::Posts => resp.body matches Body::Html(Page::Posts(t)) && post_rows_match(
            pre.posts.rows@,
            t.posts@,
        ),
    }
}

/// An empty add form: the state untouched, status 200, the right form page.
pub open spec fn add_form_outcome(pre: App, post: App, c: Collection, resp: Response) -> bool {
    &&& post == pre
    &&& resp.status == 200
    &&& match c {
        Collection::Books => resp.body matches Body::Html(Page::BookForm(_)),
        Collection::TextBooks => resp.body matches Body::Html(Page::TextBookForm(_)),
        Collection::Publications => resp.body matches Body::Html(Page::PublicationForm(_)),
        Collection::Texts => resp.body matches Body::Html(Page::TextForm(_)),
        Collection::Posts => resp.body matches Body::Html(Page::PostForm(_)),
    }
}

/// An edit form: the state untouched; the row's values when the id is
/// present, the missing page when it is not.
pub open spec fn edit_form_outcome(
    pre: App,
    post: App,
    c: Collection,
    id: u32,
    resp: Response,
) -> bool {
    &&& post == pre
    &&& match c {
        Collection::Books => {
            &&& (pre.books.lookup(id) matches Some(p) ==> resp.status == 200 && (
            resp.body matches Body::Html(Page::BookEdit(t)) && t.book.is_row(id, p)))
            &&& (pre.books.lookup(id) is None ==> resp.status == 404)
        },
        Collection::TextBooks => {
            &&& (pre.textbooks.lookup(id) matches Some(p) ==> resp.status == 200 && (
            resp.body matches Body::Html(Page::TextBookEdit(t)) && t.textbook.is_row(id, p)))
            &&& (pre.textbooks.lookup(id) is None ==> resp.status == 404)
        },
        Collection::Publications => {
            &&& (pre.publications.lookup(id) matches Some(p) ==> resp.status == 200 && (
            resp.body matches Body::Html(Page::PublicationEdit(t)) && t.publication.is_row(
                id,
                p,
            )))
            &&& (pre.publications.lookup(id) is None ==> resp.status == 404)
        },
        Collection::Texts => {
            &&& (pre.texts.lookup(id) matches Some(p) ==> resp.status == 200 && (
            resp.body matches Body::Html(Page::TextEdit(t)) && t.text.is_row(id, p)))
            &&& (pre.texts.lookup(id) is None ==> resp.status == 404)
        },
        Collection::Posts => {
            &&& (pre.posts.lookup(id) matches Some(p) ==> resp.status == 200 && (
            resp.body matches Body::Html(Page::PostEdit(t)) && t.post.is_row(id, p)))
            &&& (pre.posts.lookup(id) is None ==> resp.status == 404)
        },
    }
}

/// A create: an unparseable form is an internal error with nothing changed;
/// a parseable one inserts the record under the next id and redirects, or
/// fails only because the id space is exhausted. Cover-bearing collections
/// also gain the named cover file.
pub open spec fn create_outcome(
    pre: App,
    post: App,
    c: Collection,
    req: Request,
    stamp: u64,
    resp: Response,
) -> bool {
    match c {
        Collection::Books => {
            &&& (spec_book_input(req.fields@) is None ==> resp.status == 500 && post == pre)
            &&& (spec_book_input(req.fields@) matches Some(nb) ==> {
                &&& pre.agrees_except_books(post)
                &&& ((resp.status == 303 && (resp.location matches Some(l) && l@ == "/books"@)
                    && post.books.rows@ == pre.books.rows@.push((pre.books.next_id, nb))
                    && post.books.lookup(pre.books.next_id) == Some(nb)) || (resp.status == 500
                    && pre.books.next_id == u32::MAX && post.books == pre.books))
            })
        },
        Collection::Publications => {
            &&& (spec_publication_input(req.fields@) is None ==> resp.status == 500 && post
                == pre)
            &&& (spec_publication_input(req.fields@) matches Some(np) ==> {
                &&& pre.agrees_except_publications(post)
                &&& ((resp.status == 303 && (resp.location matches Some(l) && l@
                    == "/publications"@) && post.publications.rows@
                    == pre.publications.rows@.push((pre.publications.next_id, np))
                    && post.publications.lookup(pre.publications.next_id) == Some(np)) || (
                resp.status == 500 && pre.publications.next_id == u32::MAX
                    && post.publications == pre.publications))
            })
        },
        Collection::Texts => {
            &&& (spec_text_input(req.fields@) is None ==> resp.status == 500 && post == pre)
            &&& (spec_text_input(req.fields@) matches Some(nt) ==> {
                &&& pre.agrees_except_texts(post)
                &&& post.images.names() == (if nt.cover@.len() == 0 {
                    pre.images.names()
                } else {
                    pre.images.names().insert(nt.cover@)
                })
                &&& ((resp.status == 303 && (resp.location matches Some(l) && l@ == "/texts"@)
                    && post.texts.rows@ == pre.texts.rows@.push((pre.texts.next_id, nt))
                    && post.texts.lookup(pre.texts.next_id) == Some(nt)) || (resp.status == 500
                    && pre.texts.next_id == u32::MAX && post.texts == pre.texts))
            })
        },
        Collection::TextBooks => {
            &&& (!spec_textbook_fields_ok(req.fields@) ==> resp.status == 500 && post == pre)
            &&& (spec_textbook_fields_ok(req.fields@) ==> {
                let cv = upload_name_view(req.file_name);
                &&& pre.agrees_except_textbooks(post)
                &&& post.images.names() == (if cv.len() == 0 {
                    pre.images.names()
                } else {
                    pre.images.names().insert(cv)
                })
                &&& ((resp.status == 303 && (resp.location matches Some(l) && l@
                    == "/textbooks"@) && post.textbooks.rows@.len() == pre.textbooks.rows@.len()
                    + 1 && (forall|k: int|
                    0 <= k < pre.textbooks.rows@.len() ==> post.textbooks.rows@[k]
                        == pre.textbooks.rows@[k]) && post.textbooks.rows@.last().0
                    == pre.textbooks.next_id && post.textbooks.rows@.last().1.name
                    == lookup_field(req.fields@, "name"@)->Some_0
                    && post.textbooks.rows@.last().1.link == lookup_field(
                    req.fields@,
                    "link"@,
                )->Some_0 && post.textbooks.rows@.last().1.description == lookup_field(
                    req.fields@,
                    "description"@,
                )->Some_0 && post.textbooks.rows@.last().1.cover@ == cv
                    && post.textbooks.lookup(pre.textbooks.next_id) == Some(
                    post.textbooks.rows@.last().1,
                )) || (resp.status == 500 && pre.textbooks.next_id == u32::MAX
                    && post.textbooks == pre.textbooks))
            })
        },
        Collection::Posts => {
            &&& (!spec_post_fields_ok(req.fields@) ==> resp.status == 500 && post == pre)
            &&& (spec_post_fields_ok(req.fields@) ==> {
                let cv = post_cover_name_spec(stamp, upload_name_view(req.file_name));
                &&& pre.agrees_except_posts(post)
                &&& post.images.names() == pre.images.names().insert(cv)
                &&& ((resp.status == 303 && (resp.location matches Some(l) && l@ == "/posts"@)
                    && post.posts.rows@.len() == pre.posts.rows@.len() + 1 && (forall|k: int|
                    0 <= k < pre.posts.rows@.len() ==> post.posts.rows@[k]
                        == pre.posts.rows@[k]) && post.posts.rows@.last().0
                    == pre.posts.next_id && post.posts.rows@.last().1.title@ == lookup_field(
                    req.fields@,
                    "title"@,
                )->Some_0@ && post.posts.rows@.last().1.lead@ == lookup_field(
                    req.fields@,
                    "lead"@,
                )->Some_0@ && post.posts.rows@.last().1.body@ == lookup_field(
                    req.fields@,
                    "body"@,
                )->Some_0@ && post.posts.rows@.last().1.cover@ == cv && post.posts.lookup(
                    pre.posts.next_id,
                ) == Some(post.posts.rows@.last().1)) || (resp.status == 500
                    && pre.posts.next_id == u32::MAX && post.posts == pre.posts))
            })
        },
    }
}

/// An update: an unparseable form is an internal error with nothing changed;
/// an absent id likewise; otherwise the row is replaced — cover-bearing
/// collections with the computed cover filename and the file swap — and the
/// client is redirected.
pub open spec fn update_outcome(
    pre: App,
    post: App,
    c: Collection,
    id: u32,
    req: Request,
    stamp: u64,
    resp: Response,
) -> bool {
    match c {
        Collection::Books => {
            &&& (spec_book_input(req.fields@) is None ==> resp.status == 500 && post == pre)
            &&& (spec_book_input(req.fields@) matches Some(nb) ==> {
                &&& (!pre.books.contains_id(id) ==> resp.status == 500 && post == pre)
                &&& (pre.books.contains_id(id) ==> resp.status == 303 && (
                resp.location matches Some(l) && l@ == "/books"@) && pre.agrees_except_books(
                    post,
                ) && post.books.rows@.len() == pre.books.rows@.len() && post.books.lookup(id)
                    == Some(nb))
            })
        },
        Collection::Publications => {
            &&& (spec_publication_input(req.fields@) is None ==> resp.status == 500 && post
                == pre)
            &&& (spec_publication_input(req.fields@) matches Some(np) ==> {
                &&& (!pre.publications.contains_id(id) ==> resp.status == 500 && post == pre)
                &&& (pre.publications.contains_id(id) ==> resp.status == 303 && (
                resp.location matches Some(l) && l@ == "/publications"@)
                    && pre.agrees_except_publications(post) && post.publications.rows@.len()
                    == pre.publications.rows@.len() && post.publications.lookup(id) == Some(
                    np,
                ))
            })
        },
        Collection::TextBooks => {
            &&& (!spec_textbook_fields_ok(req.fields@) ==> resp.status == 500 && post == pre)
            &&& (spec_textbook_fields_ok(req.fields@) ==> {
                &&& (pre.textbooks.lookup(id) is None ==> resp.status == 500 && post == pre)
                &&& (pre.textbooks.lookup(id) matches Some(p) ==> {
                    let nc = next_cover_spec(
                        p.cover@,
                        upload_name_view(req.file_name),
                        false,
                        0,
                    );
                    &&& resp.status == 303 && (resp.location matches Some(l) && l@
                        == "/textbooks"@)
                    &&& pre.agrees_except_textbooks(post)
                    &&& post.textbooks.rows@.len() == pre.textbooks.rows@.len()
                    &&& post.images.names() == (if nc == p.cover@ {
                        pre.images.names()
                    } else {
                        pre.images.names().insert(nc).remove(p.cover@)
                    })
                    &&& post.textbooks.lookup(id) matches Some(q) && q.name@ == lookup_field(
                        req.fields@,
                        "name"@,
                    )->Some_0@ && q.link@ == lookup_field(req.fields@, "link"@)->Some_0@
                        && q.description@ == lookup_field(
                        req.fields@,
                        "description"@,
                    )->Some_0@ && q.cover@ == nc
                })
            })
        },
        Collection::Texts => {
            &&& (spec_text_input(req.fields@) is None ==> resp.status == 500 && post == pre)
            &&& (spec_text_input(req.fields@) matches Some(nt) ==> {
                &&& (pre.texts.lookup(id) is None ==> resp.status == 500 && post == pre)
                &&& (pre.texts.lookup(id) matches Some(p) ==> {
                    let nc = next_cover_spec(p.cover@, nt.cover@, false, 0);
                    &&& resp.status == 303 && (resp.location matches Some(l) && l@
                        == "/texts"@)
                    &&& pre.agrees_except_texts(post)
                    &&& post.texts.rows@.len() == pre.texts.rows@.len()
                    &&& post.images.names() == (if nc == p.cover@ {
                        pre.images.names()
                    } else {
                        pre.images.names().insert(nc).remove(p.cover@)
                    })
                    &&& post.texts.lookup(id) matches Some(q) && q.name@ == nt.name@
                        && q.link@ == nt.link@ && q.description@ == nt.description@
                        && q.cover@ == nc
                })
            })
        },
        Collection::Posts => {
            &&& (!spec_post_fields_ok(req.fields@) ==> resp.status == 500 && post == pre)
            &&& (spec_post_fields_ok(req.fields@) ==> {
                &&& (pre.posts.lookup(id) is None ==> resp.status == 500 && post == pre)
                &&& (pre.posts.lookup(id) matches Some(p) ==> {
                    let nc = next_cover_spec(
                        p.cover@,
                        upload_name_view(req.file_name),
                        true,
                        stamp,
                    );
                    &&& resp.status == 303 && (resp.location matches Some(l) && l@
                        == "/posts"@)
                    &&& pre.agrees_except_posts(post)
                    &&& post.posts.rows@.len() == pre.posts.rows@.len()
                    &&& post.images.names() == (if nc == p.cover@ {
                        pre.images.names()
                    } else {
                        pre.images.names().insert(nc).remove(p.cover@)
                    })
                    &&& post.posts.lookup(id) matches Some(q) && q.title@ == lookup_field(
                        req.fields@,
                        "title"@,
                    )->Some_0@ && q.lead@ == lookup_field(req.fields@, "lead"@)->Some_0@
                        && q.body@ == lookup_field(req.fields@, "body"@)->Some_0@ && q.cover@
                        == nc
                })
            })
        },
    }
}

/// A delete: an absent id is an internal error with nothing changed;
/// otherwise the row goes — for cover-bearing collections its cover file too —
/// and the client is redirected.
pub open spec fn delete_outcome(
    pre: App,
    post: App,
    c: Collection,
    id: u32,
    resp: Response,
) -> bool {
    match c {
        Collection::Books => {
            &&& (!pre.books.contains_id(id) ==> resp.status == 500 && post == pre)
            &&& (pre.books.contains_id(id) ==> resp.status == 303 && (
            resp.location matches Some(l) && l@ == "/books"@) && pre.agrees_except_books(post)
                && post.books.rows@.len() + 1 == pre.books.rows@.len() && post.books.lookup(
                id,
            ) is None)
        },
        Collection::Publications => {
            &&& (!pre.publications.contains_id(id) ==> resp.status == 500 && post == pre)
            &&& (pre.publications.contains_id(id) ==> resp.status == 303 && (
            resp.location matches Some(l) && l@ == "/publications"@)
                && pre.agrees_except_publications(post) && post.publications.rows@.len() + 1
                == pre.publications.rows@.len() && post.publications.lookup(id) is None)
        },
        Collection::TextBooks => {
            &&& (pre.textbooks.lookup(id) is None ==> resp.status == 500 && post == pre)
            &&& (pre.textbooks.lookup(id) matches Some(p) ==> resp.status == 303 && (
            resp.location matches Some(l) && l@ == "/textbooks"@)
                && pre.agrees_except_textbooks(post) && post.textbooks.rows@.len() + 1
                == pre.textbooks.rows@.len() && post.textbooks.lookup(id) is None
                && post.images.names() == pre.images.names().remove(p.cover@))
        },
        Collection::Texts => {
            &&& (pre.texts.lookup(id) is None ==> resp.status == 500 && post == pre)
            &&& (pre.texts.lookup(id) matches Some(p) ==> resp.status == 303 && (
            resp.location matches Some(l) && l@ == "/texts"@) && pre.agrees_except_texts(post)
                && post.texts.rows@.len() + 1 == pre.texts.rows@.len() && post.texts.lookup(
                id,
            ) is None && post.images.names() == pre.images.names().remove(p.cover@))
        },
        Collection::Posts => {
            &&& (pre.posts.lookup(id) is None ==> resp.status == 500 && post == pre)
            &&& (pre.posts.lookup(id) matches Some(p) ==> resp.status == 303 && (
            resp.location matches Some(l) && l@ == "/posts"@) && pre.agrees_except_posts(post)
                && post.posts.rows@.len() + 1 == pre.posts.rows@.len() && post.posts.lookup(
                id,
            ) is None && post.images.names() == pre.images.names().remove(p.cover@))
        },
    }
}

/// Logout: home redirect; the cookie's session, if any, is gone, and nothing
/// else changed.
pub open spec fn logout_outcome(pre: App, post: App, req: Request, resp: Response) -> bool {
    &&& resp.status == 303 && (resp.location matches Some(l) && l@ == "/"@)
    &&& resp.set_cookie is None
    &&& pre.agrees_except_sessions(post)
    &&& (req.cookie matches Some(c) ==> post.sessions.lookup(c) is None)
    &&& (req.cookie is None ==> post == pre)
}

/// What every matched request within its body cap answers. The protected
/// routes' outcomes hold for admitted requests; unadmitted ones are fixed by
/// the admission rule instead.
pub open spec fn dispatch_outcome(
    pre: App,
    post: App,
    req: Request,
    stamp: u64,
    resp: Response,
) -> bool {
    match match_route_spec(req.method, req.path@) {
        Route::Home => post == pre && resp.status == 200 && (resp.body matches Body::Html(
            Page::Home(t),
        ) && book_rows_match(pre.books.rows@, t.books@) && publication_rows_match(
            pre.publications.rows@,
            t.publications@,
        ) && text_rows_match(pre.texts.rows@, t.texts@)),
        Route::Lib => post == pre && resp.status == 200 && (resp.body matches Body::Html(
            Page::Lib(t),
        ) && book_rows_match(pre.books.rows@, t.books@)),
        Route::Blog => post == pre && resp.status == 200 && (resp.body matches Body::Html(
            Page::Blog(t),
        ) && post_rows_match(pre.posts.rows@, t.posts@)),
        Route::StaticAsset => post == pre && resp.status == 200 && resp.body is File,
        Route::LoginForm => post == pre && resp.status == 200 && (resp.body matches Body::Html(
            Page::Login(_),
        )),
        Route::LoginSubmit => login_outcome(pre, post, req, resp),
        Route::Logout => logout_outcome(pre, post, req, resp),
        Route::List(c) => pre.admitted(req.cookie) ==> list_outcome(pre, post, c, resp),
        Route::AddForm(c) => pre.admitted(req.cookie) ==> add_form_outcome(pre, post, c, resp),
        Route::EditForm(c, id) => pre.admitted(req.cookie) ==> edit_form_outcome(
            pre,
            post,
            c,
            id,
            resp,
        ),
        Route::Create(c) => pre.admitted(req.cookie) ==> create_outcome(
            pre,
            post,
            c,
            req,
            stamp,
            resp,
        ),
        Route::Update(c, id) => pre.admitted(req.cookie) ==> update_outcome(
            pre,
            post,
            c,
            id,
            req,
            stamp,
            resp,
        ),
        Route::Delete(c, id) => pre.admitted(req.cookie) ==> delete_outcome(
            pre,
            post,
            c,
            id,
            resp,
        ),
        Route::NotFound => true,
    }
}

/// The login flow's outcome: a missing field is an internal error; the right
/// secret opens a session and redirects to the books page (or fails inside
/// the session store); a wrong secret redirects back to the login form,
/// setting nothing.
pub open spec fn login_outcome(pre: App, post: App, req: Request, resp: Response) -> bool {
    let f = lookup_field(req.fields@, "secret"@);
    &&& (f is None ==> resp.status == 500 && post == pre)
    &&& ((f matches Some(s) && s@ == pre.secret@) ==> ((resp.status == 303 && (
    resp.location matches Some(l) && l@ == "/books"@) && (resp.set_cookie matches Some(ck)
        && post.sessions.lookup(ck) == Some(42usize))) || (resp.status == 500
        && pre.sessions.next_token == u64::MAX)))
    &&& ((f matches Some(s) && s@ != pre.secret@) ==> (resp.status == 303 && (
    resp.location matches Some(l) && l@ == "/login"@) && resp.set_cookie is None && post
        == pre))
}

fn done(r: Result<Redirect, HistoryError>) -> (resp: Response)
    ensures
        match r {
            Ok(rd) => resp.status == 303 && resp.location == Some(rd.location)
                && resp.set_cookie is None,
            Err(e) => resp.status == e.spec_status() && resp.location is None
                && resp.set_cookie is None,
        },
{
    match r {
        Ok(rd) => Response::redirect(rd),
        Err(e) => Response::error(e),
    }
}

/// Handles one request against the given upload second. The contract states
/// the surface's blanket rules; what each handler does to the state is its
/// own contract.
pub fn handle_at(app: &mut App, req: &Request, stamp: u64) -> (resp: Response)
    requires
        old(app).wf(),
    ensures
        final(app).wf(),
        // the fallback: an unmatched request is the missing page, untouched state
        match_route_spec(req.method, req.path@) == Route::NotFound ==> (resp.status == 404
            && *final(app) == *old(app) && (resp.body matches Body::Text(t) && t@
            == "Nothing to see here"@)),
        // the body cap: an oversize request is rejected before any handler runs
        (match_route_spec(req.method, req.path@) != Route::NotFound && req.body_len
            > body_limit_spec(match_route_spec(req.method, req.path@))) ==> (resp.status == 413
            && *final(app) == *old(app)),
        // admission: an unauthenticated request to the protected subtree is
        // redirected to the login form and changes nothing
        (match_route_spec(req.method, req.path@) != Route::NotFound && req.body_len
            <= body_limit_spec(match_route_spec(req.method, req.path@)) && is_protected(
            match_route_spec(req.method, req.path@),
        ) && !old(app).admitted(req.cookie)) ==> (resp.status == 303
            && (resp.location matches Some(l) && l@ == "/login"@) && *final(app) == *old(app)),
        // cover consistency: only an update or delete of a cover-bearing
        // collection ever removes a file, so every other request keeps every
        // stored cover filename backed by a present file; those two do so as
        // long as the removed file was not shared between rows
        (old(app).covers_consistent() && (may_remove_cover(
            match_route_spec(req.method, req.path@),
        ) ==> cover_removal_safe(*old(app), *req, stamp))) ==> final(app).covers_consistent(),
        // the login flow: right secret in, session cookie out
        (match_route_spec(req.method, req.path@) == Route::LoginSubmit && req.body_len
            <= body_limit_spec(Route::LoginSubmit)) ==> login_outcome(
            *old(app),
            *final(app),
            *req,
            resp,
        ),
        // each matched route within its cap answers with its own outcome
        req.body_len <= body_limit_spec(match_route_spec(req.method, req.path@))
            ==> dispatch_outcome(*old(app), *final(app), *req, stamp, resp),
{
    let route = match_route(req.method, req.path.as_str());
    if matches!(route, Route::NotFound) {
        return Response::error(HistoryError::NotFound);
    }
    let limit = body_limit(&route);
    if req.body_len > limit {
        return Response::too_large();
    }
    if route_is_protected(&route) {
        let user = app.current_user(&req.cookie);
        let admitted = match &user {
            Some(u) => u.is_admin(),
            None => false,
        };
        if !admitted {
            return Response::redirect(Redirect::to("/login"));
        }
    }
    match route {
        Route::Home => Response::page(Page::Home(handlers::home(app))),
        Route::Lib => Response::page(Page::Lib(handlers::lib(app))),
        Route::Blog => Response::page(Page::Blog(handlers::blog(app))),
        Route::StaticAsset => Response::file(),
        Route::LoginForm => Response::page(Page::Login(admin::form())),
        Route::LoginSubmit => {
            let resp = match field(&req.fields, "secret") {
                None => Response::error(HistoryError::InternalError),
                Some(secret) => {
                    let input = LoginInput { secret };
                    match admin::login(app, &input) {
                        Ok((rd, c)) => Response::redirect_login(rd, c),
                        Err(e) => Response::error(e),
                    }
                },
            };
            proof {
                assert(login_outcome(*old(app), *app, *req, resp));
            }
            resp
        },
        Route::Logout => Response::redirect(admin::logout(app, &req.cookie)),
        Route::List(c) => match c {
            Collection::Books => Response::page(Page::Books(books::all(app))),
            Collection::TextBooks => Response::page(Page::TextBooks(textbooks::all(app))),
            Collection::Publications => Response::page(
                Page::Publications(publications::all(app)),
            ),
            Collection::Texts => Response::page(Page::Texts(texts::all(app))),
            Collection::Posts => Response::page(Page::Posts(posts::all(app))),
        },
        Route::AddForm(c) => match c {
            Collection::Books => Response::page(Page::BookForm(books::add())),
            Collection::TextBooks => Response::page(Page::TextBookForm(textbooks::add())),
            Collection::Publications => Response::page(
                Page::PublicationForm(publications::add()),
            ),
            Collection::Texts => Response::page(Page::TextForm(texts::add())),
            Collection::Posts => Response::page(Page::PostForm(posts::add())),
        },
        Route::Create(c) => match c {
            Collection::Books => match book_input(&req.fields) {
                Ok(nb) => done(books::create(app, nb)),
                Err(e) => Response::error(e),
            },
            Collection::TextBooks => match textbook_input(&req.fields, &req.file_name) {
                Ok(u) => done(textbooks::create(app, u)),
                Err(e) => Response::error(e),
            },
            Collection::Publications => match publication_input(&req.fields) {
                Ok(np) => done(publications::create(app, np)),
                Err(e) => Response::error(e),
            },
            Collection::Texts => match text_input(&req.fields) {
                Ok(nt) => done(texts::create(app, nt)),
                Err(e) => Response::error(e),
            },
            Collection::Posts => match post_input(&req.fields, &req.file_name) {
                Ok(u) => done(posts::create(app, stamp, u)),
                Err(e) => Response::error(e),
            },
        },
        Route::EditForm(c, id) => match c {
            Collection::Books => match books::edit(app, id) {
                Ok(t) => Response::page(Page::BookEdit(t)),
                Err(e) => Response::error(e),
            },
            Collection::TextBooks => match textbooks::edit(app, id) {
                Ok(t) => Response::page(Page::TextBookEdit(t)),
                Err(e) => Response::error(e),
            },
            Collection::Publications => match publications::edit(app, id) {
                Ok(t) => Response::page(Page::PublicationEdit(t)),
                Err(e) => Response::error(e),
            },
            Collection::Texts => match texts::edit(app, id) {
                Ok(t) => Response::page(Page::TextEdit(t)),
                Err(e) => Response::error(e),
            },
            Collection::Posts => match posts::edit(app, id) {
                Ok(t) => Response::page(Page::PostEdit(t)),
                Err(e) => Response::error(e),
            },
        },
        Route::Update(c, id) => match c {
            Collection::Books => match book_input(&req.fields) {
                Ok(nb) => done(books::update(app, id, nb)),
                Err(e) => Response::error(e),
            },
            Collection::TextBooks => match textbook_input(&req.fields, &req.file_name) {
                Ok(u) => done(textbooks::update(app, id, u)),
                Err(e) => Response::error(e),
            },
            Collection::Publications => match publication_input(&req.fields) {
                Ok(np) => done(publications::update(app, id, np)),
                Err(e) => Response::error(e),
            },
            Collection::Texts => match text_input(&req.fields) {
                Ok(nt) => done(texts::update(app, id, nt)),
                Err(e) => Response::error(e),
            },
            Collection::Posts => match post_input(&req.fields, &req.file_name) {
                Ok(u) => done(posts::update(app, id, stamp, u)),
                Err(e) => Response::error(e),
            },
        },
        Route::Delete(c, id) => match c {
            Collection::Books => done(books::delete(app, id)),
            Collection::TextBooks => done(textbooks::delete(app, id)),
            Collection::Publications => done(publications::delete(app, id)),
            Collection::Texts => done(texts::delete(app, id)),
            Collection::Posts => done(posts::delete(app, id)),
        },
        Route::NotFound => Response::error(HistoryError::NotFound),
    }
}

/// Relies on chrono's Local::now for the current Unix-epoch second; its value
/// depends on the clock, so nothing is promised of it.
#[verifier::external_body]
fn now_epoch_secs() -> u64 {
    chrono::Local::now().timestamp() as u64
}

/// Handles one request at the current time.
pub fn handle(app: &mut App, req: &Request) -> (resp: Response)
    requires
        old(app).wf(),
    ensures
        final(app).wf(),
        match_route_spec(req.method, req.path@) == Route::NotFound ==> (resp.status == 404
            && *final(app) == *old(app) && (resp.body matches Body::Text(t) && t@
            == "Nothing to see here"@)),
        (match_route_spec(req.method, req.path@) != Route::NotFound && req.body_len
            > body_limit_spec(match_route_spec(req.method, req.path@))) ==> (resp.status == 413
            && *final(app) == *old(app)),
        (match_route_spec(req.method, req.path@) != Route::NotFound && req.body_len
            <= body_limit_spec(match_route_spec(req.method, req.path@)) && is_protected(
            match_route_spec(req.method, req.path@),
        ) && !old(app).admitted(req.cookie)) ==> (resp.status == 303
            && (resp.location matches Some(l) && l@ == "/login"@) && *final(app) == *old(app)),
        (match_route_spec(req.method, req.path@) == Route::LoginSubmit && req.body_len
            <= body_limit_spec(Route::LoginSubmit)) ==> login_outcome(
            *old(app),
            *final(app),
            *req,
            resp,
        ),
        (old(app).covers_consistent() && (forall|st: u64|
            cover_removal_safe(*old(app), *req, st))) ==> final(app).covers_consistent(),
        // each matched route within its cap answers with its own outcome, for
        // the upload second the call drew from the clock
        req.body_len <= body_limit_spec(match_route_spec(req.method, req.path@))
            ==> exists|st: u64| dispatch_outcome(*old(app), *final(app), *req, st, resp),
{
    let stamp = now_epoch_secs();
    handle_at(app, req, stamp)
}

} // verus!
