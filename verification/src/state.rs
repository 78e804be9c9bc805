//! The whole site's state: the configured secret, the session store, the
//! user registry, the five tables, and the image store — with the invariant
//! that ties cover filenames to files.

use vstd::prelude::*;
use crate::auth::{Role, User};
use crate::content::covers_ok;
use crate::images::ImageStore;
use crate::models::book::NewBook;
use crate::models::post::NewPost;
use crate::models::publication::NewPublication;
use crate::models::text::NewText;
use crate::models::textbook::NewTextBook;
use crate::session::{lookup_user, find_user, Cookie, Sessions};
use crate::store::Table;

verus! {

pub struct App {
    pub secret: String,
    pub sessions: Sessions,
    pub users: Vec<(usize, User)>,
    pub books: Table<NewBook>,
    pub textbooks: Table<NewTextBook>,
    pub publications: Table<NewPublication>,
    pub texts: Table<NewText>,
    pub posts: Table<NewPost>,
    pub images: ImageStore,
}

impl App {
    /// The structural invariant: every table, the session store and the
    /// image store are well formed.
    pub open spec fn wf(self) -> bool {
        &&& self.sessions.wf()
        &&& self.books.wf()
        &&& self.textbooks.wf()
        &&& self.publications.wf()
        &&& self.texts.wf()
        &&& self.posts.wf()
        &&& self.images.wf()
    }

    /// Cover consistency: in every cover-bearing collection, each row's cover
    /// is empty or names a file present in the image store.
    pub open spec fn covers_consistent(self) -> bool {
        &&& covers_ok(self.textbooks.rows@, self.images.names())
        &&& covers_ok(self.texts.rows@, self.images.names())
        &&& covers_ok(self.posts.rows@, self.images.names())
    }

    /// The user the request's cookie identifies, if any.
    pub open spec fn spec_current_user(self, cookie: Option<Cookie>) -> Option<User> {
        match cookie {
            None => None,
            Some(c) => match self.sessions.lookup(c) {
                None => None,
                Some(uid) => lookup_user(self.users@, uid),
            },
        }
    }

    /// Whether the request is admitted to the protected subtree: its cookie
    /// identifies a user whose role is at least administrator.
    pub open spec fn admitted(self, cookie: Option<Cookie>) -> bool {
        match self.spec_current_user(cookie) {
            Some(u) => crate::auth::role_at_least_admin(u.role),
            None => false,
        }
    }

    /// What a books handler may not touch.
    pub open spec fn agrees_except_books(self, b: App) -> bool {
        &&& b.secret == self.secret
        &&& b.sessions == self.sessions
        &&& b.users == self.users
        &&& b.textbooks == self.textbooks
        &&& b.publications == self.publications
        &&& b.texts == self.texts
        &&& b.posts == self.posts
        &&& b.images == self.images
    }

    /// What a publications handler may not touch.
    pub open spec fn agrees_except_publications(self, b: App) -> bool {
        &&& b.secret == self.secret
        &&& b.sessions == self.sessions
        &&& b.users == self.users
        &&& b.books == self.books
        &&& b.textbooks == self.textbooks
        &&& b.texts == self.texts
        &&& b.posts == self.posts
        &&& b.images == self.images
    }

    /// What a textbooks handler may not touch (it may touch the image store).
    pub open spec fn agrees_except_textbooks(self, b: App) -> bool {
        &&& b.secret == self.secret
        &&& b.sessions == self.sessions
        &&& b.users == self.users
        &&& b.books == self.books
        &&& b.publications == self.publications
        &&& b.texts == self.texts
        &&& b.posts == self.posts
    }

    /// What a texts handler may not touch (it may touch the image store).
    pub open spec fn agrees_except_texts(self, b: App) -> bool {
        &&& b.secret == self.secret
        &&& b.sessions == self.sessions
        &&& b.users == self.users
        &&& b.books == self.books
        &&& b.textbooks == self.textbooks
        &&& b.publications == self.publications
        &&& b.posts == self.posts
    }

    /// What a posts handler may not touch (it may touch the image store).
    pub open spec fn agrees_except_posts(self, b: App) -> bool {
        &&& b.secret == self.secret
        &&& b.sessions == self.sessions
        &&& b.users == self.users
        &&& b.books == self.books
        &&& b.textbooks == self.textbooks
        &&& b.publications == self.publications
        &&& b.texts == self.texts
    }

    /// What the login and logout handlers may not touch.
    pub open spec fn agrees_except_sessions(self, b: App) -> bool {
        &&& b.secret == self.secret
        &&& b.users == self.users
        &&& b.books == self.books
        &&& b.textbooks == self.textbooks
        &&& b.publications == self.publications
        &&& b.texts == self.texts
        &&& b.posts == self.posts
        &&& b.images == self.images
    }

    /// A fresh process: empty tables, an empty image store, a fresh session
    /// store, and the one administrator registered under the given secret.
    pub fn new(secret: String) -> (app: App)
        ensures
            app.wf(),
            app.covers_consistent(),
            app.secret == secret,
            app.sessions.entries@.len() == 0,
            app.users@.len() == 1 && app.users@[0].0 == 42 && app.users@[0].1.role
                == Role::Admin && app.users@[0].1.password_hash == secret,
            app.books.rows@.len() == 0 && app.books.next_id == 1,
            app.textbooks.rows@.len() == 0 && app.textbooks.next_id == 1,
            app.publications.rows@.len() == 0 && app.publications.next_id == 1,
            app.texts.rows@.len() == 0 && app.texts.next_id == 1,
            app.posts.rows@.len() == 0 && app.posts.next_id == 1,
    {
        let user = User::new(secret.clone());
        let mut users: Vec<(usize, User)> = Vec::new();
        users.push((user.get_id(), user));
        App {
            secret,
            sessions: Sessions::new(),
            users,
            books: Table::new(),
            textbooks: Table::new(),
            publications: Table::new(),
            texts: Table::new(),
            posts: Table::new(),
            images: ImageStore::new(),
        }
    }

    /// The user the request's cookie identifies, if any.
    pub fn current_user(&self, cookie: &Option<Cookie>) -> (r: Option<User>)
        ensures
            r == self.spec_current_user(*cookie),
    {
        match cookie {
            None => None,
            Some(c) => match self.sessions.current_user_id(c) {
                None => None,
                Some(uid) => find_user(&self.users, uid),
            },
        }
    }
}

} // verus!
