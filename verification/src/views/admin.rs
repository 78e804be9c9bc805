//! The login flow: the form, the submit, and logout.

use vstd::prelude::*;
use crate::auth::{authenticate, LoginInput};
use crate::error::HistoryError;
use crate::session::Cookie;
use crate::state::App;
use crate::views::Redirect;

verus! {

/// The login form page.
pub struct LoginTemplate;

pub fn form() -> (t: LoginTemplate) {
    LoginTemplate {  }
}

/// Checks the submitted secret. On a match a session is opened for the
/// administrator and its cookie returned, redirecting to `/books`; otherwise
/// nothing changes and the client is sent back to `/login` — the response
/// does not say why. Fails only when the session store cannot take another
/// session.
pub fn login(app: &mut App, input: &LoginInput) -> (r: Result<
    (Redirect, Option<Cookie>),
    HistoryError,
>)
    requires
        old(app).wf(),
    ensures
        final(app).wf(),
        old(app).agrees_except_sessions(*final(app)),
        final(app).sessions.key == old(app).sessions.key,
        match r {
            Ok((rd, c)) => if input.secret@ == old(app).secret@ {
                &&& rd.location@ == "/books"@
                &&& c matches Some(ck) && {
                    &&& ck.key == old(app).sessions.key
                    &&& final(app).sessions.lookup(ck) == Some(42usize)
                    &&& final(app).sessions.entries@ =~= old(app).sessions.entries@.push(
                        (ck.token, 42usize),
                    )
                    &&& forall|c2: Cookie|
                        c2.token != ck.token ==> final(app).sessions.lookup(c2) == old(app).sessions.lookup(c2)
                }
            } else {
                &&& rd.location@ == "/login"@
                &&& c is None
                &&& final(app).sessions == old(app).sessions
            },
            Err(e) => {
                &&& e == HistoryError::InternalError
                &&& input.secret@ == old(app).secret@
                &&& old(app).sessions.next_token == u64::MAX
                &&& final(app).sessions == old(app).sessions
            },
        },
{
    match authenticate(&app.secret, &input.secret) {
        Some(user) => {
            let uid = user.get_id();
            match app.sessions.login(uid) {
                Some(c) => Ok((Redirect::to("/books"), Some(c))),
                None => Err(HistoryError::InternalError),
            }
        },
        None => Ok((Redirect::to("/login"), None)),
    }
}

/// Ends the cookie's session, if any, and sends the client home.
pub fn logout(app: &mut App, cookie: &Option<Cookie>) -> (r: Redirect)
    requires
        old(app).wf(),
    ensures
        final(app).wf(),
        old(app).agrees_except_sessions(*final(app)),
        final(app).sessions.key == old(app).sessions.key,
        r.location@ == "/"@,
        match cookie {
            Some(c) => final(app).sessions.lookup(*c) is None && (forall|c2: Cookie|
                c2.token != c.token ==> final(app).sessions.lookup(c2) == old(app).sessions.lookup(c2)),
            None => final(app).sessions == old(app).sessions,
        },
{
    match cookie {
        Some(c) => {
            app.sessions.logout(c);
        },
        None => {},
    }
    Redirect::to("/")
}

} // verus!
