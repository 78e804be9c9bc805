//! The handlers: one module per collection, the public pages, and the login
//! flow. Each handler decides what the response is — a page's contents or a
//! redirect target — and how the state changes; rendering the page to HTML
//! and carrying it over the network happen outside the library.

pub mod admin;
pub mod books;
pub mod handlers;
pub mod posts;
pub mod publications;
pub mod textbooks;
pub mod texts;

use vstd::prelude::*;

verus! {

/// Wraps a template for rendering to an HTML response body; the renderer
/// itself lives outside the library.
pub struct HtmlTemplate<T>(pub T);

/// A redirect: HTTP 303 to the given location.
pub struct Redirect {
    pub location: String,
}

impl Redirect {
    pub fn to(location: &str) -> (r: Redirect)
        ensures
            r.location@ == location@,
    {
        Redirect { location: location.to_owned() }
    }
}

} // verus!
