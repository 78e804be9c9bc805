//! The HTTP surface's routing table: which URL, under which method, reaches
//! which handler — and the request-body caps the router enforces on mutating
//! endpoints.

use vstd::prelude::*;
use crate::chars::{dec_val, is_digits, parse_u32, split_path, split_slash, str_eq};

verus! {

#[derive(Clone, Copy, Debug, PartialEq, Eq, Structural)]
pub enum Method {
    Get,
    Post,
}

/// The five content collections, by URL prefix.
#[derive(Clone, Copy, Debug, PartialEq, Eq, Structural)]
pub enum Collection {
    Books,
    TextBooks,
    Publications,
    Texts,
    Posts,
}

/// Whether items of the collection carry a cover image.
pub open spec fn has_cover(c: Collection) -> bool {
    c == Collection::TextBooks || c == Collection::Texts || c == Collection::Posts
}

/// Where a request lands: a public page, the login flow, a handler of the
/// protected subtree, or nowhere.
#[derive(Clone, Copy, Debug, PartialEq, Eq, Structural)]
pub enum Route {
    Home,
    Lib,
    Blog,
    StaticAsset,
    LoginForm,
    LoginSubmit,
    Logout,
    List(Collection),
    AddForm(Collection),
    Create(Collection),
    EditForm(Collection, u32),
    Update(Collection, u32),
    Delete(Collection, u32),
    NotFound,
}

/// The routes under `/{collection}/…`: they require an authenticated
/// administrator.
pub open spec fn is_protected(r: Route) -> bool {
    match r {
        Route::List(_) => true,
        Route::AddForm(_) => true,
        Route::Create(_) => true,
        Route::EditForm(_, _) => true,
        Route::Update(_, _) => true,
        Route::Delete(_, _) => true,
        _ => false,
    }
}

/// The collection a URL segment names, if any.
pub open spec fn collection_of(seg: Seq<char>) -> Option<Collection> {
    if seg == "books"@ {
        Some(Collection::Books)
    } else if seg == "textbooks"@ {
        Some(Collection::TextBooks)
    } else if seg == "publications"@ {
        Some(Collection::Publications)
    } else if seg == "texts"@ {
        Some(Collection::Texts)
    } else if seg == "posts"@ {
        Some(Collection::Posts)
    } else {
        None
    }
}

/// A URL segment read as an id: all digits and within 32 bits.
pub open spec fn id_of(seg: Seq<char>) -> Option<u32> {
    if is_digits(seg) && dec_val(seg) <= u32::MAX as int {
        Some(dec_val(seg) as u32)
    } else {
        None
    }
}

/// The routing table. A path is its `/`-separated segments; it matches a
/// route only if it begins with `/`. Anything unmatched — an unknown path, a
/// wrong method, a malformed id — is `NotFound`.
pub open spec fn match_route_spec(m: Method, path: Seq<char>) -> Route {
    let segs = split_slash(path);
    if segs.len() < 2 || segs[0].len() != 0 {
        Route::NotFound
    } else if segs.len() == 2 && segs[1].len() == 0 {
        if m == Method::Get {
            Route::Home
        } else {
            Route::NotFound
        }
    } else if segs.len() == 2 && segs[1] == "lib"@ {
        if m == Method::Get {
            Route::Lib
        } else {
            Route::NotFound
        }
    } else if segs.len() == 2 && segs[1] == "blog"@ {
        if m == Method::Get {
            Route::Blog
        } else {
            Route::NotFound
        }
    } else if segs.len() == 2 && segs[1] == "login"@ {
        if m == Method::Get {
            Route::LoginForm
        } else {
            Route::LoginSubmit
        }
    } else if segs.len() == 2 && segs[1] == "logout"@ {
        if m == Method::Get {
            Route::Logout
        } else {
            Route::NotFound
        }
    } else if segs[1] == "static"@ && segs.len() >= 3 {
        if m == Method::Get {
            Route::StaticAsset
        } else {
            Route::NotFound
        }
    } else if collection_of(segs[1]) is Some {
        let coll = collection_of(segs[1])->Some_0;
        if segs.len() == 2 {
            if m == Method::Get {
                Route::List(coll)
            } else {
                Route::NotFound
            }
        } else if segs.len() == 3 && segs[2] == "create"@ {
            if m == Method::Get {
                Route::AddForm(coll)
            } else {
                Route::Create(coll)
            }
        } else if segs.len() == 4 && segs[2] == "update"@ && id_of(segs[3]) is Some {
            if m == Method::Get {
                Route::EditForm(coll, id_of(segs[3])->Some_0)
            } else {
                Route::Update(coll, id_of(segs[3])->Some_0)
            }
        } else if segs.len() == 4 && segs[2] == "delete"@ && id_of(segs[3]) is Some {
            if m == Method::Post {
                Route::Delete(coll, id_of(segs[3])->Some_0)
            } else {
                Route::NotFound
            }
        } else {
            Route::NotFound
        }
    } else {
        Route::NotFound
    }
}

fn collection_seg(seg: &String) -> (r: Option<Collection>)
    ensures
        r == collection_of(seg@),
{
    if str_eq(seg.as_str(), "books") {
        Some(Collection::Books)
    } else if str_eq(seg.as_str(), "textbooks") {
        Some(Collection::TextBooks)
    } else if str_eq(seg.as_str(), "publications") {
        Some(Collection::Publications)
    } else if str_eq(seg.as_str(), "texts") {
        Some(Collection::Texts)
    } else if str_eq(seg.as_str(), "posts") {
        Some(Collection::Posts)
    } else {
        None
    }
}

/// Matches a request line against the routing table.
pub fn match_route(m: Method, path: &str) -> (r: Route)
    ensures
        r == match_route_spec(m, path@),
{
    let segs = split_path(path);
    let nsegs = segs.len();
    proof {
        assert(segs@.map_values(|x: String| x@).len() == nsegs);
        assert(forall|i: int|
            0 <= i < nsegs ==> segs@.map_values(|x: String| x@)[i] == segs@[i]@);
    }
    if nsegs < 2 || !segs[0].as_str().is_empty() {
        return Route::NotFound;
    }
    let head = &segs[1];
    if nsegs == 2 && head.as_str().is_empty() {
        return if matches!(m, Method::Get) {
            Route::Home
        } else {
            Route::NotFound
        };
    }
    if nsegs == 2 && str_eq(head.as_str(), "lib") {
        return if matches!(m, Method::Get) {
            Route::Lib
        } else {
            Route::NotFound
        };
    }
    if nsegs == 2 && str_eq(head.as_str(), "blog") {
        return if matches!(m, Method::Get) {
            Route::Blog
        } else {
            Route::NotFound
        };
    }
    if nsegs == 2 && str_eq(head.as_str(), "login") {
        return if matches!(m, Method::Get) {
            Route::LoginForm
        } else {
            Route::LoginSubmit
        };
    }
    if nsegs == 2 && str_eq(head.as_str(), "logout") {
        return if matches!(m, Method::Get) {
            Route::Logout
        } else {
            Route::NotFound
        };
    }
    if str_eq(head.as_str(), "static") && nsegs >= 3 {
        return if matches!(m, Method::Get) {
            Route::StaticAsset
        } else {
            Route::NotFound
        };
    }
    let coll = match collection_seg(head) {
        Some(c) => c,
        None => {
            return Route::NotFound;
        },
    };
    if nsegs == 2 {
        return if matches!(m, Method::Get) {
            Route::List(coll)
        } else {
            Route::NotFound
        };
    }
    if nsegs == 3 && str_eq(segs[2].as_str(), "create") {
        return if matches!(m, Method::Get) {
            Route::AddForm(coll)
        } else {
            Route::Create(coll)
        };
    }
    if nsegs == 4 && str_eq(segs[2].as_str(), "update") {
        return match parse_u32(segs[3].as_str()) {
            Some(id) => if matches!(m, Method::Get) {
                Route::EditForm(coll, id)
            } else {
                Route::Update(coll, id)
            },
            None => Route::NotFound,
        };
    }
    if nsegs == 4 && str_eq(segs[2].as_str(), "delete") {
        return match parse_u32(segs[3].as_str()) {
            Some(id) => if matches!(m, Method::Post) {
                Route::Delete(coll, id)
            } else {
                Route::NotFound
            },
            None => Route::NotFound,
        };
    }
    Route::NotFound
}

/// The routes whose handler may remove a cover file: updates and deletes of
/// the cover-bearing collections.
pub open spec fn may_remove_cover(r: Route) -> bool {
    match r {
        Route::Update(c, _) => has_cover(c),
        Route::Delete(c, _) => has_cover(c),
        _ => false,
    }
}

/// Whether the route requires an authenticated administrator.
pub fn route_is_protected(r: &Route) -> (b: bool)
    ensures
        b == is_protected(*r),
{
    match r {
        Route::List(_) => true,
        Route::AddForm(_) => true,
        Route::Create(_) => true,
        Route::EditForm(_, _) => true,
        Route::Update(_, _) => true,
        Route::Delete(_, _) => true,
        _ => false,
    }
}

/// The body cap on mutating endpoints: eight mebibytes for url-encoded forms.
pub const FORM_BODY_LIMIT: usize = 8 * 1024 * 1024;

/// The body cap where an image upload is permitted: twenty-three mebibytes.
pub const UPLOAD_BODY_LIMIT: usize = 23 * 1024 * 1024;

/// The request-body cap the router enforces before a handler runs.
pub open spec fn body_limit_spec(r: Route) -> usize {
    match r {
        Route::Create(c) => if has_cover(c) {
            UPLOAD_BODY_LIMIT
        } else {
            FORM_BODY_LIMIT
        },
        Route::Update(c, _) => if has_cover(c) {
            UPLOAD_BODY_LIMIT
        } else {
            FORM_BODY_LIMIT
        },
        _ => FORM_BODY_LIMIT,
    }
}

pub fn body_limit(r: &Route) -> (l: usize)
    ensures
        l == body_limit_spec(*r),
{
    match r {
        Route::Create(c) => match c {
            Collection::TextBooks => UPLOAD_BODY_LIMIT,
            Collection::Texts => UPLOAD_BODY_LIMIT,
            Collection::Posts => UPLOAD_BODY_LIMIT,
            _ => FORM_BODY_LIMIT,
        },
        Route::Update(c, _) => match c {
            Collection::TextBooks => UPLOAD_BODY_LIMIT,
            Collection::Texts => UPLOAD_BODY_LIMIT,
            Collection::Posts => UPLOAD_BODY_LIMIT,
            _ => FORM_BODY_LIMIT,
        },
        _ => FORM_BODY_LIMIT,
    }
}

} // verus!
