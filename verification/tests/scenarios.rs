use history::routes::Method;
use history::server::{handle, handle_at, Body, Page, Request, Response};
use history::views::handlers::entry;
use history::session::Cookie;
use history::state::App;

fn s(x: &str) -> String {
    x.to_string()
}

fn get(path: &str, cookie: Option<Cookie>) -> Request {
    Request {
        method: Method::Get,
        path: s(path),
        cookie,
        fields: Vec::new(),
        file_name: None,
        body_len: 0,
    }
}

fn post(path: &str, cookie: Option<Cookie>, fields: Vec<(&str, &str)>) -> Request {
    Request {
        method: Method::Post,
        path: s(path),
        cookie,
        fields: fields.into_iter().map(|(k, v)| (s(k), s(v))).collect(),
        file_name: None,
        body_len: 64,
    }
}

fn location(resp: &Response) -> &str {
    resp.location.as_deref().unwrap()
}

fn login(app: &mut App) -> Cookie {
    let resp = handle_at(app, &post("/login", None, vec![("secret", "sesame")]), 0);
    assert_eq!(resp.status, 303);
    assert_eq!(location(&resp), "/books");
    resp.set_cookie.unwrap()
}

#[test]
fn unauthenticated_protected_access_redirects_to_login() {
    let mut app = App::new(s("sesame"));
    let resp = handle_at(&mut app, &get("/books", None), 0);
    assert_eq!(resp.status, 303);
    assert_eq!(location(&resp), "/login");
}

#[test]
fn login_success_sets_a_session_cookie() {
    let mut app = App::new(s("sesame"));
    let cookie = login(&mut app);
    let resp = handle_at(&mut app, &get("/books", Some(cookie)), 0);
    assert_eq!(resp.status, 200);
    match resp.body {
        Body::Html(Page::Books(t)) => assert_eq!(t.books.len(), 0),
        _ => panic!("expected the books listing"),
    }
}

#[test]
fn login_failure_sets_nothing() {
    let mut app = App::new(s("sesame"));
    let resp = handle_at(&mut app, &post("/login", None, vec![("secret", "wrong")]), 0);
    assert_eq!(resp.status, 303);
    assert_eq!(location(&resp), "/login");
    assert!(resp.set_cookie.is_none());
}

#[test]
fn logout_ends_the_session() {
    let mut app = App::new(s("sesame"));
    let cookie = login(&mut app);
    let resp = handle_at(&mut app, &get("/logout", Some(cookie)), 0);
    assert_eq!(resp.status, 303);
    assert_eq!(location(&resp), "/");
    let resp = handle_at(&mut app, &get("/books", Some(cookie)), 0);
    assert_eq!(resp.status, 303);
    assert_eq!(location(&resp), "/login");
}

#[test]
fn restart_invalidates_session_cookies() {
    let mut app = App::new(s("sesame"));
    let cookie = login(&mut app);
    // the process restarts: fresh state under the same secret
    let mut app = App::new(s("sesame"));
    let resp = handle_at(&mut app, &get("/books", Some(cookie)), 0);
    assert_eq!(resp.status, 303);
    assert_eq!(location(&resp), "/login");
}

#[test]
fn create_book_then_list_shows_it() {
    let mut app = App::new(s("sesame"));
    let cookie = login(&mut app);
    let resp = handle_at(
        &mut app,
        &post(
            "/books/create",
            Some(cookie),
            vec![("name", "A"), ("link", "L"), ("description", "D")],
        ),
        0,
    );
    assert_eq!(resp.status, 303);
    assert_eq!(location(&resp), "/books");
    let resp = handle_at(&mut app, &get("/books", Some(cookie)), 0);
    match resp.body {
        Body::Html(Page::Books(t)) => {
            assert_eq!(t.books.len(), 1);
            assert_eq!(t.books[0].name, "A");
            assert_eq!(t.books[0].link, "L");
            assert_eq!(t.books[0].description, "D");
        },
        _ => panic!("expected the books listing"),
    }
}

#[test]
fn update_post_cover_stamps_and_swaps_the_file() {
    let mut app = App::new(s("sesame"));
    let cookie = login(&mut app);
    let mut req = post(
        "/posts/create",
        Some(cookie),
        vec![("title", "T"), ("lead", "L"), ("body", "B")],
    );
    req.file_name = Some(s("old.jpg"));
    let resp = handle_at(&mut app, &req, 100);
    assert_eq!(resp.status, 303);
    assert!(app.images.contains(&s("100_old.jpg")));

    let mut req = post(
        "/posts/update/1",
        Some(cookie),
        vec![("title", "T2"), ("lead", "L2"), ("body", "B2")],
    );
    req.file_name = Some(s("new.jpg"));
    let resp = handle_at(&mut app, &req, 200);
    assert_eq!(resp.status, 303);
    assert_eq!(location(&resp), "/posts");
    assert!(app.images.contains(&s("200_new.jpg")));
    assert!(!app.images.contains(&s("100_old.jpg")));
    let resp = handle_at(&mut app, &get("/posts/update/1", Some(cookie)), 0);
    match resp.body {
        Body::Html(Page::PostEdit(t)) => {
            assert_eq!(t.post.cover, "200_new.jpg");
            assert_eq!(t.post.title, "T2");
        },
        _ => panic!("expected the post edit form"),
    }
}

#[test]
fn update_post_with_no_file_keeps_the_cover() {
    let mut app = App::new(s("sesame"));
    let cookie = login(&mut app);
    let mut req = post(
        "/posts/create",
        Some(cookie),
        vec![("title", "T"), ("lead", "L"), ("body", "B")],
    );
    req.file_name = Some(s("a.jpg"));
    handle_at(&mut app, &req, 7);
    let req = post(
        "/posts/update/1",
        Some(cookie),
        vec![("title", "T2"), ("lead", "L2"), ("body", "B2")],
    );
    handle_at(&mut app, &req, 9);
    assert!(app.images.contains(&s("7_a.jpg")));
    let resp = handle_at(&mut app, &get("/posts/update/1", Some(cookie)), 0);
    match resp.body {
        Body::Html(Page::PostEdit(t)) => assert_eq!(t.post.cover, "7_a.jpg"),
        _ => panic!("expected the post edit form"),
    }
}

#[test]
fn delete_text_removes_row_and_cover() {
    let mut app = App::new(s("sesame"));
    let cookie = login(&mut app);
    for (n, c) in [("t1", "c1.jpg"), ("t2", "c2.jpg")] {
        let resp = handle_at(
            &mut app,
            &post(
                "/texts/create",
                Some(cookie),
                vec![("name", n), ("link", "l"), ("description", "d"), ("cover", c)],
            ),
            0,
        );
        assert_eq!(resp.status, 303);
    }
    let resp = handle_at(&mut app, &post("/texts/delete/2", Some(cookie), vec![]), 0);
    assert_eq!(resp.status, 303);
    assert_eq!(location(&resp), "/texts");
    let resp = handle_at(&mut app, &get("/texts/update/2", Some(cookie)), 0);
    assert_eq!(resp.status, 404);
    assert!(!app.images.contains(&s("c2.jpg")));
    assert!(app.images.contains(&s("c1.jpg")));
}

#[test]
fn missing_required_field_is_an_internal_error() {
    let mut app = App::new(s("sesame"));
    let cookie = login(&mut app);
    let resp = handle_at(
        &mut app,
        &post("/books/create", Some(cookie), vec![("name", "A"), ("link", "L")]),
        0,
    );
    assert_eq!(resp.status, 500);
    match resp.body {
        Body::Text(t) => assert_eq!(t, "Internal Error"),
        _ => panic!("expected a plain-text error"),
    }
}

#[test]
fn unknown_id_update_and_delete_are_internal_errors() {
    let mut app = App::new(s("sesame"));
    let cookie = login(&mut app);
    let resp = handle_at(
        &mut app,
        &post(
            "/books/update/9",
            Some(cookie),
            vec![("name", "A"), ("link", "L"), ("description", "D")],
        ),
        0,
    );
    assert_eq!(resp.status, 500);
    let resp = handle_at(&mut app, &post("/publications/delete/9", Some(cookie), vec![]), 0);
    assert_eq!(resp.status, 500);
    // the cover-bearing collections answer the same way
    let resp = handle_at(&mut app, &post("/texts/delete/9", Some(cookie), vec![]), 0);
    assert_eq!(resp.status, 500);
    let resp = handle_at(&mut app, &post("/posts/delete/9", Some(cookie), vec![]), 0);
    assert_eq!(resp.status, 500);
    let mut req = post(
        "/textbooks/update/9",
        Some(cookie),
        vec![("name", "n"), ("link", "l"), ("description", "d")],
    );
    req.file_name = Some(s("c.png"));
    let resp = handle_at(&mut app, &req, 0);
    assert_eq!(resp.status, 500);
}

#[test]
fn oversize_bodies_are_rejected_before_the_handlers() {
    let mut app = App::new(s("sesame"));
    let cookie = login(&mut app);
    let mut req = post(
        "/books/create",
        Some(cookie),
        vec![("name", "A"), ("link", "L"), ("description", "D")],
    );
    req.body_len = 8 * 1024 * 1024 + 1;
    let resp = handle_at(&mut app, &req, 0);
    assert_eq!(resp.status, 413);
    let resp = handle_at(&mut app, &get("/books", Some(cookie)), 0);
    match resp.body {
        Body::Html(Page::Books(t)) => assert_eq!(t.books.len(), 0),
        _ => panic!("expected the books listing"),
    }
    // where an image upload is permitted, the cap is higher
    let mut req = post(
        "/posts/create",
        Some(cookie),
        vec![("title", "T"), ("lead", "L"), ("body", "B")],
    );
    req.body_len = 8 * 1024 * 1024 + 1;
    let resp = handle_at(&mut app, &req, 0);
    assert_eq!(resp.status, 303);
    req.body_len = 23 * 1024 * 1024 + 1;
    let resp = handle_at(&mut app, &req, 0);
    assert_eq!(resp.status, 413);
}

#[test]
fn the_fallback_is_the_missing_page() {
    let mut app = App::new(s("sesame"));
    let resp = handle_at(&mut app, &get("/nothing/here", None), 0);
    assert_eq!(resp.status, 404);
    match resp.body {
        Body::Text(t) => assert_eq!(t, "Nothing to see here"),
        _ => panic!("expected a plain-text body"),
    }
}

#[test]
fn unauthenticated_mutations_change_nothing() {
    let mut app = App::new(s("sesame"));
    let cookie = login(&mut app);
    handle_at(
        &mut app,
        &post(
            "/books/create",
            Some(cookie),
            vec![("name", "A"), ("link", "L"), ("description", "D")],
        ),
        0,
    );
    let resp = handle_at(&mut app, &post("/books/delete/1", None, vec![]), 0);
    assert_eq!(resp.status, 303);
    assert_eq!(location(&resp), "/login");
    let resp = handle_at(&mut app, &get("/books", Some(cookie)), 0);
    match resp.body {
        Body::Html(Page::Books(t)) => assert_eq!(t.books.len(), 1),
        _ => panic!("expected the books listing"),
    }
}

#[test]
fn covers_stay_consistent_across_mutations() {
    let mut app = App::new(s("sesame"));
    let cookie = login(&mut app);
    let mut req = post(
        "/textbooks/create",
        Some(cookie),
        vec![("name", "tb"), ("link", "l"), ("description", "d")],
    );
    req.file_name = Some(s("tb.png"));
    handle_at(&mut app, &req, 0);
    let mut req = post(
        "/textbooks/update/1",
        Some(cookie),
        vec![("name", "tb2"), ("link", "l2"), ("description", "d2")],
    );
    req.file_name = Some(s("tb2.png"));
    handle_at(&mut app, &req, 0);
    // every stored cover names a present file, and the replaced one is gone
    assert!(app.images.contains(&s("tb2.png")));
    assert!(!app.images.contains(&s("tb.png")));
    let resp = handle_at(&mut app, &get("/textbooks/update/1", Some(cookie)), 0);
    match resp.body {
        Body::Html(Page::TextBookEdit(t)) => {
            assert!(app.images.contains(&t.textbook.cover));
        },
        _ => panic!("expected the textbook edit form"),
    }
}

#[test]
fn public_pages_need_no_session() {
    let mut app = App::new(s("sesame"));
    assert_eq!(handle_at(&mut app, &get("/", None), 0).status, 200);
    assert_eq!(handle_at(&mut app, &get("/lib", None), 0).status, 200);
    assert_eq!(handle_at(&mut app, &get("/blog", None), 0).status, 200);
    assert_eq!(handle_at(&mut app, &get("/static/img/x.png", None), 0).status, 200);
    assert_eq!(handle_at(&mut app, &get("/login", None), 0).status, 200);
}

#[test]
fn handle_stamps_post_covers_with_the_clock() {
    let mut app = App::new(s("sesame"));
    let cookie = login(&mut app);
    let mut req = post(
        "/posts/create",
        Some(cookie),
        vec![("title", "T"), ("lead", "L"), ("body", "B")],
    );
    req.file_name = Some(s("pic.jpg"));
    let resp = handle(&mut app, &req);
    assert_eq!(resp.status, 303);
    let resp = handle(&mut app, &get("/posts/update/1", Some(cookie)));
    match resp.body {
        Body::Html(Page::PostEdit(t)) => {
            // the stored name is the upload second, an underscore, the client name
            let (stamp, name) = t.post.cover.split_once('_').unwrap();
            assert!(!stamp.is_empty() && stamp.chars().all(|c| c.is_ascii_digit()));
            assert_eq!(name, "pic.jpg");
            assert!(app.images.contains(&t.post.cover));
        },
        _ => panic!("expected the post edit form"),
    }
}

#[test]
fn a_single_blog_entry_is_fetched_by_id() {
    let mut app = App::new(s("sesame"));
    let cookie = login(&mut app);
    let mut req = post(
        "/posts/create",
        Some(cookie),
        vec![("title", "T"), ("lead", "L"), ("body", "B")],
    );
    req.file_name = Some(s("pic.jpg"));
    handle_at(&mut app, &req, 3);
    let t = entry(&app, 1).unwrap();
    assert_eq!(t.post.title, "T");
    assert_eq!(t.post.cover, "3_pic.jpg");
    assert!(entry(&app, 2).is_err());
}
