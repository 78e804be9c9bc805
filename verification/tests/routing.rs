use history::routes::{
    body_limit, match_route, Collection, Method, Route, FORM_BODY_LIMIT, UPLOAD_BODY_LIMIT,
};

fn get(path: &str) -> Route {
    match_route(Method::Get, path)
}

fn post(path: &str) -> Route {
    match_route(Method::Post, path)
}

#[test]
fn public_routes() {
    assert_eq!(get("/"), Route::Home);
    assert_eq!(get("/lib"), Route::Lib);
    assert_eq!(get("/blog"), Route::Blog);
    assert_eq!(get("/static/img/a.jpg"), Route::StaticAsset);
    assert_eq!(get("/login"), Route::LoginForm);
    assert_eq!(post("/login"), Route::LoginSubmit);
    assert_eq!(get("/logout"), Route::Logout);
}

#[test]
fn collection_routes() {
    assert_eq!(get("/books"), Route::List(Collection::Books));
    assert_eq!(get("/textbooks"), Route::List(Collection::TextBooks));
    assert_eq!(get("/publications"), Route::List(Collection::Publications));
    assert_eq!(get("/texts"), Route::List(Collection::Texts));
    assert_eq!(get("/posts"), Route::List(Collection::Posts));
    assert_eq!(get("/books/create"), Route::AddForm(Collection::Books));
    assert_eq!(post("/books/create"), Route::Create(Collection::Books));
    assert_eq!(get("/posts/update/1"), Route::EditForm(Collection::Posts, 1));
    assert_eq!(post("/posts/update/1"), Route::Update(Collection::Posts, 1));
    assert_eq!(post("/texts/delete/2"), Route::Delete(Collection::Texts, 2));
}

#[test]
fn unmatched_requests_fall_through() {
    assert_eq!(get("/nothing/here"), Route::NotFound);
    assert_eq!(get(""), Route::NotFound);
    assert_eq!(get("books"), Route::NotFound);
    assert_eq!(post("/"), Route::NotFound);
    assert_eq!(post("/books"), Route::NotFound);
    assert_eq!(get("/texts/delete/2"), Route::NotFound);
    assert_eq!(get("/books/update/abc"), Route::NotFound);
    assert_eq!(get("/books/update/4294967296"), Route::NotFound);
    assert_eq!(get("/books/"), Route::NotFound);
    assert_eq!(get("/books/create/extra"), Route::NotFound);
}

#[test]
fn body_caps() {
    assert_eq!(FORM_BODY_LIMIT, 8 * 1024 * 1024);
    assert_eq!(UPLOAD_BODY_LIMIT, 23 * 1024 * 1024);
    assert_eq!(body_limit(&Route::Create(Collection::Books)), FORM_BODY_LIMIT);
    assert_eq!(body_limit(&Route::Create(Collection::Posts)), UPLOAD_BODY_LIMIT);
    assert_eq!(body_limit(&Route::Update(Collection::TextBooks, 1)), UPLOAD_BODY_LIMIT);
    assert_eq!(body_limit(&Route::Update(Collection::Publications, 1)), FORM_BODY_LIMIT);
    assert_eq!(body_limit(&Route::List(Collection::Posts)), FORM_BODY_LIMIT);
}
