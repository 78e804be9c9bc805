use history::auth::{authenticate, Role, User};
use history::error::HistoryError;
use history::session::{Cookie, Sessions};

fn s(x: &str) -> String {
    x.to_string()
}

#[test]
fn the_administrator() {
    let u = User::new(s("sesame"));
    assert_eq!(u.get_id(), 42);
    assert_eq!(u.name, "Admin");
    assert_eq!(u.get_password_hash(), "sesame");
    assert_eq!(u.get_role(), Some(Role::Admin));
    assert!(u.is_admin());
}

#[test]
fn authenticate_accepts_the_secret() {
    let u = authenticate(&s("sesame"), &s("sesame")).unwrap();
    assert_eq!(u.id, 42);
    assert_eq!(u.role, Role::Admin);
}

#[test]
fn authenticate_rejects_everything_else() {
    assert!(authenticate(&s("sesame"), &s("wrong")).is_none());
    assert!(authenticate(&s("sesame"), &s("")).is_none());
    assert!(authenticate(&s("sesame"), &s("Sesame")).is_none());
}

#[test]
fn login_issues_a_working_cookie() {
    let mut sessions = Sessions::new();
    let c = sessions.login(42).unwrap();
    assert_eq!(sessions.current_user_id(&c), Some(42));
}

#[test]
fn logout_ends_only_that_session() {
    let mut sessions = Sessions::new();
    let c1 = sessions.login(42).unwrap();
    let c2 = sessions.login(42).unwrap();
    sessions.logout(&c1);
    assert_eq!(sessions.current_user_id(&c1), None);
    assert_eq!(sessions.current_user_id(&c2), Some(42));
}

#[test]
fn a_cookie_under_another_key_is_rejected() {
    let mut sessions = Sessions::new();
    let c = sessions.login(42).unwrap();
    let forged = Cookie { key: c.key.wrapping_add(1), token: c.token };
    assert_eq!(sessions.current_user_id(&forged), None);
}

#[test]
fn restart_invalidates_previous_cookies() {
    let mut first = Sessions::new();
    let c = first.login(42).unwrap();
    assert_eq!(first.current_user_id(&c), Some(42));
    // the process restarts: a fresh store, a fresh key
    let second = Sessions::new();
    assert_eq!(second.current_user_id(&c), None);
}

#[test]
fn error_statuses_and_messages() {
    assert_eq!(HistoryError::NotFound.status(), 404);
    assert_eq!(HistoryError::NotFound.message(), "Nothing to see here");
    assert_eq!(HistoryError::InternalError.status(), 500);
    assert_eq!(HistoryError::InternalError.message(), "Internal Error");
}
