use history::chars::{decimal_string, parse_u32, split_path, str_eq};
use history::content::{next_cover, post_cover_name};
use history::images::ImageStore;
use history::models::book::{Book, NewBook};
use history::store::{StoreError, Table};

fn s(x: &str) -> String {
    x.to_string()
}

fn book(name: &str, link: &str, description: &str) -> NewBook {
    NewBook { name: s(name), link: s(link), description: s(description) }
}

#[test]
fn created_book_lists_once_as_highest_id() {
    let mut t: Table<NewBook> = Table::new();
    Book::create(&mut t, book("a", "la", "da")).unwrap();
    Book::create(&mut t, book("b", "lb", "db")).unwrap();
    let id = Book::create(&mut t, book("c", "lc", "dc")).unwrap();
    assert_eq!(t.len(), 3);
    let listed = Book::list(&t);
    assert_eq!(listed.len(), 3);
    assert_eq!(listed[2].id, id);
    assert_eq!(listed[2].name, "c");
    let occurrences = listed.iter().filter(|b| b.id == id).count();
    assert_eq!(occurrences, 1);
    assert!(listed.iter().all(|b| b.id <= id));
}

#[test]
fn list_is_ascending_by_id() {
    let mut t: Table<NewBook> = Table::new();
    for i in 0..5 {
        Book::create(&mut t, book(&format!("n{}", i), "l", "d")).unwrap();
    }
    let listed = Book::list(&t);
    for w in listed.windows(2) {
        assert!(w[0].id < w[1].id);
    }
}

#[test]
fn create_then_fetch_returns_the_record() {
    let mut t: Table<NewBook> = Table::new();
    let id = Book::create(&mut t, book("n", "l", "d")).unwrap();
    let got = Book::fetch(&t, id).unwrap();
    assert_eq!(got.id, id);
    assert_eq!(got.name, "n");
    assert_eq!(got.link, "l");
    assert_eq!(got.description, "d");
}

#[test]
fn update_then_fetch_returns_the_new_value() {
    let mut t: Table<NewBook> = Table::new();
    let id = Book::create(&mut t, book("n", "l", "d")).unwrap();
    Book::update(&mut t, id, book("n2", "l2", "d2")).unwrap();
    let got = Book::fetch(&t, id).unwrap();
    assert_eq!(got.id, id);
    assert_eq!(got.name, "n2");
    assert_eq!(got.link, "l2");
    assert_eq!(got.description, "d2");
}

#[test]
fn delete_then_fetch_is_not_found() {
    let mut t: Table<NewBook> = Table::new();
    let id = Book::create(&mut t, book("n", "l", "d")).unwrap();
    Book::delete(&mut t, id).unwrap();
    assert_eq!(Book::fetch(&t, id).unwrap_err(), StoreError::NotFound);
}

#[test]
fn ids_are_not_reused_after_delete() {
    let mut t: Table<NewBook> = Table::new();
    let id1 = Book::create(&mut t, book("a", "l", "d")).unwrap();
    Book::delete(&mut t, id1).unwrap();
    let id2 = Book::create(&mut t, book("b", "l", "d")).unwrap();
    assert!(id2 > id1);
}

#[test]
fn update_unknown_id_is_not_found() {
    let mut t: Table<NewBook> = Table::new();
    assert_eq!(Book::update(&mut t, 7, book("n", "l", "d")).unwrap_err(), StoreError::NotFound);
    assert_eq!(Book::delete(&mut t, 7).unwrap_err(), StoreError::NotFound);
}

#[test]
fn create_fails_only_when_the_id_space_is_exhausted() {
    let mut t: Table<NewBook> = Table { rows: Vec::new(), next_id: u32::MAX };
    assert_eq!(Book::create(&mut t, book("n", "l", "d")).unwrap_err(), StoreError::Failure);
    assert_eq!(t.len(), 0);
}

#[test]
fn duplicates_preserve_every_field() {
    let b = book("n", "l", "d");
    let c = b.dup();
    assert_eq!(c.name, b.name);
    assert_eq!(c.link, b.link);
    assert_eq!(c.description, b.description);
}

#[test]
fn image_store_write_remove_contains() {
    let mut imgs = ImageStore::new();
    assert!(!imgs.contains(&s("a.jpg")));
    imgs.write(s("a.jpg"));
    imgs.write(s("b.jpg"));
    imgs.write(s("a.jpg"));
    assert!(imgs.contains(&s("a.jpg")));
    assert!(imgs.contains(&s("b.jpg")));
    imgs.remove(&s("a.jpg"));
    assert!(!imgs.contains(&s("a.jpg")));
    assert!(imgs.contains(&s("b.jpg")));
}

#[test]
fn decimal_strings() {
    assert_eq!(decimal_string(0), "0");
    assert_eq!(decimal_string(7), "7");
    assert_eq!(decimal_string(1694000000), "1694000000");
    assert_eq!(decimal_string(u64::MAX), "18446744073709551615");
}

#[test]
fn parse_u32_accepts_digits_in_range() {
    assert_eq!(parse_u32("0"), Some(0));
    assert_eq!(parse_u32("12"), Some(12));
    assert_eq!(parse_u32("012"), Some(12));
    assert_eq!(parse_u32("4294967295"), Some(u32::MAX));
}

#[test]
fn parse_u32_rejects_the_rest() {
    assert_eq!(parse_u32(""), None);
    assert_eq!(parse_u32("abc"), None);
    assert_eq!(parse_u32("12a"), None);
    assert_eq!(parse_u32("-1"), None);
    assert_eq!(parse_u32("4294967296"), None);
    assert_eq!(parse_u32("99999999999999999999"), None);
}

#[test]
fn split_path_segments() {
    let segs = split_path("/books/update/12");
    assert_eq!(segs, vec![s(""), s("books"), s("update"), s("12")]);
    assert_eq!(split_path(""), vec![s("")]);
    assert_eq!(split_path("/"), vec![s(""), s("")]);
    assert_eq!(split_path("/books/"), vec![s(""), s("books"), s("")]);
}

#[test]
fn str_eq_compares_contents() {
    assert!(str_eq("abc", "abc"));
    assert!(!str_eq("abc", "abd"));
    assert!(!str_eq("abc", "ab"));
    assert!(str_eq("", ""));
}

#[test]
fn post_cover_names_are_stamped() {
    assert_eq!(post_cover_name(5, &s("a.jpg")), "5_a.jpg");
    assert_eq!(post_cover_name(1694000000, &s("new.jpg")), "1694000000_new.jpg");
    assert_eq!(post_cover_name(3, &s("")), "3_");
}

#[test]
fn next_cover_keeps_old_on_empty_upload() {
    assert_eq!(next_cover(&s("old.jpg"), &s(""), false, 9), "old.jpg");
    assert_eq!(next_cover(&s("old.jpg"), &s(""), true, 9), "old.jpg");
    assert_eq!(next_cover(&s("old.jpg"), &s("new.jpg"), false, 9), "new.jpg");
    assert_eq!(next_cover(&s("old.jpg"), &s("new.jpg"), true, 9), "9_new.jpg");
}
