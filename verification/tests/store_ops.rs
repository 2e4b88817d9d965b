//! The entity operations against the store model: the spec scenarios, one
//! test per error kind, and the laws on concrete values.

use bookstore::book::Book;
use bookstore::error::StoreError;
use bookstore::ops::create_book;
use bookstore::ops::read_book;
use bookstore::ops::require_connection_string;
use bookstore::ops::transaction_book;
use bookstore::ops::update_book;
use bookstore::store::AuthorCol;
use bookstore::store::BookRow;
use bookstore::store::Store;

fn book(isbn: &str, title: &str, author: &str) -> Book {
    Book::new(isbn.to_string(), title.to_string(), author.to_string())
}

#[test]
fn scenario_create_update_read() {
    let mut store = Store::new(4);
    let b = book("978-0-385-00751-1", "Salem's Lot", "Stephen King");
    assert_eq!(create_book(&b, &mut store), Ok(()));
    let b2 = book("978-0-385-00751-1", "The Stand", "Stephen King");
    assert_eq!(update_book(&b2, &mut store), Ok(()));
    let got = read_book("978-0-385-00751-1", &store).unwrap();
    assert_eq!(got.isbn, "978-0-385-00751-1");
    assert_eq!(got.title, "The Stand");
    assert_eq!(got.author, "Stephen King");
}

#[test]
fn scenario_transactional_create_and_rerun() {
    let mut store = Store::new(4);
    let b = book("978-0-385-00751-2", "Midnight", "Stephen King");
    assert_eq!(transaction_book(b, &mut store), Ok(()));
    // Both rows appeared together: the author with the generated key, the
    // book referencing exactly that key.
    assert_eq!(store.authors.len(), 1);
    assert_eq!(store.authors[0].id, 1);
    assert_eq!(store.authors[0].name, "Stephen King");
    assert_eq!(store.books.len(), 1);
    assert_eq!(store.books[0].isbn, "978-0-385-00751-2");
    assert_eq!(store.books[0].title, "Midnight");
    assert_eq!(store.books[0].author, AuthorCol::Id(1));
    // Re-running the same call fails on the book insert's uniqueness
    // constraint, and the author insert of the failed attempt is rolled
    // back: no second author row remains.
    let b2 = book("978-0-385-00751-2", "Midnight", "Stephen King");
    assert_eq!(transaction_book(b2, &mut store), Err(StoreError::Operation));
    assert_eq!(store.authors.len(), 1);
    assert_eq!(store.books.len(), 1);
    assert_eq!(store.leased, 0);
}

#[test]
fn create_with_taken_isbn_is_refused() {
    let mut store = Store::new(4);
    let b = book("1-111", "One", "A");
    assert_eq!(create_book(&b, &mut store), Ok(()));
    let other = book("1-111", "Two", "B");
    assert_eq!(create_book(&other, &mut store), Err(StoreError::Operation));
    // Nothing was overwritten.
    assert_eq!(store.books.len(), 1);
    assert_eq!(store.books[0].title, "One");
    assert_eq!(store.books[0].author, AuthorCol::Name("A".to_string()));
}

#[test]
fn read_missing_isbn_is_not_found() {
    let store = Store::new(4);
    assert_eq!(read_book("0-000", &store), Err(StoreError::NotFound));
}

#[test]
fn read_duplicate_rows_is_ambiguous() {
    // The model enforces nothing on a hand-made store, so a table that
    // violates the isbn invariant can be written down directly.
    let mut store = Store::new(4);
    store.books.push(BookRow {
        isbn: "9-999".to_string(),
        title: "First".to_string(),
        author: AuthorCol::Name("A".to_string()),
    });
    store.books.push(BookRow {
        isbn: "9-999".to_string(),
        title: "Second".to_string(),
        author: AuthorCol::Name("B".to_string()),
    });
    assert_eq!(read_book("9-999", &store), Err(StoreError::AmbiguousResult));
}

#[test]
fn read_of_transactional_row_fails_to_decode() {
    // The transactional path stores a key where the single-statement path
    // stores text; the text decode of such a row surfaces as a
    // statement-level fault, not as a missing row.
    let mut store = Store::new(4);
    let b = book("2-222", "Midnight", "Stephen King");
    assert_eq!(transaction_book(b, &mut store), Ok(()));
    assert_eq!(read_book("2-222", &store), Err(StoreError::Operation));
}

#[test]
fn update_of_missing_isbn_reports_success() {
    // The weak guarantee: zero matched rows and a real update are not told
    // apart.
    let mut store = Store::new(4);
    let b = book("3-333", "New Title", "C");
    assert_eq!(update_book(&b, &mut store), Ok(()));
    assert_eq!(store.books.len(), 0);
}

#[test]
fn update_twice_equals_update_once() {
    let mut once = Store::new(4);
    let mut twice = Store::new(4);
    let b = book("4-444", "Original", "D");
    assert_eq!(create_book(&b, &mut once), Ok(()));
    assert_eq!(create_book(&b, &mut twice), Ok(()));
    let upd = book("4-444", "Changed", "D");
    assert_eq!(update_book(&upd, &mut once), Ok(()));
    assert_eq!(update_book(&upd, &mut twice), Ok(()));
    assert_eq!(update_book(&upd, &mut twice), Ok(()));
    assert_eq!(once.books, twice.books);
    assert_eq!(once.books[0].title, "Changed");
}

#[test]
fn update_touches_only_matching_rows() {
    let mut store = Store::new(4);
    assert_eq!(create_book(&book("5-555", "Left", "E"), &mut store), Ok(()));
    assert_eq!(create_book(&book("6-666", "Right", "F"), &mut store), Ok(()));
    assert_eq!(update_book(&book("5-555", "Left Renamed", "E"), &mut store), Ok(()));
    assert_eq!(store.books[0].title, "Left Renamed");
    assert_eq!(store.books[1].title, "Right");
    assert_eq!(store.books[1].isbn, "6-666");
}

#[test]
fn exhausted_pool_refuses_every_operation() {
    let mut store = Store::new(2);
    store.leased = 2;
    let b = book("7-777", "Any", "G");
    assert_eq!(create_book(&b, &mut store), Err(StoreError::Connection));
    assert_eq!(update_book(&b, &mut store), Err(StoreError::Connection));
    assert_eq!(read_book("7-777", &store), Err(StoreError::Connection));
    assert_eq!(transaction_book(b, &mut store), Err(StoreError::Connection));
    assert_eq!(store.books.len(), 0);
    assert_eq!(store.leased, 2);
}

#[test]
fn fifty_failing_operations_leak_no_lease() {
    let mut store = Store::new(2);
    assert_eq!(create_book(&book("8-888", "Kept", "H"), &mut store), Ok(()));
    let leased_before = store.leased;
    for _ in 0..50 {
        // Each attempt hits the uniqueness constraint and fails.
        assert_eq!(create_book(&book("8-888", "Again", "H"), &mut store), Err(StoreError::Operation));
    }
    assert_eq!(store.leased, leased_before);
    assert_eq!(store.books.len(), 1);
}

#[test]
fn author_sequence_exhaustion_rolls_back() {
    let mut store = Store::new(4);
    store.next_author_id = i64::MAX;
    let b = book("10-000", "Late", "I");
    assert_eq!(transaction_book(b, &mut store), Err(StoreError::Operation));
    assert_eq!(store.books.len(), 0);
    assert_eq!(store.authors.len(), 0);
    assert_eq!(store.next_author_id, i64::MAX);
}

#[test]
fn new_store_is_empty_and_idle() {
    let store = Store::new(8);
    assert_eq!(store.capacity, 8);
    assert_eq!(store.leased, 0);
    assert_eq!(store.books.len(), 0);
    assert_eq!(store.authors.len(), 0);
    assert_eq!(store.next_author_id, 1);
}

#[test]
fn missing_connection_string_is_fatal_configuration() {
    assert_eq!(require_connection_string(None), Err(StoreError::Configuration));
    assert_eq!(
        require_connection_string(Some("postgres://localhost/db".to_string())),
        Ok("postgres://localhost/db".to_string())
    );
}
