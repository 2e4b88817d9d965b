//! The transactional protocol driver: statement order, key propagation,
//! and rollback on failure.

use bookstore::book::Book;
use bookstore::txn::TxnAction;
use bookstore::txn::TxnDriver;
use bookstore::txn::TxnEvent;
use bookstore::txn::TxnPhase;

fn midnight() -> Book {
    Book::new(
        "978-0-385-00751-2".to_string(),
        "Midnight".to_string(),
        "Stephen King".to_string(),
    )
}

#[test]
fn happy_path_runs_the_protocol_in_order() {
    let (mut driver, first) = TxnDriver::start(midnight());
    match first {
        TxnAction::InsertAuthor { name } => assert_eq!(name, "Stephen King"),
        _ => panic!("the unit of work must open with the author insert"),
    }
    let second = driver.on_event(TxnEvent::AuthorInserted { id: 7 });
    match second {
        Some(TxnAction::InsertBook { title, author_id, isbn }) => {
            assert_eq!(title, "Midnight");
            assert_eq!(author_id, 7);
            assert_eq!(isbn, "978-0-385-00751-2");
        },
        _ => panic!("the book insert must follow, binding the generated key"),
    }
    let third = driver.on_event(TxnEvent::BookInserted);
    assert!(matches!(third, Some(TxnAction::Commit)));
    let after = driver.on_event(TxnEvent::Committed);
    assert!(after.is_none());
    assert_eq!(driver.phase, TxnPhase::Committed);
}

#[test]
fn failed_author_insert_rolls_back() {
    let (mut driver, _) = TxnDriver::start(midnight());
    let next = driver.on_event(TxnEvent::Failed);
    assert!(matches!(next, Some(TxnAction::Rollback)));
    let after = driver.on_event(TxnEvent::RolledBack);
    assert!(after.is_none());
    assert_eq!(driver.phase, TxnPhase::Aborted);
}

#[test]
fn failed_book_insert_rolls_back() {
    let (mut driver, _) = TxnDriver::start(midnight());
    driver.on_event(TxnEvent::AuthorInserted { id: 3 });
    let next = driver.on_event(TxnEvent::Failed);
    assert!(matches!(next, Some(TxnAction::Rollback)));
    let after = driver.on_event(TxnEvent::RolledBack);
    assert!(after.is_none());
    assert_eq!(driver.phase, TxnPhase::Aborted);
}

#[test]
fn failed_commit_rolls_back() {
    let (mut driver, _) = TxnDriver::start(midnight());
    driver.on_event(TxnEvent::AuthorInserted { id: 3 });
    driver.on_event(TxnEvent::BookInserted);
    let next = driver.on_event(TxnEvent::Failed);
    assert!(matches!(next, Some(TxnAction::Rollback)));
    driver.on_event(TxnEvent::Failed);
    assert_eq!(driver.phase, TxnPhase::Aborted);
}

#[test]
fn unexpected_event_aborts_the_protocol() {
    let (mut driver, _) = TxnDriver::start(midnight());
    // The store reports a book insert the driver never issued.
    let next = driver.on_event(TxnEvent::BookInserted);
    assert!(matches!(next, Some(TxnAction::Rollback)));
    assert_eq!(driver.phase, TxnPhase::RollbackPending);
}

#[test]
fn finished_work_stays_finished() {
    let (mut driver, _) = TxnDriver::start(midnight());
    driver.on_event(TxnEvent::AuthorInserted { id: 1 });
    driver.on_event(TxnEvent::BookInserted);
    driver.on_event(TxnEvent::Committed);
    assert_eq!(driver.phase, TxnPhase::Committed);
    let after = driver.on_event(TxnEvent::Failed);
    assert!(after.is_none());
    assert_eq!(driver.phase, TxnPhase::Committed);
}
