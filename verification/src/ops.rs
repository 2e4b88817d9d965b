//! The entity operations, proved against the store model.
//!
//! Each operation leases one connection from the pool, issues its
//! statement(s), and releases the connection on every exit path — success or
//! failure — so a sequence of failing calls never leaks a lease. The
//! contracts say exactly which error comes back on which store, and exactly
//! how the tables change.

use vstd::prelude::*;

use crate::book::Book;
use crate::error::StoreError;
use crate::store::AuthorCol;
use crate::store::AuthorRow;
use crate::store::BookRow;
use crate::store::Store;
use crate::store::count_isbn;
use crate::store::create_applied;
use crate::store::create_ok;
use crate::store::decodes_to;
use crate::store::lemma_authors_view_push;
use crate::store::lemma_count_take_succ;
use crate::store::lemma_rows_view_push;
use crate::store::lemma_update_books_index;
use crate::store::lemma_update_books_len;
use crate::store::lemma_wf_after_create;
use crate::store::lemma_wf_after_txn;
use crate::store::lemma_wf_after_update;
use crate::store::pool_free;
use crate::store::read_hits;
use crate::store::rows_view;
use crate::store::txn_applied;
use crate::store::txn_ok;
use crate::store::update_applied;
use crate::store::update_books;
use crate::store::updated_row;

verus! {

/// The startup guard for the one piece of process configuration: a missing
/// connection string is a fatal condition, classified as such; a present one
/// passes through untouched.
pub fn require_connection_string(value: Option<String>) -> (r: Result<String, StoreError>)
    ensures
        match value {
            Some(v) => r == Ok::<String, StoreError>(v),
            None => r == Err::<String, StoreError>(StoreError::Configuration),
        },
{
    match value {
        Some(v) => Ok(v),
        None => Err(StoreError::Configuration),
    }
}

/// Counts the `book` rows carrying the given `isbn`.
fn count_matching(books: &Vec<BookRow>, isbn: &String) -> (n: usize)
    ensures
        n == count_isbn(rows_view(books@), isbn@),
{
    let ghost bs = rows_view(books@);
    let mut n: usize = 0;
    let mut i: usize = 0;
    while i < books.len()
        invariant
            i <= books.len(),
            n <= i,
            bs == rows_view(books@),
            bs.len() == books@.len(),
            n == count_isbn(bs.take(i as int), isbn@),
        decreases books.len() - i,
    {
        proof {
            lemma_count_take_succ(bs, isbn@, i as int);
        }
        if books[i].isbn == *isbn {
            n = n + 1;
        }
        i = i + 1;
    }
    proof {
        assert(bs.take(books@.len() as int) =~= bs);
    }
    n
}

/// Single-statement create: one `INSERT INTO book (isbn, title, author)`
/// bound positionally, on one pooled connection.
///
/// On success the row is durably inserted with the author's name stored as
/// text; nothing generated is returned. A colliding `isbn` surfaces the
/// store's uniqueness violation as an `Operation` error; an exhausted pool
/// surfaces as a `Connection` error; in either case the tables are
/// untouched. The lease is returned on every path.
pub fn create_book(book: &Book, store: &mut Store) -> (r: Result<(), StoreError>)
    requires
        old(store).wf(),
    ensures
        final(store).wf(),
        final(store)@.leased == old(store)@.leased,
        final(store)@.capacity == old(store)@.capacity,
        !pool_free(old(store)@) ==> r == Err::<(), StoreError>(StoreError::Connection)
            && final(store)@ == old(store)@,
        pool_free(old(store)@) && count_isbn(old(store)@.books, book@.isbn) > 0
            ==> r == Err::<(), StoreError>(StoreError::Operation) && final(store)@ == old(store)@,
        create_ok(old(store)@, book@) ==> r == Ok::<(), StoreError>(()) && final(store)@
            == create_applied(old(store)@, book@),
{
    if store.leased >= store.capacity {
        return Err(StoreError::Connection);
    }
    // Lease one connection for the single round trip.
    store.leased = store.leased + 1;
    let n: usize = count_matching(&store.books, &book.isbn);
    if n > 0 {
        // The store rejects the insert on its uniqueness constraint.
        store.leased = store.leased - 1;
        return Err(StoreError::Operation);
    }
    let row = BookRow {
        isbn: book.isbn.clone(),
        title: book.title.clone(),
        author: AuthorCol::Name(book.author.clone()),
    };
    proof {
        lemma_rows_view_push(store.books@, row);
        lemma_wf_after_create(old(store)@, book@);
    }
    store.books.push(row);
    store.leased = store.leased - 1;
    Ok(())
}

/// Single-statement update: `UPDATE book SET title = .. WHERE isbn = ..` on
/// one pooled connection.
///
/// Success is reported even when no row matched — the operation does not
/// tell an update from a no-op, a deliberately weak guarantee; callers that
/// need confirmation read the row back. Only pool exhaustion fails it, and
/// then the tables are untouched.
pub fn update_book(book: &Book, store: &mut Store) -> (r: Result<(), StoreError>)
    requires
        old(store).wf(),
    ensures
        final(store).wf(),
        final(store)@.leased == old(store)@.leased,
        final(store)@.capacity == old(store)@.capacity,
        !pool_free(old(store)@) ==> r == Err::<(), StoreError>(StoreError::Connection)
            && final(store)@ == old(store)@,
        pool_free(old(store)@) ==> r == Ok::<(), StoreError>(())
            && final(store)@ == update_applied(old(store)@, book@),
{
    if store.leased >= store.capacity {
        return Err(StoreError::Connection);
    }
    store.leased = store.leased + 1;
    let ghost bs = rows_view(store.books@);
    let mut i: usize = 0;
    while i < store.books.len()
        invariant
            i <= store.books.len(),
            store.capacity == old(store).capacity,
            store.authors == old(store).authors,
            store.next_author_id == old(store).next_author_id,
            store.leased as int == old(store)@.leased + 1,
            store.books@.len() == bs.len(),
            bs == rows_view(old(store).books@),
            forall|j: int|
                0 <= j < i ==> rows_view(store.books@)[j] == updated_row(
                    bs[j],
                    book@.isbn,
                    book@.title,
                ),
            forall|j: int| i <= j < bs.len() ==> rows_view(store.books@)[j] == bs[j],
        decreases store.books.len() - i,
    {
        let ghost pre_books = store.books@;
        if store.books[i].isbn == book.isbn {
            let replaced = BookRow {
                isbn: store.books[i].isbn.clone(),
                title: book.title.clone(),
                author: store.books[i].author.clone(),
            };
            proof {
                assert(rows_view(pre_books)[i as int] == bs[i as int]);
                assert(replaced@ == updated_row(bs[i as int], book@.isbn, book@.title));
            }
            store.books.set(i, replaced);
            proof {
                assert forall|j: int|
                    0 <= j < i + 1 implies rows_view(store.books@)[j] == updated_row(
                    bs[j],
                    book@.isbn,
                    book@.title,
                ) by {
                    if j < i {
                        assert(store.books@[j] == pre_books[j]);
                        assert(rows_view(pre_books)[j] == updated_row(bs[j], book@.isbn, book@.title));
                    }
                }
                assert forall|j: int| i + 1 <= j < bs.len() implies rows_view(store.books@)[j]
                    == bs[j] by {
                    assert(store.books@[j] == pre_books[j]);
                    assert(rows_view(pre_books)[j] == bs[j]);
                }
            }
        } else {
            proof {
                assert(rows_view(store.books@)[i as int] == bs[i as int]);
                assert(updated_row(bs[i as int], book@.isbn, book@.title) == bs[i as int]);
            }
        }
        i = i + 1;
    }
    proof {
        lemma_update_books_len(bs, book@.isbn, book@.title);
        assert forall|j: int| 0 <= j < bs.len() implies rows_view(store.books@)[j] == update_books(
            bs,
            book@.isbn,
            book@.title,
        )[j] by {
            lemma_update_books_index(bs, book@.isbn, book@.title, j);
        }
        assert(rows_view(store.books@) =~= update_books(bs, book@.isbn, book@.title));
        lemma_wf_after_update(old(store)@, book@);
    }
    store.leased = store.leased - 1;
    Ok(())
}

/// Single-statement read: `SELECT * FROM book WHERE isbn = ..`, expecting
/// exactly one row, on one pooled connection.
///
/// Zero matching rows is the recoverable `NotFound`; more than one is the
/// recoverable `AmbiguousResult`; both stay distinct from transport faults.
/// On exactly one match the row decodes into a `Book` with its fields
/// unchanged — unless the row was written by the transactional path, whose
/// key-valued author column fails the text decode as an `Operation` error.
pub fn read_book(isbn: &str, store: &Store) -> (r: Result<Book, StoreError>)
    ensures
        !pool_free(store@) ==> r == Err::<Book, StoreError>(StoreError::Connection),
        pool_free(store@) && count_isbn(store@.books, isbn@) == 0 ==> r == Err::<Book, StoreError>(
            StoreError::NotFound,
        ),
        pool_free(store@) && count_isbn(store@.books, isbn@) >= 2 ==> r == Err::<Book, StoreError>(
            StoreError::AmbiguousResult,
        ),
        pool_free(store@) && count_isbn(store@.books, isbn@) == 1 ==> read_hits(
            store@.books,
            isbn@,
            r,
        ),
{
    if store.leased >= store.capacity {
        return Err(StoreError::Connection);
    }
    let key: String = isbn.to_owned();
    let ghost bs = rows_view(store.books@);
    let mut n: usize = 0;
    let mut found: usize = 0;
    let mut i: usize = 0;
    while i < store.books.len()
        invariant
            i <= store.books.len(),
            n <= i,
            key@ == isbn@,
            bs == rows_view(store.books@),
            bs.len() == store.books@.len(),
            n == count_isbn(bs.take(i as int), isbn@),
            n > 0 ==> 0 <= found < i && bs[found as int].isbn == isbn@,
        decreases store.books.len() - i,
    {
        proof {
            lemma_count_take_succ(bs, isbn@, i as int);
        }
        if store.books[i].isbn == key {
            if n == 0 {
                found = i;
            }
            n = n + 1;
        }
        i = i + 1;
    }
    proof {
        assert(bs.take(store.books@.len() as int) =~= bs);
    }
    if n == 0 {
        return Err(StoreError::NotFound);
    }
    if n >= 2 {
        return Err(StoreError::AmbiguousResult);
    }
    // Exactly one row: decode it.
    match &store.books[found].author {
        AuthorCol::Name(a) => {
            let b = Book {
                isbn: store.books[found].isbn.clone(),
                title: store.books[found].title.clone(),
                author: a.clone(),
            };
            proof {
                assert(decodes_to(bs[found as int], Ok::<Book, StoreError>(b)));
            }
            Ok(b)
        },
        AuthorCol::Id(_) => {
            proof {
                assert(decodes_to(
                    bs[found as int],
                    Err::<Book, StoreError>(StoreError::Operation),
                ));
            }
            Err(StoreError::Operation)
        },
    }
}

/// Transactional create: one unit of work that inserts an `author` row,
/// reads back its generated key in the same round trip, inserts a `book`
/// row referencing that key, and commits — with both statements bound to
/// the same transaction, so the effects appear together or not at all.
///
/// Any failure inside the unit of work rolls it back before the error is
/// returned: a colliding `isbn` (the store's uniqueness violation on the
/// book insert) or an exhausted author sequence leaves the tables exactly as
/// they were, with no orphaned author. An exhausted pool fails the begin
/// itself. The reserved connection is released on every path.
pub fn transaction_book(book: Book, store: &mut Store) -> (r: Result<(), StoreError>)
    requires
        old(store).wf(),
    ensures
        final(store).wf(),
        final(store)@.leased == old(store)@.leased,
        final(store)@.capacity == old(store)@.capacity,
        !pool_free(old(store)@) ==> r == Err::<(), StoreError>(StoreError::Connection)
            && final(store)@ == old(store)@,
        pool_free(old(store)@) && !(count_isbn(old(store)@.books, book@.isbn) == 0
            && old(store)@.next_author_id < i64::MAX as int)
            ==> r == Err::<(), StoreError>(StoreError::Operation) && final(store)@ == old(store)@,
        txn_ok(old(store)@, book@) ==> r == Ok::<(), StoreError>(())
            && final(store)@ == txn_applied(old(store)@, book@),
{
    if store.leased >= store.capacity {
        return Err(StoreError::Connection);
    }
    // Begin: reserve one connection exclusively for the unit of work.
    store.leased = store.leased + 1;
    if store.next_author_id == i64::MAX {
        // The author sequence cannot generate a fresh key: the insert fails
        // and dropping the transaction without commit rolls it back.
        store.leased = store.leased - 1;
        return Err(StoreError::Operation);
    }
    let author_id: i64 = store.next_author_id;
    let n: usize = count_matching(&store.books, &book.isbn);
    if n > 0 {
        // The dependent book insert hits the uniqueness constraint; the
        // whole unit of work — the author insert included — is rolled back.
        store.leased = store.leased - 1;
        return Err(StoreError::Operation);
    }
    // Commit: both rows become visible together.
    let ghost bv = book@;
    let Book { isbn, title, author } = book;
    let author_row = AuthorRow { id: author_id, name: author };
    let book_row = BookRow { isbn, title, author: AuthorCol::Id(author_id) };
    proof {
        lemma_authors_view_push(store.authors@, author_row);
        lemma_rows_view_push(store.books@, book_row);
        lemma_wf_after_txn(old(store)@, bv);
    }
    store.authors.push(author_row);
    store.books.push(book_row);
    store.next_author_id = store.next_author_id + 1;
    store.leased = store.leased - 1;
    Ok(())
}

} // verus!
