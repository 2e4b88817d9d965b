//! The laws of the persistence layer, proved once and for all stores.
//!
//! Each proof function here states a property that relates several
//! operations of the library, over the same spec functions their contracts
//! use; together with those contracts they pin the layer's behaviour down.

use vstd::prelude::*;

use crate::book::Book;
use crate::book::BookView;
use crate::error::StoreError;
use crate::store::AuthorColView;
use crate::store::AuthorRowView;
use crate::store::BookRowView;
use crate::store::StoreView;
use crate::store::count_isbn;
use crate::store::create_applied;
use crate::store::create_ok;
use crate::store::lemma_count_push;
use crate::store::lemma_count_zero;
use crate::store::lemma_update_books_index;
use crate::store::lemma_update_books_len;
use crate::store::read_hits;
use crate::store::txn_applied;
use crate::store::txn_ok;
use crate::store::update_applied;
use crate::store::update_books;
use crate::store::updated_row;
use crate::txn::TxnActionView;
use crate::txn::TxnEvent;
use crate::txn::TxnPhase;
use crate::txn::step_action;
use crate::txn::step_phase;

verus! {

/// Atomicity of the transactional create: when the unit of work commits,
/// the new author row (carrying the generated key) and the new book row
/// (referencing exactly that key) are both visible, and the book row is the
/// only one with its `isbn`. The other half of the law is stated by the
/// contract of `transaction_book` itself: a failed unit of work leaves the
/// store exactly as it was, so neither row is ever visible alone.
pub proof fn lemma_transaction_atomic(s: StoreView, b: BookView)
    requires
        txn_ok(s, b),
    ensures
        count_isbn(txn_applied(s, b).books, b.isbn) == 1,
        txn_applied(s, b).books.last() == (BookRowView {
            isbn: b.isbn,
            title: b.title,
            author: AuthorColView::Id(s.next_author_id),
        }),
        txn_applied(s, b).authors.last() == (AuthorRowView {
            id: s.next_author_id,
            name: b.author,
        }),
        txn_applied(s, b).next_author_id == s.next_author_id + 1,
{
    let row = BookRowView { isbn: b.isbn, title: b.title, author: AuthorColView::Id(s.next_author_id) };
    lemma_count_push(s.books, row, b.isbn);
}

/// Uniqueness of `isbn`: once a create has stored a book, a second create
/// that reuses the `isbn` finds the row in place and is refused — by the
/// contract of `create_book`, with the constraint-violation `Operation`
/// error whenever the pool grants it a connection — and never overwrites.
pub proof fn lemma_create_unique(s: StoreView, b1: BookView, b2: BookView)
    requires
        create_ok(s, b1),
        b2.isbn == b1.isbn,
    ensures
        count_isbn(create_applied(s, b1).books, b2.isbn) > 0,
        !create_ok(create_applied(s, b1), b2),
{
    let row = BookRowView { isbn: b1.isbn, title: b1.title, author: AuthorColView::Name(b1.author) };
    lemma_count_push(s.books, row, b2.isbn);
}

/// Read after create: on a store whose `isbn` was free, the created row is
/// the only match, and any result that the read contract admits for it
/// carries the created fields unchanged.
pub proof fn lemma_create_then_read(s: StoreView, b: BookView, r: Result<Book, StoreError>)
    requires
        create_ok(s, b),
        read_hits(create_applied(s, b).books, b.isbn, r),
    ensures
        count_isbn(create_applied(s, b).books, b.isbn) == 1,
        r matches Ok(bk) && bk@ == b,
{
    let row = BookRowView { isbn: b.isbn, title: b.title, author: AuthorColView::Name(b.author) };
    let bs = create_applied(s, b).books;
    lemma_count_push(s.books, row, b.isbn);
    lemma_count_zero(s.books, b.isbn);
    let i: int = choose|i: int| 0 <= i < bs.len() && (#[trigger] bs[i]).isbn == b.isbn
        && crate::store::decodes_to(bs[i], r);
    if i < s.books.len() {
        assert(bs[i] == s.books[i]);
        assert(false);
    }
    assert(bs[i] == row);
}

/// Idempotence of the title update: issuing the same update twice leaves
/// the store exactly as a single update would.
pub proof fn lemma_update_idempotent(s: StoreView, b: BookView)
    ensures
        update_applied(update_applied(s, b), b) == update_applied(s, b),
{
    let once = update_books(s.books, b.isbn, b.title);
    let twice = update_books(once, b.isbn, b.title);
    lemma_update_books_len(s.books, b.isbn, b.title);
    lemma_update_books_len(once, b.isbn, b.title);
    assert forall|j: int| 0 <= j < s.books.len() implies twice[j] == once[j] by {
        lemma_update_books_index(s.books, b.isbn, b.title, j);
        lemma_update_books_index(once, b.isbn, b.title, j);
        assert(once[j] == updated_row(s.books[j], b.isbn, b.title));
        assert(twice[j] == updated_row(once[j], b.isbn, b.title));
    }
    assert(twice =~= once);
}

/// The update statement touches no field but the title, and no row but the
/// matching ones: every row keeps its `isbn` and its author column.
pub proof fn lemma_update_preserves_shape(s: StoreView, b: BookView)
    ensures
        update_applied(s, b).books.len() == s.books.len(),
        forall|j: int|
            0 <= j < s.books.len() ==> (#[trigger] update_applied(s, b).books[j]).isbn
                == s.books[j].isbn && update_applied(s, b).books[j].author == s.books[j].author,
{
    lemma_update_books_len(s.books, b.isbn, b.title);
    assert forall|j: int|
        0 <= j < s.books.len() implies (#[trigger] update_applied(s, b).books[j]).isbn
        == s.books[j].isbn && update_applied(s, b).books[j].author == s.books[j].author by {
        lemma_update_books_index(s.books, b.isbn, b.title, j);
    }
}

/// A failure before the commit never commits: the protocol's answer to a
/// `Failed` event is a rollback (or silence, once the unit of work is
/// already rolling back or over), never the commit action, and the phase it
/// reaches is never the committed one.
pub proof fn lemma_failed_event_rolls_back(b: BookView, p: TxnPhase)
    requires
        p != TxnPhase::Committed,
    ensures
        step_phase(p, TxnEvent::Failed) != TxnPhase::Committed,
        step_action(b, p, TxnEvent::Failed) != TxnActionView::Commit,
        !(p == TxnPhase::RollbackPending || p == TxnPhase::Aborted) ==> step_action(
            b,
            p,
            TxnEvent::Failed,
        ) == TxnActionView::Rollback,
{
}

/// The commit phase is reached only by the full protocol in order: only a
/// pending commit — which itself only follows a successful book insert,
/// which only follows the author insert's generated key — answers a
/// successful commit with the committed phase.
pub proof fn lemma_commit_needs_protocol(p: TxnPhase, e: TxnEvent)
    requires
        p != TxnPhase::Committed,
        step_phase(p, e) == TxnPhase::Committed,
    ensures
        p matches TxnPhase::CommitPending { .. },
        e == TxnEvent::Committed,
{
}

} // verus!
