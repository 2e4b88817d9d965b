//! The protocol of the transactional create, as a verified step function.
//!
//! The store itself is reached over a wire, so the host program performs
//! each round trip; every decision — which statement comes next, which
//! generated key the dependent insert binds, and that any failure before the
//! commit turns into a rollback — is made here and proved. The host begins a
//! transaction, performs each requested action **on that same transaction
//! handle**, and reports the outcome back as an event; the two inserts
//! sharing one handle is exactly what makes the unit of work atomic.

use vstd::prelude::*;

use crate::book::Book;
use crate::book::BookView;

verus! {

/// Where the unit of work stands: which round trip it is waiting for.
#[derive(Clone, Copy, Debug, PartialEq, Eq, Structural)]
pub enum TxnPhase {
    /// The author insert has been issued; its generated key is awaited.
    AuthorPending,
    /// The book insert, bound to the generated key, has been issued.
    BookPending { author_id: i64 },
    /// Both inserts succeeded; the commit has been issued.
    CommitPending { author_id: i64 },
    /// A failure occurred; the rollback has been issued.
    RollbackPending,
    /// The unit of work committed: both rows are durably visible together.
    Committed,
    /// The unit of work was rolled back: neither row is visible.
    Aborted,
}

/// What the store reported for the last requested action.
#[derive(Clone, Copy, Debug, PartialEq, Eq, Structural)]
pub enum TxnEvent {
    /// The author insert succeeded and returned the generated key.
    AuthorInserted { id: i64 },
    /// The book insert succeeded.
    BookInserted,
    /// The commit succeeded.
    Committed,
    /// The rollback completed.
    RolledBack,
    /// The statement (or the commit, or the rollback) failed.
    Failed,
}

/// The next round trip the host must perform, always on the one transaction
/// handle the unit of work reserved.
pub enum TxnAction {
    /// `INSERT INTO author (name) VALUES (..) RETURNING id`.
    InsertAuthor { name: String },
    /// `INSERT INTO book (title, author, isbn) VALUES (..)`, binding the
    /// key the author insert generated.
    InsertBook { title: String, author_id: i64, isbn: String },
    /// Commit the transaction.
    Commit,
    /// Roll the transaction back (or drop it without commit).
    Rollback,
}

/// The mathematical value of a requested action; `Quiet` stands for no
/// request, when the unit of work is over.
pub ghost enum TxnActionView {
    InsertAuthor { name: Seq<char> },
    InsertBook { title: Seq<char>, author_id: int, isbn: Seq<char> },
    Commit,
    Rollback,
    Quiet,
}

/// The value of an optional action.
pub open spec fn action_view(a: Option<TxnAction>) -> TxnActionView {
    match a {
        Some(TxnAction::InsertAuthor { name }) => TxnActionView::InsertAuthor { name: name@ },
        Some(TxnAction::InsertBook { title, author_id, isbn }) => TxnActionView::InsertBook {
            title: title@,
            author_id: author_id as int,
            isbn: isbn@,
        },
        Some(TxnAction::Commit) => TxnActionView::Commit,
        Some(TxnAction::Rollback) => TxnActionView::Rollback,
        None => TxnActionView::Quiet,
    }
}

/// The phase after an event. An event the phase does not expect is a
/// protocol violation and sends the unit of work into rollback; a finished
/// unit of work stays finished.
pub open spec fn step_phase(p: TxnPhase, e: TxnEvent) -> TxnPhase {
    match (p, e) {
        (TxnPhase::AuthorPending, TxnEvent::AuthorInserted { id }) => TxnPhase::BookPending {
            author_id: id,
        },
        (TxnPhase::BookPending { author_id }, TxnEvent::BookInserted) => TxnPhase::CommitPending {
            author_id,
        },
        (TxnPhase::CommitPending { .. }, TxnEvent::Committed) => TxnPhase::Committed,
        (TxnPhase::RollbackPending, TxnEvent::RolledBack) => TxnPhase::Aborted,
        (TxnPhase::RollbackPending, TxnEvent::Failed) => TxnPhase::Aborted,
        (TxnPhase::RollbackPending, _) => TxnPhase::RollbackPending,
        (TxnPhase::Committed, _) => TxnPhase::Committed,
        (TxnPhase::Aborted, _) => TxnPhase::Aborted,
        (_, _) => TxnPhase::RollbackPending,
    }
}

/// The action an event provokes: the next statement of the protocol in
/// order, with the book insert binding the key the author insert returned;
/// a rollback on any failure or unexpected event before the commit; nothing
/// once the unit of work is over.
pub open spec fn step_action(b: BookView, p: TxnPhase, e: TxnEvent) -> TxnActionView {
    match (p, e) {
        (TxnPhase::AuthorPending, TxnEvent::AuthorInserted { id }) => TxnActionView::InsertBook {
            title: b.title,
            author_id: id as int,
            isbn: b.isbn,
        },
        (TxnPhase::BookPending { .. }, TxnEvent::BookInserted) => TxnActionView::Commit,
        (TxnPhase::CommitPending { .. }, TxnEvent::Committed) => TxnActionView::Quiet,
        (TxnPhase::RollbackPending, _) => TxnActionView::Quiet,
        (TxnPhase::Committed, _) => TxnActionView::Quiet,
        (TxnPhase::Aborted, _) => TxnActionView::Quiet,
        (_, _) => TxnActionView::Rollback,
    }
}

/// Drives one transactional create. The host owns the transaction handle;
/// the driver owns the protocol.
pub struct TxnDriver {
    /// The book (with its author's display name) the unit of work creates.
    pub book: Book,
    /// Where the protocol stands.
    pub phase: TxnPhase,
}

impl TxnDriver {
    /// Opens the unit of work: the first statement inserts the author row
    /// and asks for its generated key in the same round trip.
    pub fn start(book: Book) -> (res: (TxnDriver, TxnAction))
        ensures
            res.0.phase == TxnPhase::AuthorPending,
            res.0.book@ == book@,
            action_view(Some(res.1)) == (TxnActionView::InsertAuthor { name: book@.author }),
    {
        let name = book.author.clone();
        (TxnDriver { book, phase: TxnPhase::AuthorPending }, TxnAction::InsertAuthor { name })
    }

    /// Feeds the store's report on the last action back in, and hands out
    /// the next action, if any. The transition is total: whatever the host
    /// reports, the driver answers with the protocol's next statement, a
    /// rollback, or silence once the unit of work is over.
    pub fn on_event(&mut self, e: TxnEvent) -> (a: Option<TxnAction>)
        ensures
            final(self).book@ == old(self).book@,
            final(self).phase == step_phase(old(self).phase, e),
            action_view(a) == step_action(old(self).book@, old(self).phase, e),
    {
        match (self.phase, e) {
            (TxnPhase::AuthorPending, TxnEvent::AuthorInserted { id }) => {
                self.phase = TxnPhase::BookPending { author_id: id };
                Some(TxnAction::InsertBook {
                    title: self.book.title.clone(),
                    author_id: id,
                    isbn: self.book.isbn.clone(),
                })
            },
            (TxnPhase::BookPending { author_id }, TxnEvent::BookInserted) => {
                self.phase = TxnPhase::CommitPending { author_id };
                Some(TxnAction::Commit)
            },
            (TxnPhase::CommitPending { .. }, TxnEvent::Committed) => {
                self.phase = TxnPhase::Committed;
                None
            },
            (TxnPhase::RollbackPending, TxnEvent::RolledBack) => {
                self.phase = TxnPhase::Aborted;
                None
            },
            (TxnPhase::RollbackPending, TxnEvent::Failed) => {
                self.phase = TxnPhase::Aborted;
                None
            },
            (TxnPhase::RollbackPending, _) => { None },
            (TxnPhase::Committed, _) => { None },
            (TxnPhase::Aborted, _) => { None },
            (_, _) => {
                self.phase = TxnPhase::RollbackPending;
                Some(TxnAction::Rollback)
            },
        }
    }
}

} // verus!
