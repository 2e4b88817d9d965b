//! The visible state of the backing store and its mathematical model.
//!
//! A `Store` stands for everything an operation can observe through the
//! connection pool: the bounded pool itself (capacity and currently leased
//! connections), the `book` table, the `author` table, and the sequence that
//! generates author keys. The spec functions in this module define, row by
//! row, what each entity operation does to that state; the operations in
//! `ops` are proved against them.

use vstd::prelude::*;

use crate::book::BookView;

verus! {

/// The `author` column of a `book` row. The single-statement insert path
/// stores the author's display name as plain text; the transactional path
/// stores the generated key of an `author` row instead. The two paths
/// populate the schema inconsistently on purpose: the divergence is part of
/// the design and is kept visible in the model.
#[derive(Debug, PartialEq)]
pub enum AuthorCol {
    Name(String),
    Id(i64),
}

/// A row of the `book` table.
#[derive(Debug, PartialEq)]
pub struct BookRow {
    pub isbn: String,
    pub title: String,
    pub author: AuthorCol,
}

/// A row of the `author` table: a store-generated key and a display name.
#[derive(Debug, PartialEq)]
pub struct AuthorRow {
    pub id: i64,
    pub name: String,
}

/// The observable state behind the pool handle.
pub struct Store {
    /// How many connections the pool can hand out at once.
    pub capacity: usize,
    /// How many connections are leased out right now.
    pub leased: usize,
    /// The `book` table.
    pub books: Vec<BookRow>,
    /// The `author` table.
    pub authors: Vec<AuthorRow>,
    /// The next key the author sequence will generate.
    pub next_author_id: i64,
}

/// The mathematical value of an `author` column.
pub ghost enum AuthorColView {
    Name(Seq<char>),
    Id(int),
}

/// The mathematical value of a `book` row.
pub ghost struct BookRowView {
    pub isbn: Seq<char>,
    pub title: Seq<char>,
    pub author: AuthorColView,
}

/// The mathematical value of an `author` row.
pub ghost struct AuthorRowView {
    pub id: int,
    pub name: Seq<char>,
}

/// The mathematical value of the whole store.
pub ghost struct StoreView {
    pub capacity: int,
    pub leased: int,
    pub books: Seq<BookRowView>,
    pub authors: Seq<AuthorRowView>,
    pub next_author_id: int,
}

impl View for AuthorCol {
    type V = AuthorColView;

    open spec fn view(&self) -> AuthorColView {
        match self {
            AuthorCol::Name(s) => AuthorColView::Name(s@),
            AuthorCol::Id(i) => AuthorColView::Id(*i as int),
        }
    }
}

impl View for BookRow {
    type V = BookRowView;

    open spec fn view(&self) -> BookRowView {
        BookRowView { isbn: self.isbn@, title: self.title@, author: self.author@ }
    }
}

impl View for AuthorRow {
    type V = AuthorRowView;

    open spec fn view(&self) -> AuthorRowView {
        AuthorRowView { id: self.id as int, name: self.name@ }
    }
}

impl Clone for AuthorCol {
    /// A clone carries the same value.
    fn clone(&self) -> (r: Self)
        ensures
            r == *self,
    {
        match self {
            AuthorCol::Name(s) => AuthorCol::Name(s.clone()),
            AuthorCol::Id(i) => AuthorCol::Id(*i),
        }
    }
}

/// The values of a sequence of `book` rows.
pub open spec fn rows_view(rows: Seq<BookRow>) -> Seq<BookRowView> {
    rows.map_values(|r: BookRow| r@)
}

/// The values of a sequence of `author` rows.
pub open spec fn authors_view(rows: Seq<AuthorRow>) -> Seq<AuthorRowView> {
    rows.map_values(|r: AuthorRow| r@)
}

impl View for Store {
    type V = StoreView;

    open spec fn view(&self) -> StoreView {
        StoreView {
            capacity: self.capacity as int,
            leased: self.leased as int,
            books: rows_view(self.books@),
            authors: authors_view(self.authors@),
            next_author_id: self.next_author_id as int,
        }
    }
}

impl StoreView {
    /// Well-formedness of the store: the constraints the backing store
    /// enforces on its own. Each `isbn` identifies at most one `book` row,
    /// author keys are unique, and every generated key is positive and below
    /// the sequence's next value, which itself fits in the key column.
    pub open spec fn wf(self) -> bool {
        &&& forall|i: int, j: int|
            #![trigger self.books[i].isbn, self.books[j].isbn]
            0 <= i < j < self.books.len() ==> self.books[i].isbn != self.books[j].isbn
        &&& forall|i: int, j: int|
            #![trigger self.authors[i].id, self.authors[j].id]
            0 <= i < j < self.authors.len() ==> self.authors[i].id != self.authors[j].id
        &&& forall|i: int| 0 <= i < self.authors.len() ==> 1 <= #[trigger] self.authors[i].id
            < self.next_author_id
        &&& 1 <= self.next_author_id <= i64::MAX as int
    }
}

impl Store {
    /// Well-formedness, lifted to the executable store.
    pub open spec fn wf(&self) -> bool {
        self@.wf()
    }

    /// An empty store behind a pool of the given capacity, with nothing
    /// leased and the author sequence at its first value.
    pub fn new(capacity: usize) -> (s: Store)
        ensures
            s@ == (StoreView {
                capacity: capacity as int,
                leased: 0,
                books: Seq::<BookRowView>::empty(),
                authors: Seq::<AuthorRowView>::empty(),
                next_author_id: 1,
            }),
            s.wf(),
    {
        let s = Store {
            capacity,
            leased: 0,
            books: Vec::new(),
            authors: Vec::new(),
            next_author_id: 1,
        };
        proof {
            assert(rows_view(s.books@) =~= Seq::<BookRowView>::empty());
            assert(authors_view(s.authors@) =~= Seq::<AuthorRowView>::empty());
        }
        s
    }
}

/// How many `book` rows carry the given `isbn`.
pub open spec fn count_isbn(bs: Seq<BookRowView>, isbn: Seq<char>) -> nat
    decreases bs.len(),
{
    if bs.len() == 0 {
        0
    } else {
        count_isbn(bs.drop_last(), isbn) + if bs.last().isbn == isbn {
            1nat
        } else {
            0nat
        }
    }
}

/// One row after `UPDATE book SET title = .. WHERE isbn = ..`: the title is
/// replaced where the `isbn` matches, everything else is untouched.
pub open spec fn updated_row(r: BookRowView, isbn: Seq<char>, title: Seq<char>) -> BookRowView {
    if r.isbn == isbn {
        BookRowView { isbn: r.isbn, title: title, author: r.author }
    } else {
        r
    }
}

/// The whole `book` table after the update statement.
pub open spec fn update_books(bs: Seq<BookRowView>, isbn: Seq<char>, title: Seq<char>) -> Seq<
    BookRowView,
>
    decreases bs.len(),
{
    if bs.len() == 0 {
        Seq::<BookRowView>::empty()
    } else {
        update_books(bs.drop_last(), isbn, title).push(updated_row(bs.last(), isbn, title))
    }
}

/// Whether the pool can hand out one more connection.
pub open spec fn pool_free(s: StoreView) -> bool {
    s.leased < s.capacity
}

/// When a single-statement create succeeds: a connection is available and
/// the `isbn` does not collide with an existing row.
pub open spec fn create_ok(s: StoreView, b: BookView) -> bool {
    pool_free(s) && count_isbn(s.books, b.isbn) == 0
}

/// The store after a successful single-statement create: one new `book` row
/// holding the author's name as text.
pub open spec fn create_applied(s: StoreView, b: BookView) -> StoreView {
    StoreView {
        books: s.books.push(
            BookRowView { isbn: b.isbn, title: b.title, author: AuthorColView::Name(b.author) },
        ),
        ..s
    }
}

/// The store after the update statement. The statement succeeds whether it
/// matched one row or none; the table transition is all it does.
pub open spec fn update_applied(s: StoreView, b: BookView) -> StoreView {
    StoreView { books: update_books(s.books, b.isbn, b.title), ..s }
}

/// When the transactional create commits: a connection is available, the
/// `isbn` is free, and the author sequence has not run out of keys.
pub open spec fn txn_ok(s: StoreView, b: BookView) -> bool {
    pool_free(s) && count_isbn(s.books, b.isbn) == 0 && s.next_author_id < i64::MAX as int
}

/// The store after the transactional create commits: a new `author` row
/// carrying the generated key, a new `book` row referencing that key, and
/// the sequence advanced — all visible together or not at all.
pub open spec fn txn_applied(s: StoreView, b: BookView) -> StoreView {
    StoreView {
        books: s.books.push(
            BookRowView {
                isbn: b.isbn,
                title: b.title,
                author: AuthorColView::Id(s.next_author_id),
            },
        ),
        authors: s.authors.push(AuthorRowView { id: s.next_author_id, name: b.author }),
        next_author_id: s.next_author_id + 1,
        ..s
    }
}

/// How one `book` row decodes into a caller-facing `Book`. A row written by
/// the single-statement path decodes cleanly; a row written by the
/// transactional path holds a key where the decoder expects text, so the
/// decode surfaces as a statement-level fault.
pub open spec fn decodes_to(
    row: BookRowView,
    r: Result<crate::book::Book, crate::error::StoreError>,
) -> bool {
    match row.author {
        AuthorColView::Name(a) => match r {
            Ok(b) => b@ == (crate::book::BookView { isbn: row.isbn, title: row.title, author: a }),
            Err(_) => false,
        },
        AuthorColView::Id(_) => r == Err::<crate::book::Book, crate::error::StoreError>(
            crate::error::StoreError::Operation,
        ),
    }
}

/// What a read that found exactly one row returns: the decode of some
/// matching row.
pub open spec fn read_hits(
    bs: Seq<BookRowView>,
    isbn: Seq<char>,
    r: Result<crate::book::Book, crate::error::StoreError>,
) -> bool {
    exists|i: int| 0 <= i < bs.len() && (#[trigger] bs[i]).isbn == isbn && decodes_to(bs[i], r)
}

/// Mapping row values distributes over appending a row.
pub proof fn lemma_rows_view_push(rows: Seq<BookRow>, r: BookRow)
    ensures
        rows_view(rows.push(r)) == rows_view(rows).push(r@),
{
    assert(rows_view(rows.push(r)) =~= rows_view(rows).push(r@));
}

/// Mapping author-row values distributes over appending a row.
pub proof fn lemma_authors_view_push(rows: Seq<AuthorRow>, r: AuthorRow)
    ensures
        authors_view(rows.push(r)) == authors_view(rows).push(r@),
{
    assert(authors_view(rows.push(r)) =~= authors_view(rows).push(r@));
}

/// Appending a row adds one to the count of its own `isbn` and nothing to
/// any other.
pub proof fn lemma_count_push(bs: Seq<BookRowView>, r: BookRowView, isbn: Seq<char>)
    ensures
        count_isbn(bs.push(r), isbn) == count_isbn(bs, isbn) + if r.isbn == isbn {
            1nat
        } else {
            0nat
        },
{
    assert(bs.push(r).drop_last() =~= bs);
    assert(bs.push(r).last() == r);
}

/// A count of zero says exactly that no row carries the `isbn`.
pub proof fn lemma_count_zero(bs: Seq<BookRowView>, isbn: Seq<char>)
    ensures
        (count_isbn(bs, isbn) == 0) <==> (forall|i: int|
            0 <= i < bs.len() ==> (#[trigger] bs[i]).isbn != isbn),
    decreases bs.len(),
{
    if bs.len() > 0 {
        lemma_count_zero(bs.drop_last(), isbn);
        assert(forall|i: int|
            0 <= i < bs.len() - 1 ==> (#[trigger] bs[i]) == bs.drop_last()[i]);
        assert(bs.last() == bs[bs.len() - 1]);
    }
}

/// Extending a scanned prefix by one row extends its count by that row's
/// contribution.
pub proof fn lemma_count_take_succ(bs: Seq<BookRowView>, isbn: Seq<char>, i: int)
    requires
        0 <= i < bs.len(),
    ensures
        count_isbn(bs.take(i + 1), isbn) == count_isbn(bs.take(i), isbn) + if bs[i].isbn == isbn {
            1nat
        } else {
            0nat
        },
{
    assert(bs.take(i + 1).drop_last() =~= bs.take(i));
    assert(bs.take(i + 1).last() == bs[i]);
}

/// A successful single-statement create preserves well-formedness.
pub proof fn lemma_wf_after_create(s: StoreView, b: BookView)
    requires
        s.wf(),
        count_isbn(s.books, b.isbn) == 0,
    ensures
        create_applied(s, b).wf(),
{
    let row = BookRowView { isbn: b.isbn, title: b.title, author: AuthorColView::Name(b.author) };
    let bs2 = s.books.push(row);
    lemma_count_zero(s.books, b.isbn);
    assert forall|i: int, j: int| 0 <= i < j < bs2.len() implies bs2[i].isbn != bs2[j].isbn by {
        if j < s.books.len() {
            assert(bs2[i] == s.books[i]);
            assert(bs2[j] == s.books[j]);
        } else {
            assert(bs2[j] == row);
            assert(bs2[i] == s.books[i]);
        }
    }
    assert(create_applied(s, b).books == bs2);
}

/// A committed transactional create preserves well-formedness: the book
/// table stays keyed by `isbn`, and the freshly generated author key is
/// distinct from every existing one.
pub proof fn lemma_wf_after_txn(s: StoreView, b: BookView)
    requires
        s.wf(),
        count_isbn(s.books, b.isbn) == 0,
        s.next_author_id < i64::MAX as int,
    ensures
        txn_applied(s, b).wf(),
{
    let row = BookRowView { isbn: b.isbn, title: b.title, author: AuthorColView::Id(s.next_author_id) };
    let arow = AuthorRowView { id: s.next_author_id, name: b.author };
    let bs2 = s.books.push(row);
    let as2 = s.authors.push(arow);
    lemma_count_zero(s.books, b.isbn);
    assert forall|i: int, j: int| 0 <= i < j < bs2.len() implies bs2[i].isbn != bs2[j].isbn by {
        if j < s.books.len() {
            assert(bs2[i] == s.books[i]);
            assert(bs2[j] == s.books[j]);
        } else {
            assert(bs2[j] == row);
            assert(bs2[i] == s.books[i]);
        }
    }
    assert forall|i: int, j: int| 0 <= i < j < as2.len() implies as2[i].id != as2[j].id by {
        if j < s.authors.len() {
            assert(as2[i] == s.authors[i]);
            assert(as2[j] == s.authors[j]);
        } else {
            assert(as2[j] == arow);
            assert(as2[i] == s.authors[i]);
        }
    }
    assert forall|i: int| 0 <= i < as2.len() implies 1 <= (#[trigger] as2[i]).id < s.next_author_id
        + 1 by {
        if i < s.authors.len() {
            assert(as2[i] == s.authors[i]);
        } else {
            assert(as2[i] == arow);
        }
    }
    assert(txn_applied(s, b).books == bs2);
    assert(txn_applied(s, b).authors == as2);
}

/// The update statement preserves well-formedness: it rewrites titles only,
/// so every row keeps its `isbn`.
pub proof fn lemma_wf_after_update(s: StoreView, b: BookView)
    requires
        s.wf(),
    ensures
        update_applied(s, b).wf(),
{
    let ub = update_books(s.books, b.isbn, b.title);
    lemma_update_books_len(s.books, b.isbn, b.title);
    assert forall|i: int, j: int| 0 <= i < j < ub.len() implies ub[i].isbn != ub[j].isbn by {
        lemma_update_books_index(s.books, b.isbn, b.title, i);
        lemma_update_books_index(s.books, b.isbn, b.title, j);
        assert(ub[i].isbn == s.books[i].isbn);
        assert(ub[j].isbn == s.books[j].isbn);
    }
}

/// The update statement keeps the number of rows.
pub proof fn lemma_update_books_len(bs: Seq<BookRowView>, isbn: Seq<char>, title: Seq<char>)
    ensures
        update_books(bs, isbn, title).len() == bs.len(),
    decreases bs.len(),
{
    if bs.len() > 0 {
        lemma_update_books_len(bs.drop_last(), isbn, title);
    }
}

/// Row by row, the update statement rewrites exactly the matching rows.
pub proof fn lemma_update_books_index(
    bs: Seq<BookRowView>,
    isbn: Seq<char>,
    title: Seq<char>,
    i: int,
)
    requires
        0 <= i < bs.len(),
    ensures
        update_books(bs, isbn, title)[i] == updated_row(bs[i], isbn, title),
    decreases bs.len(),
{
    lemma_update_books_len(bs.drop_last(), isbn, title);
    if i < bs.len() - 1 {
        lemma_update_books_index(bs.drop_last(), isbn, title, i);
        assert(bs.drop_last()[i] == bs[i]);
    } else {
        assert(bs.last() == bs[i]);
    }
}

} // verus!
