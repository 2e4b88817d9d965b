//! The entity records: `Book` as the caller hands it in, and the row shapes
//! the store keeps.

use vstd::prelude::*;

verus! {

/// A book as supplied by the caller: a unique `isbn`, a mutable `title`, and
/// the author's display name. The record is passive: no validation is
/// performed, fields pass through verbatim.
#[derive(Debug, PartialEq)]
pub struct Book {
    pub isbn: String,
    pub title: String,
    pub author: String,
}

/// The mathematical value of a `Book`: its three fields as character
/// sequences.
pub ghost struct BookView {
    pub isbn: Seq<char>,
    pub title: Seq<char>,
    pub author: Seq<char>,
}

impl View for Book {
    type V = BookView;

    open spec fn view(&self) -> BookView {
        BookView { isbn: self.isbn@, title: self.title@, author: self.author@ }
    }
}

impl Book {
    /// Builds a book from its three fields.
    pub fn new(isbn: String, title: String, author: String) -> (b: Book)
        ensures
            b@ == (BookView { isbn: isbn@, title: title@, author: author@ }),
    {
        Book { isbn, title, author }
    }
}

} // verus!
