use crate::entity::book_id::BookId;
use vstd::prelude::*;

verus! {

/// One book as the store keeps it.
///
/// The two moments are counted in milliseconds since the Unix epoch.
#[derive(Debug, Clone, PartialEq, Eq)]
pub struct Book {
    /// The key that the store gave the book; absent until the book is stored.
    pub id: Option<BookId>,
    pub title: String,
    pub author: String,
    pub pages: i64,
    /// When the book was first stored.
    pub created_at: i64,
    /// When the book was last written.
    pub updated_at: i64,
    /// Whether the book is listed.
    pub active: bool,
}

/// The mathematical content of a [`Book`].
pub ghost struct BookView {
    pub id: Option<Seq<u8>>,
    pub title: Seq<char>,
    pub author: Seq<char>,
    pub pages: i64,
    pub created_at: i64,
    pub updated_at: i64,
    pub active: bool,
}

impl BookView {
    /// A book is never written before it was created.
    pub open spec fn wf(self) -> bool {
        self.created_at <= self.updated_at
    }
}

impl View for Book {
    type V = BookView;

    open spec fn view(&self) -> BookView {
        BookView {
            id: match self.id {
                Some(id) => Some(id@),
                None => None,
            },
            title: self.title@,
            author: self.author@,
            pages: self.pages,
            created_at: self.created_at,
            updated_at: self.updated_at,
            active: self.active,
        }
    }
}

/// The contents of a list of books, in the same order.
pub open spec fn book_views(books: Seq<Book>) -> Seq<BookView> {
    books.map_values(|book: Book| book@)
}

/// A book that was never stored before: listed, and created and last written
/// at the same moment.
pub open spec fn new_book(title: Seq<char>, author: Seq<char>, pages: i64, now: i64) -> BookView {
    BookView { id: None, title, author, pages, created_at: now, updated_at: now, active: true }
}

} // verus!
