use crate::entity::book::BookView;
use crate::repository::document::{Field, Fields, no_fields};
use crate::repository::mongo_repo::{StoreAnswerView, StoreCallView, title_ascending};
use vstd::prelude::*;

verus! {

/// The books that a store holds, each under its key.
pub ghost struct Shelf {
    pub books: Map<Seq<u8>, BookView>,
}

impl Shelf {
    /// Every book carries the key that it is kept under.
    pub open spec fn wf(self) -> bool {
        forall|key: Seq<u8>|
            self.books.contains_key(key) ==> (#[trigger] self.books[key]).id == Some(key)
    }

    /// Whether `book` is one of the books held.
    pub open spec fn holds(self, book: BookView) -> bool {
        exists|key: Seq<u8>| self.books.contains_key(key) && #[trigger] self.books[key] == book
    }
}

/// The document that stands for a book in the store.
pub open spec fn book_fields(book: BookView) -> Fields {
    let fields = no_fields().insert("title"@, Field::Text(book.title)).insert(
        "author"@,
        Field::Text(book.author),
    ).insert("pages"@, Field::Int64(book.pages)).insert(
        "created_at"@,
        Field::Instant(book.created_at),
    ).insert("updated_at"@, Field::Instant(book.updated_at)).insert(
        "active"@,
        Field::Flag(book.active),
    );
    match book.id {
        Some(key) => fields.insert("_id"@, Field::Key(key)),
        None => fields,
    }
}

/// Whether a filter selects a book: the book's document holds, under every
/// name in the filter, the value that the filter gives.
pub open spec fn selects(filter: Fields, book: BookView) -> bool {
    filter.submap_of(book_fields(book))
}

/// Whether a filter selects none of the books held.
pub open spec fn selects_none(filter: Fields, shelf: Shelf) -> bool {
    forall|key: Seq<u8>|
        shelf.books.contains_key(key) ==> !selects(filter, #[trigger] shelf.books[key])
}

/// Whether an update turns the book `before` into the book `after`: the
/// update sets fields, the document of `after` is that of `before` with those
/// fields laid over it, and the key stays.
pub open spec fn rewrites(update: Fields, before: BookView, after: BookView) -> bool {
    &&& update.dom() == set!["$set"@]
    &&& update["$set"@] matches Field::Nested(fields)
    &&& book_fields(after) == book_fields(before).union_prefer_right(fields)
    &&& after.id == before.id
}

/// Whether `earlier` comes no later than `later` where texts are ordered
/// character by character, a text before those that it begins.
pub open spec fn text_le(earlier: Seq<char>, later: Seq<char>) -> bool
    decreases earlier.len(),
{
    if earlier.len() == 0 {
        true
    } else if later.len() == 0 {
        false
    } else if earlier[0] != later[0] {
        earlier[0] < later[0]
    } else {
        text_le(earlier.drop_first(), later.drop_first())
    }
}

/// Whether `books` is what a store holding `shelf` lists under `filter` and
/// `sort`: every book that the filter selects, once, and nothing else; by title
/// where that order is asked for.
pub open spec fn lists(shelf: Shelf, filter: Fields, sort: Fields, books: Seq<BookView>) -> bool {
    &&& forall|i: int|
        0 <= i < books.len() ==> shelf.holds(#[trigger] books[i]) && selects(filter, books[i])
    &&& forall|key: Seq<u8>|
        shelf.books.contains_key(key) && selects(filter, #[trigger] shelf.books[key])
            ==> books.contains(shelf.books[key])
    &&& forall|i: int, j: int|
        0 <= i < j < books.len() ==> (#[trigger] books[i]).id != (#[trigger] books[j]).id
    &&& sort == title_ascending() ==> forall|i: int, j: int|
        0 <= i <= j < books.len() ==> text_le(
            (#[trigger] books[i]).title,
            (#[trigger] books[j]).title,
        )
}

/// What a store that works does with one call: `answer` is what it says and
/// `after` what it holds then, where it held `before`.
///
/// A new book is kept under a key of twelve bytes that no other book has.
/// Where a filter selects several books and one is asked for, the store picks.
pub open spec fn answers(
    before: Shelf,
    call: StoreCallView,
    answer: StoreAnswerView,
    after: Shelf,
) -> bool {
    match call {
        StoreCallView::InsertOne { book } => {
            &&& answer matches StoreAnswerView::Inserted { id: Some(key) }
            &&& key.len() == 12
            &&& !before.books.contains_key(key)
            &&& after.books == before.books.insert(key, BookView { id: Some(key), ..book })
        },
        StoreCallView::FindOne { filter } => {
            &&& after == before
            &&& answer matches StoreAnswerView::Found { book }
            &&& match book {
                Some(book) => before.holds(book) && selects(filter, book),
                None => selects_none(filter, before),
            }
        },
        StoreCallView::UpdateOne { filter, update } => {
            &&& answer matches StoreAnswerView::Updated { matched_count }
            &&& if matched_count == 0 {
                &&& after == before
                &&& selects_none(filter, before)
            } else {
                &&& matched_count == 1
                &&& exists|key: Seq<u8>|
                    {
                        &&& before.books.contains_key(key)
                        &&& selects(filter, before.books[key])
                        &&& rewrites(update, before.books[key], #[trigger] after.books[key])
                        &&& after.books == before.books.insert(key, after.books[key])
                    }
            }
        },
        StoreCallView::Find { filter, sort } => {
            &&& after == before
            &&& answer matches StoreAnswerView::Listed { books }
            &&& lists(before, filter, sort, books)
        },
        StoreCallView::DeleteOne { filter } => {
            &&& answer matches StoreAnswerView::Deleted { deleted_count }
            &&& if deleted_count == 0 {
                &&& after == before
                &&& selects_none(filter, before)
            } else {
                &&& deleted_count == 1
                &&& exists|key: Seq<u8>|
                    {
                        &&& #[trigger] before.books.contains_key(key)
                        &&& selects(filter, before.books[key])
                        &&& after.books == before.books.remove(key)
                    }
            }
        },
    }
}

} // verus!
