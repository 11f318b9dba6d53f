use crate::entity::book::{Book, BookView, book_views};
use crate::entity::book_id::{BookId, is_key_text, key_bytes};
use crate::entity::error_data::{ErrorData, invalid_identifier};
use crate::repository::document::{
    Field, FieldValue, Fields, document_fields, empty_document, insert_field, no_fields,
};
use mongodb::bson::Document;
use vstd::prelude::*;

verus! {

/// One call to the collection of books, ready to be made.
#[derive(Debug, PartialEq)]
pub enum StoreCall {
    /// Store `book` as a new document.
    InsertOne { book: Book },
    /// Fetch one document that `filter` selects.
    FindOne { filter: Document },
    /// Apply `update` to one document that `filter` selects.
    UpdateOne { filter: Document, update: Document },
    /// Fetch every document that `filter` selects, in the order that `sort` asks for.
    Find { filter: Document, sort: Document },
    /// Remove one document that `filter` selects.
    DeleteOne { filter: Document },
}

/// The mathematical content of a [`StoreCall`].
pub ghost enum StoreCallView {
    InsertOne { book: BookView },
    FindOne { filter: Fields },
    UpdateOne { filter: Fields, update: Fields },
    Find { filter: Fields, sort: Fields },
    DeleteOne { filter: Fields },
}

impl View for StoreCall {
    type V = StoreCallView;

    open spec fn view(&self) -> StoreCallView {
        match self {
            StoreCall::InsertOne { book } => StoreCallView::InsertOne { book: book@ },
            StoreCall::FindOne { filter } => StoreCallView::FindOne {
                filter: document_fields(*filter),
            },
            StoreCall::UpdateOne { filter, update } => StoreCallView::UpdateOne {
                filter: document_fields(*filter),
                update: document_fields(*update),
            },
            StoreCall::Find { filter, sort } => StoreCallView::Find {
                filter: document_fields(*filter),
                sort: document_fields(*sort),
            },
            StoreCall::DeleteOne { filter } => StoreCallView::DeleteOne {
                filter: document_fields(*filter),
            },
        }
    }
}

/// What the store answered to one call.
#[derive(Debug, Clone, PartialEq, Eq)]
pub enum StoreAnswer {
    /// A document was stored, under `id` where the store reported a key.
    Inserted { id: Option<BookId> },
    /// The document that the filter selected, if there was one.
    Found { book: Option<Book> },
    /// The update was applied to the `matched_count` documents that the filter selected.
    Updated { matched_count: u64 },
    /// The documents that the filter selected, in the order asked for.
    Listed { books: Vec<Book> },
    /// `deleted_count` documents were removed.
    Deleted { deleted_count: u64 },
    /// The call failed; `message` is the store's report.
    Failed { message: String },
}

/// The mathematical content of a [`StoreAnswer`].
pub ghost enum StoreAnswerView {
    Inserted { id: Option<Seq<u8>> },
    Found { book: Option<BookView> },
    Updated { matched_count: u64 },
    Listed { books: Seq<BookView> },
    Deleted { deleted_count: u64 },
    Failed { message: Seq<char> },
}

impl View for StoreAnswer {
    type V = StoreAnswerView;

    open spec fn view(&self) -> StoreAnswerView {
        match self {
            StoreAnswer::Inserted { id } => StoreAnswerView::Inserted {
                id: match id {
                    Some(id) => Some(id@),
                    None => None,
                },
            },
            StoreAnswer::Found { book } => StoreAnswerView::Found {
                book: match book {
                    Some(book) => Some(book@),
                    None => None,
                },
            },
            StoreAnswer::Updated { matched_count } => StoreAnswerView::Updated {
                matched_count: *matched_count,
            },
            StoreAnswer::Listed { books } => StoreAnswerView::Listed { books: book_views(books@) },
            StoreAnswer::Deleted { deleted_count } => StoreAnswerView::Deleted {
                deleted_count: *deleted_count,
            },
            StoreAnswer::Failed { message } => StoreAnswerView::Failed { message: message@ },
        }
    }
}

/// The filter that selects the document kept under `key`.
pub open spec fn key_filter(key: Seq<u8>) -> Fields {
    no_fields().insert("_id"@, Field::Key(key))
}

/// The filter that selects the books that are listed.
pub open spec fn active_filter() -> Fields {
    no_fields().insert("active"@, Field::Flag(true))
}

/// The order of a listing: by title, ascending.
pub open spec fn title_ascending() -> Fields {
    no_fields().insert("title"@, Field::Int32(1))
}

/// Where a collection is to be found.
#[derive(Debug, Clone, PartialEq, Eq)]
pub struct Location {
    /// The address of the store.
    pub uri: String,
    pub database: String,
    pub collection: String,
}

/// The mathematical content of a [`Location`].
pub ghost struct LocationView {
    pub uri: Seq<char>,
    pub database: Seq<char>,
    pub collection: Seq<char>,
}

impl View for Location {
    type V = LocationView;

    open spec fn view(&self) -> LocationView {
        LocationView { uri: self.uri@, database: self.database@, collection: self.collection@ }
    }
}

/// Where the books are kept, given the address that was configured, if any.
pub open spec fn store_location(configured: Option<Seq<char>>) -> LocationView {
    LocationView {
        uri: match configured {
            Some(address) => address,
            None => "Error loading env variable"@,
        },
        database: "api"@,
        collection: "Book"@,
    }
}

/// The collection of books in the document store, seen from this side of the
/// connection: it words the calls and leaves the making of them to the caller.
pub struct MongoRepo {}

impl MongoRepo {
    /// Where the books are kept: at the address that was configured, in the
    /// collection `Book` of the database `api`. Without an address the
    /// location names a text that no store answers to, so that connecting
    /// fails.
    pub fn init(configured: Option<String>) -> (location: Location)
        ensures
            location@ == store_location(
                match configured {
                    Some(address) => Some(address@),
                    None => None,
                },
            ),
    {
        let uri = match configured {
            Some(address) => address,
            None => "Error loading env variable".to_owned(),
        };
        Location { uri, database: "api".to_owned(), collection: "Book".to_owned() }
    }

    /// The filter that selects the document kept under `key`.
    fn filter_by_key(key: BookId) -> (filter: Document)
        ensures
            document_fields(filter) == key_filter(key@),
    {
        let mut filter = empty_document();
        insert_field(&mut filter, "_id", FieldValue::Key(key));
        filter
    }

    pub fn create_book(new_book: Book) -> (call: StoreCall)
        ensures
            call@ == (StoreCallView::InsertOne { book: new_book@ }),
    {
        StoreCall::InsertOne { book: new_book }
    }

    /// Asks for the book kept under `key`.
    pub fn find_one(key: BookId) -> (call: StoreCall)
        ensures
            call@ == (StoreCallView::FindOne { filter: key_filter(key@) }),
    {
        StoreCall::FindOne { filter: Self::filter_by_key(key) }
    }

    /// Asks for the book whose key `id` is the written form of.
    pub fn get_book_by_id(id: &String) -> (made: Result<StoreCall, ErrorData>)
        ensures
            match made {
                Ok(call) => is_key_text(id@) && call@ == (StoreCallView::FindOne {
                    filter: key_filter(key_bytes(id@)),
                }),
                Err(error) => !is_key_text(id@) && error@ == invalid_identifier(),
            },
    {
        match BookId::parse_str(id.as_str()) {
            Some(key) => Ok(Self::find_one(key)),
            None => Err(ErrorData::invalid_identifier()),
        }
    }

    /// Asks that `update` be applied to the book kept under `key`.
    pub fn update_one(key: BookId, update: Document) -> (call: StoreCall)
        ensures
            call@ == (StoreCallView::UpdateOne {
                filter: key_filter(key@),
                update: document_fields(update),
            }),
    {
        StoreCall::UpdateOne { filter: Self::filter_by_key(key), update }
    }

    /// Asks that `book` be applied, as an update, to the book whose key `id` is
    /// the written form of.
    pub fn update(id: String, book: Document) -> (made: Result<StoreCall, ErrorData>)
        ensures
            match made {
                Ok(call) => is_key_text(id@) && call@ == (StoreCallView::UpdateOne {
                    filter: key_filter(key_bytes(id@)),
                    update: document_fields(book),
                }),
                Err(error) => !is_key_text(id@) && error@ == invalid_identifier(),
            },
    {
        match BookId::parse_str(id.as_str()) {
            Some(key) => Ok(Self::update_one(key, book)),
            None => Err(ErrorData::invalid_identifier()),
        }
    }

    /// Asks for the books that are listed, ordered by title.
    pub fn find_all() -> (call: StoreCall)
        ensures
            call@ == (StoreCallView::Find { filter: active_filter(), sort: title_ascending() }),
    {
        let mut filter = empty_document();
        insert_field(&mut filter, "active", FieldValue::Flag(true));
        let mut sort = empty_document();
        insert_field(&mut sort, "title", FieldValue::Int32(1));
        StoreCall::Find { filter, sort }
    }

    /// Asks that the book kept under `key` be removed.
    pub fn delete_one(key: BookId) -> (call: StoreCall)
        ensures
            call@ == (StoreCallView::DeleteOne { filter: key_filter(key@) }),
    {
        StoreCall::DeleteOne { filter: Self::filter_by_key(key) }
    }

    /// Asks that the book whose key `id` is the written form of be removed.
    pub fn delete_by_id(id: &String) -> (made: Result<StoreCall, ErrorData>)
        ensures
            match made {
                Ok(call) => is_key_text(id@) && call@ == (StoreCallView::DeleteOne {
                    filter: key_filter(key_bytes(id@)),
                }),
                Err(error) => !is_key_text(id@) && error@ == invalid_identifier(),
            },
    {
        match BookId::parse_str(id.as_str()) {
            Some(key) => Ok(Self::delete_one(key)),
            None => Err(ErrorData::invalid_identifier()),
        }
    }
}

} // verus!
