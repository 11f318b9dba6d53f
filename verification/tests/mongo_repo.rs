use book_api::entity::book::Book;
use book_api::entity::book_id::BookId;
use book_api::entity::error_data::ErrorData;
use book_api::repository::mongo_repo::{Location, MongoRepo, StoreCall};
use mongodb::bson::oid::ObjectId;
use mongodb::bson::{Bson, Document};

const KEY_TEXT: &str = "65a1b2c3d4e5f60718293a4b";
const KEY_BYTES: [u8; 12] = [0x65, 0xa1, 0xb2, 0xc3, 0xd4, 0xe5, 0xf6, 0x07, 0x18, 0x29, 0x3a, 0x4b];

fn key_filter() -> Document {
    let mut filter = Document::new();
    filter.insert("_id", Bson::ObjectId(ObjectId::from_bytes(KEY_BYTES)));
    filter
}

fn some_update() -> Document {
    let mut fields = Document::new();
    fields.insert("title", "Dom Casmurro");
    let mut update = Document::new();
    update.insert("$set", fields);
    update
}

#[test]
fn init_finds_the_books_at_the_configured_address() {
    let location = MongoRepo::init(Some("mongodb://localhost:27017".to_string()));
    assert_eq!(
        location,
        Location {
            uri: "mongodb://localhost:27017".to_string(),
            database: "api".to_string(),
            collection: "Book".to_string(),
        }
    );
}

#[test]
fn init_without_an_address_names_no_store() {
    let location = MongoRepo::init(None);
    assert_eq!(location.uri, "Error loading env variable");
    assert_eq!(location.database, "api");
    assert_eq!(location.collection, "Book");
}

#[test]
fn init_takes_an_empty_address_as_it_is() {
    assert_eq!(MongoRepo::init(Some(String::new())).uri, "");
}

#[test]
fn create_book_sends_the_book_as_it_is() {
    let book = Book {
        id: None,
        title: "Dom Casmurro".to_string(),
        author: "Machado de Assis".to_string(),
        pages: 256,
        created_at: 1_700_000_000_000,
        updated_at: 1_700_000_000_000,
        active: true,
    };
    assert_eq!(MongoRepo::create_book(book.clone()), StoreCall::InsertOne { book });
}

#[test]
fn find_one_filters_by_the_key() {
    let call = MongoRepo::find_one(BookId { bytes: KEY_BYTES });
    assert_eq!(call, StoreCall::FindOne { filter: key_filter() });
}

#[test]
fn the_key_filter_holds_an_object_id_and_nothing_else() {
    match MongoRepo::find_one(BookId { bytes: KEY_BYTES }) {
        StoreCall::FindOne { filter } => {
            assert_eq!(filter.len(), 1);
            assert_eq!(filter.get_object_id("_id").unwrap().bytes(), KEY_BYTES);
            assert_eq!(filter.get_object_id("_id").unwrap().to_hex(), KEY_TEXT);
        }
        other => panic!("not a lookup: {:?}", other),
    }
}

#[test]
fn get_book_by_id_parses_the_key() {
    let made = MongoRepo::get_book_by_id(&KEY_TEXT.to_string());
    assert_eq!(made, Ok(StoreCall::FindOne { filter: key_filter() }));
}

#[test]
fn get_book_by_id_refuses_a_malformed_key() {
    let made = MongoRepo::get_book_by_id(&"not-a-key".to_string());
    assert_eq!(made, Err(ErrorData { message: "ID Inválido".to_string(), status: 400 }));
    let made = MongoRepo::get_book_by_id(&String::new());
    assert_eq!(made, Err(ErrorData { message: "ID Inválido".to_string(), status: 400 }));
}

#[test]
fn update_one_filters_by_the_key_and_passes_the_update_on() {
    let call = MongoRepo::update_one(BookId { bytes: KEY_BYTES }, some_update());
    assert_eq!(call, StoreCall::UpdateOne { filter: key_filter(), update: some_update() });
}

#[test]
fn update_parses_the_key() {
    let made = MongoRepo::update(KEY_TEXT.to_uppercase(), some_update());
    assert_eq!(made, Ok(StoreCall::UpdateOne { filter: key_filter(), update: some_update() }));
}

#[test]
fn update_refuses_a_malformed_key() {
    let made = MongoRepo::update("65a1b2c3".to_string(), some_update());
    assert_eq!(made, Err(ErrorData { message: "ID Inválido".to_string(), status: 400 }));
}

#[test]
fn find_all_asks_for_listed_books_by_title() {
    let mut filter = Document::new();
    filter.insert("active", true);
    let mut sort = Document::new();
    sort.insert("title", 1_i32);
    assert_eq!(MongoRepo::find_all(), StoreCall::Find { filter, sort });
}

#[test]
fn find_all_orders_with_a_32_bit_one() {
    match MongoRepo::find_all() {
        StoreCall::Find { filter, sort } => {
            assert_eq!(filter.get("active"), Some(&Bson::Boolean(true)));
            assert_eq!(sort.get("title"), Some(&Bson::Int32(1)));
            assert_eq!(filter.len(), 1);
            assert_eq!(sort.len(), 1);
        }
        other => panic!("not a listing: {:?}", other),
    }
}

#[test]
fn delete_one_filters_by_the_key() {
    let call = MongoRepo::delete_one(BookId { bytes: KEY_BYTES });
    assert_eq!(call, StoreCall::DeleteOne { filter: key_filter() });
}

#[test]
fn delete_by_id_parses_the_key() {
    let made = MongoRepo::delete_by_id(&KEY_TEXT.to_string());
    assert_eq!(made, Ok(StoreCall::DeleteOne { filter: key_filter() }));
}

#[test]
fn delete_by_id_refuses_a_malformed_key() {
    let made = MongoRepo::delete_by_id(&"65a1b2c3d4e5f60718293a4z".to_string());
    assert_eq!(made, Err(ErrorData { message: "ID Inválido".to_string(), status: 400 }));
}
