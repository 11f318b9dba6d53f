use crate::entity::book::{Book, BookView, book_views, new_book};
use crate::entity::book_id::{BookId, is_key_text, key_bytes};
use crate::entity::create_book::{CreateBook, CreateBookView};
use crate::entity::error_data::{
    ErrorData, ErrorDataView, delete_failed, invalid_identifier, invalid_parameters, not_found,
    upstream_failure,
};
use crate::entity::update_book::{UpdateBook, UpdateBookView};
use crate::repository::document::{
    Field, FieldValue, Fields, document_fields, empty_document, insert_field, no_fields,
};
use crate::repository::mongo_repo::{
    MongoRepo, StoreAnswer, StoreAnswerView, StoreCall, StoreCallView, active_filter, key_filter,
    title_ascending,
};
use chrono::Utc;
use mongodb::bson::Document;
use vstd::prelude::*;

verus! {

/// What an operation waits for while a call to the store is under way.
#[derive(Debug, Clone, PartialEq, Eq)]
pub enum Pending {
    /// A new book was sent to be stored.
    Create,
    /// A book was asked for.
    GetById,
    /// The book to rewrite was asked for; the fields are those to write.
    UpdateFetch { id: BookId, title: String, author: String, pages: i64 },
    /// The rewritten fields were sent.
    UpdateWrite { id: BookId },
    /// The rewritten book was asked for.
    UpdateRefetch,
    /// The listed books were asked for.
    FindAllActives,
    /// A book was sent to be removed.
    DeleteById,
}

/// The mathematical content of a [`Pending`].
pub ghost enum PendingView {
    Create,
    GetById,
    UpdateFetch { id: Seq<u8>, title: Seq<char>, author: Seq<char>, pages: i64 },
    UpdateWrite { id: Seq<u8> },
    UpdateRefetch,
    FindAllActives,
    DeleteById,
}

impl View for Pending {
    type V = PendingView;

    open spec fn view(&self) -> PendingView {
        match self {
            Pending::Create => PendingView::Create,
            Pending::GetById => PendingView::GetById,
            Pending::UpdateFetch { id, title, author, pages } => PendingView::UpdateFetch {
                id: id@,
                title: title@,
                author: author@,
                pages: *pages,
            },
            Pending::UpdateWrite { id } => PendingView::UpdateWrite { id: id@ },
            Pending::UpdateRefetch => PendingView::UpdateRefetch,
            Pending::FindAllActives => PendingView::FindAllActives,
            Pending::DeleteById => PendingView::DeleteById,
        }
    }
}

impl PendingView {
    /// How many calls an operation may still make once the one under way is
    /// answered.
    pub open spec fn calls_left(self) -> nat {
        match self {
            PendingView::UpdateFetch { .. } => 2,
            PendingView::UpdateWrite { .. } => 1,
            _ => 0,
        }
    }
}

/// What an operation that succeeded hands to the client.
#[derive(Debug, Clone, PartialEq, Eq)]
pub enum Reply {
    /// The key under which the new book was stored.
    Created { id: BookId },
    /// The book asked for, or the book as rewritten.
    Fetched { book: Book },
    /// The listed books.
    Listed { books: Vec<Book> },
    /// A word that the book is gone.
    Removed { message: String },
}

/// The mathematical content of a [`Reply`].
pub ghost enum ReplyView {
    Created { id: Seq<u8> },
    Fetched { book: BookView },
    Listed { books: Seq<BookView> },
    Removed { message: Seq<char> },
}

impl View for Reply {
    type V = ReplyView;

    open spec fn view(&self) -> ReplyView {
        match self {
            Reply::Created { id } => ReplyView::Created { id: id@ },
            Reply::Fetched { book } => ReplyView::Fetched { book: book@ },
            Reply::Listed { books } => ReplyView::Listed { books: book_views(books@) },
            Reply::Removed { message } => ReplyView::Removed { message: message@ },
        }
    }
}

/// Where an operation stands: at a call to make, or at its end.
#[derive(Debug, PartialEq)]
pub enum Step {
    /// Make `call`, then resume with `pending` and the store's answer.
    Call { call: StoreCall, pending: Pending },
    /// The operation is over.
    Done { outcome: Result<Reply, ErrorData> },
}

/// The mathematical content of a [`Step`].
pub ghost enum StepView {
    Call { call: StoreCallView, pending: PendingView },
    Done { outcome: Result<ReplyView, ErrorDataView> },
}

impl View for Step {
    type V = StepView;

    open spec fn view(&self) -> StepView {
        match self {
            Step::Call { call, pending } => StepView::Call { call: call@, pending: pending@ },
            Step::Done { outcome } => StepView::Done {
                outcome: match outcome {
                    Ok(reply) => Ok(reply@),
                    Err(error) => Err(error@),
                },
            },
        }
    }
}

/// The end of an operation that was turned down.
pub open spec fn refused(error: ErrorDataView) -> StepView {
    StepView::Done { outcome: Err(error) }
}

/// The end of an operation that went well.
pub open spec fn granted(reply: ReplyView) -> StepView {
    StepView::Done { outcome: Ok(reply) }
}

/// Reported where the store took a new book and named no key for it.
pub open spec fn missing_key_message() -> Seq<char> {
    "Ocorreu um erro ao criar um Livro"@
}

/// Reported where the store holds no book under the key asked for.
pub open spec fn missing_book_message() -> Seq<char> {
    "Ocorreu um erro ao recuperar um livro"@
}

/// Reported where the store's answer is not one to the call that was made.
pub open spec fn unexpected_answer_message() -> Seq<char> {
    "Resposta inesperada do banco de dados"@
}

/// Told to the client once a book is removed.
pub open spec fn removed_message() -> Seq<char> {
    "Livro removido com sucesso"@
}

/// The update that rewrites the book under `key`: title, author and pages as
/// given, the moment of creation as it was, the moment of writing `now`, and
/// the book listed.
pub open spec fn set_document(
    key: Seq<u8>,
    title: Seq<char>,
    author: Seq<char>,
    pages: i64,
    created_at: i64,
    now: i64,
) -> Fields {
    no_fields().insert(
        "$set"@,
        Field::Nested(
            no_fields().insert("_id"@, Field::Key(key)).insert("title"@, Field::Text(title)).insert(
                "author"@,
                Field::Text(author),
            ).insert("pages"@, Field::Int64(pages)).insert(
                "created_at"@,
                Field::Instant(created_at),
            ).insert("updated_at"@, Field::Instant(now)).insert("active"@, Field::Flag(true)),
        ),
    )
}

/// How storing a book begins at the moment `now`: with the book sent to the
/// store, where the payload is complete, and with a refusal where it is not.
pub open spec fn create_step(payload: CreateBookView, now: i64) -> StepView {
    if payload.is_complete() {
        StepView::Call {
            call: StoreCallView::InsertOne {
                book: new_book(payload.title->0, payload.author->0, payload.pages->0, now),
            },
            pending: PendingView::Create,
        }
    } else {
        refused(invalid_parameters())
    }
}

/// How fetching a book begins: with the book under the key that `id` writes
/// asked for, or with a refusal where `id` writes no key.
pub open spec fn get_by_id_step(id: Seq<char>) -> StepView {
    if is_key_text(id) {
        StepView::Call {
            call: StoreCallView::FindOne { filter: key_filter(key_bytes(id)) },
            pending: PendingView::GetById,
        }
    } else {
        refused(invalid_identifier())
    }
}

/// How rewriting a book begins: the payload is looked at first, then the key;
/// where both are in order, the book as it stands is asked for.
pub open spec fn update_step(id: Seq<char>, payload: UpdateBookView) -> StepView {
    if !payload.is_complete() {
        refused(invalid_parameters())
    } else if !is_key_text(id) {
        refused(invalid_identifier())
    } else {
        StepView::Call {
            call: StoreCallView::FindOne { filter: key_filter(key_bytes(id)) },
            pending: PendingView::UpdateFetch {
                id: key_bytes(id),
                title: payload.title->0,
                author: payload.author->0,
                pages: payload.pages->0,
            },
        }
    }
}

/// How listing begins: with the listed books asked for, ordered by title.
pub open spec fn find_all_actives_step() -> StepView {
    StepView::Call {
        call: StoreCallView::Find { filter: active_filter(), sort: title_ascending() },
        pending: PendingView::FindAllActives,
    }
}

/// How removing a book begins: with the removal of the book under the key that
/// `id` writes, or with a refusal where `id` writes no key.
pub open spec fn delete_by_id_step(id: Seq<char>) -> StepView {
    if is_key_text(id) {
        StepView::Call {
            call: StoreCallView::DeleteOne { filter: key_filter(key_bytes(id)) },
            pending: PendingView::DeleteById,
        }
    } else {
        refused(invalid_identifier())
    }
}

/// How an operation goes on once the store has answered, at the moment `now`.
///
/// A call that failed ends the operation with the store's report. So does an
/// answer of a kind that the call made does not have, with a report of its own.
pub open spec fn resume_step(pending: PendingView, answer: StoreAnswerView, now: i64) -> StepView {
    match (pending, answer) {
        (_, StoreAnswerView::Failed { message }) => refused(upstream_failure(message)),
        (PendingView::Create, StoreAnswerView::Inserted { id: Some(key) }) => granted(
            ReplyView::Created { id: key },
        ),
        (PendingView::Create, StoreAnswerView::Inserted { id: None }) => refused(
            upstream_failure(missing_key_message()),
        ),
        (PendingView::GetById, StoreAnswerView::Found { book: Some(book) }) => granted(
            ReplyView::Fetched { book },
        ),
        (PendingView::GetById, StoreAnswerView::Found { book: None }) => refused(
            upstream_failure(missing_book_message()),
        ),
        (
            PendingView::UpdateFetch { id, title, author, pages },
            StoreAnswerView::Found { book: Some(book) },
        ) => StepView::Call {
            call: StoreCallView::UpdateOne {
                filter: key_filter(id),
                update: set_document(id, title, author, pages, book.created_at, now),
            },
            pending: PendingView::UpdateWrite { id },
        },
        (PendingView::UpdateFetch { .. }, StoreAnswerView::Found { book: None }) => refused(
            not_found(),
        ),
        (PendingView::UpdateWrite { id }, StoreAnswerView::Updated { matched_count }) => {
            if matched_count == 1 {
                StepView::Call {
                    call: StoreCallView::FindOne { filter: key_filter(id) },
                    pending: PendingView::UpdateRefetch,
                }
            } else {
                refused(not_found())
            }
        },
        (PendingView::UpdateRefetch, StoreAnswerView::Found { book: Some(book) }) => granted(
            ReplyView::Fetched { book },
        ),
        (PendingView::UpdateRefetch, StoreAnswerView::Found { book: None }) => refused(
            not_found(),
        ),
        (PendingView::FindAllActives, StoreAnswerView::Listed { books }) => granted(
            ReplyView::Listed { books },
        ),
        (PendingView::DeleteById, StoreAnswerView::Deleted { deleted_count }) => {
            if deleted_count == 1 {
                granted(ReplyView::Removed { message: removed_message() })
            } else {
                refused(delete_failed())
            }
        },
        _ => refused(upstream_failure(unexpected_answer_message())),
    }
}

/// Calls `Utc::now` and `DateTime::timestamp_millis`: the time of day as the
/// machine has it, in milliseconds since the Unix epoch. Nothing is promised of
/// it, not even that it does not go back. The outside function gives up, with
/// a panic, on a machine whose clock stands before 1970.
#[verifier::external_body]
fn current_millis() -> (now: i64) {
    Utc::now().timestamp_millis()
}

/// Words the update that rewrites `book`, kept under `id`, at the moment `now`.
pub fn create_new_document(
    title: String,
    author: String,
    pages: i64,
    book: &Book,
    id: BookId,
    now: i64,
) -> (update: Document)
    ensures
        document_fields(update) == set_document(id@, title@, author@, pages, book.created_at, now),
{
    let mut fields = empty_document();
    insert_field(&mut fields, "_id", FieldValue::Key(id));
    insert_field(&mut fields, "title", FieldValue::Text(title));
    insert_field(&mut fields, "author", FieldValue::Text(author));
    insert_field(&mut fields, "pages", FieldValue::Int64(pages));
    insert_field(&mut fields, "created_at", FieldValue::Instant(book.created_at));
    insert_field(&mut fields, "updated_at", FieldValue::Instant(now));
    insert_field(&mut fields, "active", FieldValue::Flag(true));
    let mut update = empty_document();
    insert_field(&mut update, "$set", FieldValue::Nested(fields));
    update
}

/// Whether a payload lacks one of the three fields that every book needs.
pub fn has_invalid_params(
    title: Option<String>,
    author: Option<String>,
    pages: Option<i64>,
) -> (invalid: bool)
    ensures
        invalid == (title is None || author is None || pages is None),
{
    title.is_none() || author.is_none() || pages.is_none()
}

/// The operations on the catalogue. Each begins with a [`Step`]; where that is
/// a call, the caller makes it and hands the answer to [`BookService::resume`],
/// until the step is the last one.
pub struct BookService {}

impl BookService {
    /// Begins to store a new book, created now.
    ///
    /// A payload that lacks a field is turned down, and nothing is sent to the
    /// store.
    pub fn create(payload: CreateBook) -> (step: Step)
        ensures
            exists|now: i64| step@ == #[trigger] create_step(payload@, now),
            !payload@.is_complete() ==> step@ == refused(invalid_parameters()),
            payload@.is_complete() ==> step@ is Call && step@->call is InsertOne
                && step@->call->book.wf(),
    {
        let now = current_millis();
        let step = Self::create_at(payload, now);
        assert(step@ == create_step(payload@, now));
        step
    }

    /// Begins to store a new book, created at the moment `now`.
    ///
    /// A payload that lacks a field is turned down, and nothing is sent to the
    /// store.
    pub fn create_at(payload: CreateBook, now: i64) -> (step: Step)
        ensures
            step@ == create_step(payload@, now),
            !payload@.is_complete() ==> step@ == refused(invalid_parameters()),
            payload@.is_complete() ==> step@ is Call && step@->call is InsertOne
                && step@->call->book.wf(),
    {
        if has_invalid_params(
            payload.title.clone(),
            payload.author.clone(),
            payload.pages.clone(),
        ) {
            return Step::Done { outcome: Err(ErrorData::invalid_parameters()) };
        }
        let book = Book {
            id: None,
            title: payload.title.unwrap(),
            author: payload.author.unwrap(),
            pages: payload.pages.unwrap(),
            created_at: now,
            updated_at: now,
            active: true,
        };
        Step::Call { call: MongoRepo::create_book(book), pending: Pending::Create }
    }

    /// Begins to fetch the book whose key `id` writes.
    pub fn get_by_id(id: String) -> (step: Step)
        ensures
            step@ == get_by_id_step(id@),
    {
        match MongoRepo::get_book_by_id(&id) {
            Ok(call) => Step::Call { call, pending: Pending::GetById },
            Err(error) => Step::Done { outcome: Err(error) },
        }
    }

    /// Begins to rewrite the book whose key `id` writes.
    pub fn update(id: String, update_book: UpdateBook) -> (step: Step)
        ensures
            step@ == update_step(id@, update_book@),
    {
        if has_invalid_params(
            update_book.title.clone(),
            update_book.author.clone(),
            update_book.pages.clone(),
        ) {
            return Step::Done { outcome: Err(ErrorData::invalid_parameters()) };
        }
        match BookId::parse_str(id.as_str()) {
            Some(key) => Step::Call {
                call: MongoRepo::find_one(key),
                pending: Pending::UpdateFetch {
                    id: key,
                    title: update_book.title.unwrap(),
                    author: update_book.author.unwrap(),
                    pages: update_book.pages.unwrap(),
                },
            },
            None => Step::Done { outcome: Err(ErrorData::invalid_identifier()) },
        }
    }

    /// Begins to list the books that are listed.
    pub fn find_all_actives() -> (step: Step)
        ensures
            step@ == find_all_actives_step(),
    {
        Step::Call { call: MongoRepo::find_all(), pending: Pending::FindAllActives }
    }

    /// Begins to remove the book whose key `id` writes.
    pub fn delete_by_id(id: String) -> (step: Step)
        ensures
            step@ == delete_by_id_step(id@),
    {
        match MongoRepo::delete_by_id(&id) {
            Ok(call) => Step::Call { call, pending: Pending::DeleteById },
            Err(error) => Step::Done { outcome: Err(error) },
        }
    }

    /// Goes on with an operation now that the store has answered.
    ///
    /// Every call brings the operation nearer to its end: none makes more than
    /// three.
    pub fn resume(pending: Pending, answer: StoreAnswer) -> (step: Step)
        ensures
            exists|now: i64| step@ == #[trigger] resume_step(pending@, answer@, now),
            step@ matches StepView::Call { pending: next, .. } ==> next.calls_left()
                < pending@.calls_left(),
    {
        let now = current_millis();
        let step = Self::resume_at(pending, answer, now);
        assert(step@ == resume_step(pending@, answer@, now));
        step
    }

    /// Goes on with an operation whose call the store has answered, at the
    /// moment `now`.
    ///
    /// Every call brings the operation nearer to its end: none makes more than
    /// three.
    pub fn resume_at(pending: Pending, answer: StoreAnswer, now: i64) -> (step: Step)
        ensures
            step@ == resume_step(pending@, answer@, now),
            step@ matches StepView::Call { pending: next, .. } ==> next.calls_left()
                < pending@.calls_left(),
    {
        match (pending, answer) {
            (_, StoreAnswer::Failed { message }) => Step::Done {
                outcome: Err(ErrorData::upstream_failure(message)),
            },
            (Pending::Create, StoreAnswer::Inserted { id: Some(id) }) => Step::Done {
                outcome: Ok(Reply::Created { id }),
            },
            (Pending::Create, StoreAnswer::Inserted { id: None }) => Step::Done {
                outcome: Err(
                    ErrorData::upstream_failure("Ocorreu um erro ao criar um Livro".to_owned()),
                ),
            },
            (Pending::GetById, StoreAnswer::Found { book: Some(book) }) => Step::Done {
                outcome: Ok(Reply::Fetched { book }),
            },
            (Pending::GetById, StoreAnswer::Found { book: None }) => Step::Done {
                outcome: Err(
                    ErrorData::upstream_failure("Ocorreu um erro ao recuperar um livro".to_owned()),
                ),
            },
            (
                Pending::UpdateFetch { id, title, author, pages },
                StoreAnswer::Found { book: Some(book) },
            ) => {
                let update = create_new_document(title, author, pages, &book, id, now);
                Step::Call {
                    call: MongoRepo::update_one(id, update),
                    pending: Pending::UpdateWrite { id },
                }
            },
            (Pending::UpdateFetch { .. }, StoreAnswer::Found { book: None }) => Step::Done {
                outcome: Err(ErrorData::not_found()),
            },
            (Pending::UpdateWrite { id }, StoreAnswer::Updated { matched_count }) => {
                if matched_count == 1 {
                    Step::Call { call: MongoRepo::find_one(id), pending: Pending::UpdateRefetch }
                } else {
                    Step::Done { outcome: Err(ErrorData::not_found()) }
                }
            },
            (Pending::UpdateRefetch, StoreAnswer::Found { book: Some(book) }) => Step::Done {
                outcome: Ok(Reply::Fetched { book }),
            },
            (Pending::UpdateRefetch, StoreAnswer::Found { book: None }) => Step::Done {
                outcome: Err(ErrorData::not_found()),
            },
            (Pending::FindAllActives, StoreAnswer::Listed { books }) => Step::Done {
                outcome: Ok(Reply::Listed { books }),
            },
            (Pending::DeleteById, StoreAnswer::Deleted { deleted_count }) => {
                if deleted_count == 1 {
                    Step::Done {
                        outcome: Ok(
                            Reply::Removed { message: "Livro removido com sucesso".to_owned() },
                        ),
                    }
                } else {
                    Step::Done { outcome: Err(ErrorData::delete_failed()) }
                }
            },
            _ => Step::Done {
                outcome: Err(
                    ErrorData::upstream_failure("Resposta inesperada do banco de dados".to_owned()),
                ),
            },
        }
    }
}

} // verus!
