use crate::entity::book::{Book, BookView, book_views};
use crate::entity::book_id::BookId;
use crate::entity::error_data::{ErrorData, ErrorDataView};
use crate::service::book_service::{Reply, ReplyView};
use vstd::prelude::*;

verus! {

/// What a response carries.
#[derive(Debug, Clone, PartialEq, Eq)]
pub enum Body {
    /// A word to the client, sent as `message`.
    Message { message: String },
    /// The state of the service, sent as `status`.
    Health { status: String },
    /// The key of a book, sent as `id`.
    Id { id: BookId },
    /// One book.
    Book { book: Book },
    /// A list of books.
    Books { books: Vec<Book> },
    /// Why the request was turned down.
    Error { error: ErrorData },
}

/// The mathematical content of a [`Body`].
pub ghost enum BodyView {
    Message { message: Seq<char> },
    Health { status: Seq<char> },
    Id { id: Seq<u8> },
    Book { book: BookView },
    Books { books: Seq<BookView> },
    Error { error: ErrorDataView },
}

impl View for Body {
    type V = BodyView;

    open spec fn view(&self) -> BodyView {
        match self {
            Body::Message { message } => BodyView::Message { message: message@ },
            Body::Health { status } => BodyView::Health { status: status@ },
            Body::Id { id } => BodyView::Id { id: id@ },
            Body::Book { book } => BodyView::Book { book: book@ },
            Body::Books { books } => BodyView::Books { books: book_views(books@) },
            Body::Error { error } => BodyView::Error { error: error@ },
        }
    }
}

/// A response: the status that it goes out with, and what it carries.
#[derive(Debug, Clone, PartialEq, Eq)]
pub struct Response {
    pub status: u16,
    pub body: Body,
}

/// The mathematical content of a [`Response`].
pub ghost struct ResponseView {
    pub status: u16,
    pub body: BodyView,
}

impl View for Response {
    type V = ResponseView;

    open spec fn view(&self) -> ResponseView {
        ResponseView { status: self.status, body: self.body@ }
    }
}

/// The view of an operation's outcome.
pub open spec fn outcome_view(outcome: Result<Reply, ErrorData>) -> Result<
    ReplyView,
    ErrorDataView,
> {
    match outcome {
        Ok(reply) => Ok(reply@),
        Err(error) => Err(error@),
    }
}

/// What the client is sent for what an operation handed over.
pub open spec fn reply_body(reply: ReplyView) -> BodyView {
    match reply {
        ReplyView::Created { id } => BodyView::Id { id },
        ReplyView::Fetched { book } => BodyView::Book { book },
        ReplyView::Listed { books } => BodyView::Books { books },
        ReplyView::Removed { message } => BodyView::Message { message },
    }
}

/// The response to an operation that ended with `outcome`: under the status
/// `success` with what the operation handed over, or, whatever status the
/// error itself names, under 400 with the error.
pub open spec fn response_to(
    outcome: Result<ReplyView, ErrorDataView>,
    success: u16,
) -> ResponseView {
    match outcome {
        Ok(reply) => ResponseView { status: success, body: reply_body(reply) },
        Err(error) => ResponseView { status: 400, body: BodyView::Error { error } },
    }
}

fn respond(outcome: Result<Reply, ErrorData>, success: u16) -> (response: Response)
    ensures
        response@ == response_to(outcome_view(outcome), success),
{
    match outcome {
        Ok(Reply::Created { id }) => Response { status: success, body: Body::Id { id } },
        Ok(Reply::Fetched { book }) => Response { status: success, body: Body::Book { book } },
        Ok(Reply::Listed { books }) => Response { status: success, body: Body::Books { books } },
        Ok(Reply::Removed { message }) => Response {
            status: success,
            body: Body::Message { message },
        },
        Err(error) => Response { status: 400, body: Body::Error { error } },
    }
}

/// The answer at the root: a word that the service is there.
pub fn it_works() -> (response: Response)
    ensures
        response@ == (ResponseView {
            status: 200,
            body: BodyView::Message { message: "API Rust with Actix Web Works!!!"@ },
        }),
{
    Response {
        status: 200,
        body: Body::Message { message: "API Rust with Actix Web Works!!!".to_owned() },
    }
}

/// The answer to a health check.
pub fn health() -> (response: Response)
    ensures
        response@ == (ResponseView { status: 200, body: BodyView::Health { status: "Ok"@ } }),
{
    Response { status: 200, body: Body::Health { status: "Ok".to_owned() } }
}

/// The response to a request to store a book: 201 with the new key.
pub fn create_book(outcome: Result<Reply, ErrorData>) -> (response: Response)
    ensures
        response@ == response_to(outcome_view(outcome), 201),
{
    respond(outcome, 201)
}

/// The response to a request for one book: 200 with the book.
pub fn get_book_by_id(outcome: Result<Reply, ErrorData>) -> (response: Response)
    ensures
        response@ == response_to(outcome_view(outcome), 200),
{
    respond(outcome, 200)
}

/// The response to a request to rewrite a book: 200 with the book as rewritten.
pub fn update_book_by_id(outcome: Result<Reply, ErrorData>) -> (response: Response)
    ensures
        response@ == response_to(outcome_view(outcome), 200),
{
    respond(outcome, 200)
}

/// The response to a request for the listed books: 200 with the list.
pub fn find_all(outcome: Result<Reply, ErrorData>) -> (response: Response)
    ensures
        response@ == response_to(outcome_view(outcome), 200),
{
    respond(outcome, 200)
}

/// The response to a request to remove a book: 200 with a word that it is gone.
pub fn delete_book_by_id(outcome: Result<Reply, ErrorData>) -> (response: Response)
    ensures
        response@ == response_to(outcome_view(outcome), 200),
{
    respond(outcome, 200)
}

} // verus!
