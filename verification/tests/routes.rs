use book_api::entity::book::Book;
use book_api::entity::book_id::BookId;
use book_api::entity::error_data::ErrorData;
use book_api::entrypoint::routes::{
    create_book, delete_book_by_id, find_all, get_book_by_id, health, it_works, update_book_by_id,
    Body, Response,
};
use book_api::service::book_service::Reply;

fn a_book() -> Book {
    Book {
        id: Some(BookId { bytes: [7; 12] }),
        title: "Dom Casmurro".to_string(),
        author: "Machado de Assis".to_string(),
        pages: 256,
        created_at: 1_700_000_000_000,
        updated_at: 1_700_000_500_000,
        active: true,
    }
}

#[test]
fn it_works_says_so() {
    assert_eq!(
        it_works(),
        Response {
            status: 200,
            body: Body::Message { message: "API Rust with Actix Web Works!!!".to_string() },
        }
    );
}

#[test]
fn health_is_ok() {
    assert_eq!(health(), Response { status: 200, body: Body::Health { status: "Ok".to_string() } });
}

#[test]
fn create_book_answers_201_with_the_key() {
    let response = create_book(Ok(Reply::Created { id: BookId { bytes: [7; 12] } }));
    assert_eq!(
        response,
        Response { status: 201, body: Body::Id { id: BookId { bytes: [7; 12] } } }
    );
}

#[test]
fn create_book_answers_400_to_a_payload_turned_down() {
    let response = create_book(Err(ErrorData::invalid_parameters()));
    assert_eq!(
        response,
        Response {
            status: 400,
            body: Body::Error {
                error: ErrorData { message: "Parametros inválidos".to_string(), status: 400 },
            },
        }
    );
}

#[test]
fn get_book_by_id_answers_200_with_the_book() {
    let response = get_book_by_id(Ok(Reply::Fetched { book: a_book() }));
    assert_eq!(response, Response { status: 200, body: Body::Book { book: a_book() } });
}

#[test]
fn update_book_by_id_answers_200_with_the_book() {
    let response = update_book_by_id(Ok(Reply::Fetched { book: a_book() }));
    assert_eq!(response, Response { status: 200, body: Body::Book { book: a_book() } });
}

#[test]
fn find_all_answers_200_with_the_list() {
    let response = find_all(Ok(Reply::Listed { books: vec![a_book(), a_book()] }));
    assert_eq!(
        response,
        Response { status: 200, body: Body::Books { books: vec![a_book(), a_book()] } }
    );
    let response = find_all(Ok(Reply::Listed { books: vec![] }));
    assert_eq!(response, Response { status: 200, body: Body::Books { books: vec![] } });
}

#[test]
fn delete_book_by_id_answers_200_with_the_word() {
    let response =
        delete_book_by_id(Ok(Reply::Removed { message: "Livro removido com sucesso".to_string() }));
    assert_eq!(
        response,
        Response {
            status: 200,
            body: Body::Message { message: "Livro removido com sucesso".to_string() },
        }
    );
}

#[test]
fn an_error_tagged_502_still_goes_out_under_400() {
    let failure = || ErrorData::upstream_failure("no reachable servers".to_string());
    let body = || Body::Error {
        error: ErrorData { message: "no reachable servers".to_string(), status: 502 },
    };
    assert_eq!(create_book(Err(failure())), Response { status: 400, body: body() });
    assert_eq!(get_book_by_id(Err(failure())), Response { status: 400, body: body() });
    assert_eq!(update_book_by_id(Err(failure())), Response { status: 400, body: body() });
    assert_eq!(find_all(Err(failure())), Response { status: 400, body: body() });
    assert_eq!(delete_book_by_id(Err(failure())), Response { status: 400, body: body() });
}

#[test]
fn the_status_of_success_goes_by_the_route() {
    let reply = || Reply::Fetched { book: a_book() };
    assert_eq!(create_book(Ok(reply())).status, 201);
    assert_eq!(get_book_by_id(Ok(reply())).status, 200);
    assert_eq!(delete_book_by_id(Ok(reply())).body, Body::Book { book: a_book() });
}
