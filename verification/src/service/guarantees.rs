use crate::entity::book::{BookView, new_book};
use crate::entity::book_id::{is_key_text, key_bytes};
use crate::entity::create_book::CreateBookView;
use crate::entity::error_data::{delete_failed, not_found, upstream_failure};
use crate::entity::update_book::UpdateBookView;
use crate::repository::document::Field;
use crate::repository::mongo_repo::{
    StoreAnswerView, active_filter, key_filter, title_ascending,
};
use crate::repository::shelf::{Shelf, answers, book_fields, lists, rewrites, selects, text_le};
use crate::service::book_service::{
    ReplyView, StepView, create_step, delete_by_id_step, find_all_actives_step, get_by_id_step,
    granted, missing_book_message, refused, removed_message, resume_step, update_step,
};
use vstd::prelude::*;

verus! {

/// The names of a book's fields are seven different texts.
proof fn lemma_names_differ()
    ensures
        "title"@ != "author"@,
        "title"@ != "pages"@,
        "title"@ != "created_at"@,
        "title"@ != "updated_at"@,
        "title"@ != "active"@,
        "title"@ != "_id"@,
        "author"@ != "pages"@,
        "author"@ != "created_at"@,
        "author"@ != "updated_at"@,
        "author"@ != "active"@,
        "author"@ != "_id"@,
        "pages"@ != "created_at"@,
        "pages"@ != "updated_at"@,
        "pages"@ != "active"@,
        "pages"@ != "_id"@,
        "created_at"@ != "updated_at"@,
        "created_at"@ != "active"@,
        "created_at"@ != "_id"@,
        "updated_at"@ != "active"@,
        "updated_at"@ != "_id"@,
        "active"@ != "_id"@,
{
    reveal_strlit("title");
    reveal_strlit("author");
    reveal_strlit("pages");
    reveal_strlit("created_at");
    reveal_strlit("updated_at");
    reveal_strlit("active");
    reveal_strlit("_id");
    assert("title"@[0] != "pages"@[0]);
    assert("author"@[1] != "active"@[1]);
    assert("created_at"@[0] != "updated_at"@[0]);
}

/// What the document of a book holds under each name.
proof fn lemma_book_fields(book: BookView)
    ensures
        book_fields(book).dom() =~= (if book.id is Some {
            set!["title"@, "author"@, "pages"@, "created_at"@, "updated_at"@, "active"@, "_id"@]
        } else {
            set!["title"@, "author"@, "pages"@, "created_at"@, "updated_at"@, "active"@]
        }),
        book_fields(book)["title"@] == Field::Text(book.title),
        book_fields(book)["author"@] == Field::Text(book.author),
        book_fields(book)["pages"@] == Field::Int64(book.pages),
        book_fields(book)["created_at"@] == Field::Instant(book.created_at),
        book_fields(book)["updated_at"@] == Field::Instant(book.updated_at),
        book_fields(book)["active"@] == Field::Flag(book.active),
        book.id matches Some(key) ==> book_fields(book)["_id"@] == Field::Key(key),
{
    lemma_names_differ();
}

/// Two books with the same document are the same book.
proof fn lemma_book_fields_injective(one: BookView, other: BookView)
    requires
        book_fields(one) == book_fields(other),
    ensures
        one == other,
{
    lemma_names_differ();
    lemma_book_fields(one);
    lemma_book_fields(other);
    assert(book_fields(one).contains_key("_id"@) <==> one.id is Some);
    assert(book_fields(other).contains_key("_id"@) <==> other.id is Some);
}

/// A filter by key selects the books that carry the key, and no others.
proof fn lemma_key_filter_selects(key: Seq<u8>, book: BookView)
    ensures
        selects(key_filter(key), book) <==> book.id == Some(key),
{
    lemma_book_fields(book);
    assert(key_filter(key).dom().contains("_id"@));
    if selects(key_filter(key), book) {
        assert(book_fields(book).dom().contains("_id"@));
        assert(key_filter(key)["_id"@] == book_fields(book)["_id"@]);
    }
}

/// On a shelf in order, a filter by key selects the book under the key where
/// there is one, and nothing where there is none.
proof fn lemma_key_filter_on_shelf(shelf: Shelf, key: Seq<u8>)
    requires
        shelf.wf(),
    ensures
        forall|book: BookView|
            shelf.holds(book) && #[trigger] selects(key_filter(key), book) ==> {
                &&& shelf.books.contains_key(key)
                &&& shelf.books[key] == book
            },
        shelf.books.contains_key(key) ==> selects(key_filter(key), shelf.books[key]),
        forall|other: Seq<u8>|
            shelf.books.contains_key(other) && selects(
                key_filter(key),
                #[trigger] shelf.books[other],
            ) ==> other == key,
{
    assert forall|book: BookView|
        shelf.holds(book) && #[trigger] selects(key_filter(key), book) implies {
        &&& shelf.books.contains_key(key)
        &&& shelf.books[key] == book
    } by {
        lemma_key_filter_selects(key, book);
        let held = choose|held: Seq<u8>|
            shelf.books.contains_key(held) && #[trigger] shelf.books[held] == book;
        assert(shelf.books[held].id == Some(held));
    }
    if shelf.books.contains_key(key) {
        lemma_key_filter_selects(key, shelf.books[key]);
    }
    assert forall|other: Seq<u8>|
        shelf.books.contains_key(other) && selects(
            key_filter(key),
            #[trigger] shelf.books[other],
        ) implies other == key by {
        lemma_key_filter_selects(key, shelf.books[other]);
    }
}

/// A book that was stored can be fetched under the key that the store gave it,
/// and comes back as it was sent: with the title, the author and the pages of
/// the payload, listed, and created and last written at the same moment.
///
/// Here `id` is the written form of the key that the store reported, `now` the
/// moment of creation, and the two answers are those of a store that works.
pub proof fn lemma_created_book_can_be_fetched(
    shelf: Shelf,
    payload: CreateBookView,
    now: i64,
    inserted: StoreAnswerView,
    stocked: Shelf,
    id: Seq<char>,
    found: StoreAnswerView,
    after: Shelf,
    later: i64,
)
    requires
        shelf.wf(),
        payload.is_complete(),
        answers(shelf, create_step(payload, now)->call, inserted, stocked),
        is_key_text(id),
        inserted == (StoreAnswerView::Inserted { id: Some(key_bytes(id)) }),
        answers(stocked, get_by_id_step(id)->call, found, after),
    ensures
        create_step(payload, now) is Call,
        resume_step(create_step(payload, now)->pending, inserted, later) == granted(
            ReplyView::Created { id: key_bytes(id) },
        ),
        get_by_id_step(id) is Call,
        resume_step(get_by_id_step(id)->pending, found, later) == granted(
            ReplyView::Fetched {
                book: BookView {
                    id: Some(key_bytes(id)),
                    title: payload.title->0,
                    author: payload.author->0,
                    pages: payload.pages->0,
                    created_at: now,
                    updated_at: now,
                    active: true,
                },
            },
        ),
        after == stocked,
        stocked.wf(),
{
    let key = key_bytes(id);
    let book = BookView {
        id: Some(key),
        ..new_book(payload.title->0, payload.author->0, payload.pages->0, now)
    };
    assert(stocked.books == shelf.books.insert(key, book));
    assert(stocked.wf());
    lemma_key_filter_on_shelf(stocked, key);
}

/// Rewriting a book that the store holds puts the title, the author and the
/// pages of the payload in their places, leaves the key and the moment of
/// creation as they were, sets the moment of writing to `now`, and lists the
/// book; the book that the operation hands back is the one that the store
/// holds from then on, and no other book has changed.
///
/// Where the clock has not gone back behind the last writing, the moment of
/// writing has not gone back either and the book is in order.
pub proof fn lemma_update_rewrites_book(
    shelf: Shelf,
    id: Seq<char>,
    payload: UpdateBookView,
    found: StoreAnswerView,
    fetched: Shelf,
    now: i64,
    written: StoreAnswerView,
    updated: Shelf,
    later: i64,
    refound: StoreAnswerView,
    after: Shelf,
    last: i64,
)
    requires
        shelf.wf(),
        payload.is_complete(),
        is_key_text(id),
        shelf.books.contains_key(key_bytes(id)),
        ({
            let first = update_step(id, payload);
            let second = resume_step(first->pending, found, now);
            let third = resume_step(second->pending, written, later);
            &&& answers(shelf, first->call, found, fetched)
            &&& answers(fetched, second->call, written, updated)
            &&& answers(updated, third->call, refound, after)
        }),
    ensures
        ({
            let first = update_step(id, payload);
            let second = resume_step(first->pending, found, now);
            let third = resume_step(second->pending, written, later);
            let before = shelf.books[key_bytes(id)];
            let rewritten = BookView {
                id: before.id,
                title: payload.title->0,
                author: payload.author->0,
                pages: payload.pages->0,
                created_at: before.created_at,
                updated_at: now,
                active: true,
            };
            &&& first is Call
            &&& second is Call
            &&& third is Call
            &&& resume_step(third->pending, refound, last) == granted(
                ReplyView::Fetched { book: rewritten },
            )
            &&& after.books == shelf.books.insert(key_bytes(id), rewritten)
            &&& after.wf()
            &&& before.updated_at <= now ==> before.updated_at <= rewritten.updated_at
            &&& before.wf() && before.updated_at <= now ==> rewritten.wf()
        }),
{
    let key = key_bytes(id);
    let first = update_step(id, payload);
    let second = resume_step(first->pending, found, now);
    let before = shelf.books[key];
    let rewritten = BookView {
        id: before.id,
        title: payload.title->0,
        author: payload.author->0,
        pages: payload.pages->0,
        created_at: before.created_at,
        updated_at: now,
        active: true,
    };
    lemma_key_filter_on_shelf(shelf, key);
    assert(found == StoreAnswerView::Found { book: Some(before) });
    assert(fetched == shelf);
    assert(second is Call);
    assert(written matches StoreAnswerView::Updated { matched_count } && matched_count == 1);
    let changed = choose|changed: Seq<u8>|
        {
            &&& fetched.books.contains_key(changed)
            &&& selects(key_filter(key), fetched.books[changed])
            &&& rewrites(
                second->call->update,
                fetched.books[changed],
                #[trigger] updated.books[changed],
            )
            &&& updated.books == fetched.books.insert(changed, updated.books[changed])
        };
    assert(changed == key);
    lemma_names_differ();
    lemma_book_fields(before);
    lemma_book_fields(rewritten);
    reveal_strlit("$set");
    assert(book_fields(rewritten) =~= book_fields(updated.books[key]));
    lemma_book_fields_injective(rewritten, updated.books[key]);
    assert(updated.books == shelf.books.insert(key, rewritten));
    assert(updated.wf());
    lemma_key_filter_on_shelf(updated, key);
}

/// Rewriting under a key that the store holds no book under is turned down:
/// the book was not found. The store is left as it was.
pub proof fn lemma_update_of_missing_book_is_not_found(
    shelf: Shelf,
    id: Seq<char>,
    payload: UpdateBookView,
    found: StoreAnswerView,
    after: Shelf,
    now: i64,
)
    requires
        shelf.wf(),
        payload.is_complete(),
        is_key_text(id),
        !shelf.books.contains_key(key_bytes(id)),
        answers(shelf, update_step(id, payload)->call, found, after),
    ensures
        update_step(id, payload) is Call,
        resume_step(update_step(id, payload)->pending, found, now) == refused(not_found()),
        after == shelf,
{
    lemma_key_filter_on_shelf(shelf, key_bytes(id));
}

/// A filter for listed books selects the books that are listed, and no others.
proof fn lemma_active_filter_selects(book: BookView)
    ensures
        selects(active_filter(), book) <==> book.active,
{
    lemma_book_fields(book);
    assert(active_filter().dom().contains("active"@));
    assert(book_fields(book).dom().contains("active"@));
    if selects(active_filter(), book) {
        assert(active_filter()["active"@] == book_fields(book)["active"@]);
    }
}

/// A listing holds every book of the store that is listed, once, and no other
/// book; and it is in the order of the titles, ascending.
pub proof fn lemma_listing_is_active_and_sorted(
    shelf: Shelf,
    listed: StoreAnswerView,
    after: Shelf,
    now: i64,
)
    requires
        shelf.wf(),
        answers(shelf, find_all_actives_step()->call, listed, after),
    ensures
        find_all_actives_step() is Call,
        resume_step(find_all_actives_step()->pending, listed, now) matches StepView::Done {
            outcome: Ok(ReplyView::Listed { books }),
        } && {
            &&& forall|i: int|
                0 <= i < books.len() ==> shelf.holds(#[trigger] books[i]) && books[i].active
            &&& forall|key: Seq<u8>|
                shelf.books.contains_key(key) && (#[trigger] shelf.books[key]).active
                    ==> books.contains(shelf.books[key])
            &&& forall|i: int, j: int|
                0 <= i < j < books.len() ==> #[trigger] books[i] != #[trigger] books[j]
            &&& forall|i: int, j: int|
                0 <= i <= j < books.len() ==> text_le(
                    (#[trigger] books[i]).title,
                    (#[trigger] books[j]).title,
                )
        },
        after == shelf,
{
    let books = listed->books;
    assert(lists(shelf, active_filter(), title_ascending(), books));
    assert forall|i: int| 0 <= i < books.len() implies shelf.holds(#[trigger] books[i])
        && books[i].active by {
        lemma_active_filter_selects(books[i]);
    }
    assert forall|key: Seq<u8>|
        shelf.books.contains_key(key) && (#[trigger] shelf.books[key]).active
        implies books.contains(shelf.books[key]) by {
        lemma_active_filter_selects(shelf.books[key]);
    }
}

/// Removing a book that the store holds succeeds and takes that book, and no
/// other, from the store; fetching it afterwards is turned down, the store
/// having no such book.
pub proof fn lemma_deleted_book_is_gone(
    shelf: Shelf,
    id: Seq<char>,
    removed: StoreAnswerView,
    cleared: Shelf,
    found: StoreAnswerView,
    after: Shelf,
    now: i64,
)
    requires
        shelf.wf(),
        is_key_text(id),
        shelf.books.contains_key(key_bytes(id)),
        answers(shelf, delete_by_id_step(id)->call, removed, cleared),
        answers(cleared, get_by_id_step(id)->call, found, after),
    ensures
        delete_by_id_step(id) is Call,
        resume_step(delete_by_id_step(id)->pending, removed, now) == granted(
            ReplyView::Removed { message: removed_message() },
        ),
        cleared.books == shelf.books.remove(key_bytes(id)),
        cleared.wf(),
        get_by_id_step(id) is Call,
        resume_step(get_by_id_step(id)->pending, found, now) == refused(
            upstream_failure(missing_book_message()),
        ),
        after == cleared,
{
    let key = key_bytes(id);
    lemma_key_filter_on_shelf(shelf, key);
    assert(removed matches StoreAnswerView::Deleted { deleted_count } && deleted_count == 1);
    assert(cleared.books == shelf.books.remove(key));
    assert(cleared.wf());
    lemma_key_filter_on_shelf(cleared, key);
}

/// Removing under a key that the store holds no book under is turned down,
/// and the store is left as it was.
pub proof fn lemma_delete_of_missing_book_fails(
    shelf: Shelf,
    id: Seq<char>,
    removed: StoreAnswerView,
    after: Shelf,
    now: i64,
)
    requires
        shelf.wf(),
        is_key_text(id),
        !shelf.books.contains_key(key_bytes(id)),
        answers(shelf, delete_by_id_step(id)->call, removed, after),
    ensures
        delete_by_id_step(id) is Call,
        resume_step(delete_by_id_step(id)->pending, removed, now) == refused(delete_failed()),
        after == shelf,
{
    lemma_key_filter_on_shelf(shelf, key_bytes(id));
}

} // verus!
