//! The request handlers for books.
//!
//! A handler checks what the request carries, asks the repository at most
//! once, and turns what the repository returns into a response. It keeps no
//! state and tries nothing twice.

use vstd::prelude::*;
use vstd::string::StringExecFns;
use crate::controller::{
    Body,
    BodyView,
    Response,
    ResponseView,
    BAD_REQUEST,
    INTERNAL_SERVER_ERROR,
    NOT_FOUND,
    NO_CONTENT,
    OK,
};
use crate::model::{id_text_rejection, parse_object_id, parsed_id, Book, BookId};
use crate::repository::{
    delete_one_outcome,
    find_all_outcome,
    find_one_outcome,
    store_outcome,
    update_outcome,
    values_of,
    Repository,
    RepositoryError,
};

verus! {

/// The answer to a request that is itself at fault: the message goes to the
/// caller.
pub open spec fn bad_request(message: Seq<char>) -> ResponseView {
    ResponseView { status: 400, body: BodyView::Message(message), logged: None }
}

/// The answer where no record is held under the identifier asked for.
pub open spec fn not_found() -> ResponseView {
    ResponseView { status: 404, body: BodyView::Empty, logged: None }
}

/// The answer to a failed repository operation. A missing target is an
/// absence; anything else is the server's fault, is logged in full and is not
/// told to the caller.
pub open spec fn failure(error: RepositoryError) -> ResponseView {
    match error {
        RepositoryError::TargetNotFound => not_found(),
        _ => ResponseView {
            status: 500,
            body: BodyView::Empty,
            logged: Some(error.description()),
        },
    }
}

/// The answer to a listing, from what the repository returned.
pub open spec fn listing_response(r: Result<Vec<Book>, RepositoryError>) -> ResponseView {
    match r {
        Ok(books) => ResponseView {
            status: 200,
            body: BodyView::Books(values_of(books@)),
            logged: None,
        },
        Err(error) => failure(error),
    }
}

/// The answer to a lookup, from what the repository returned.
pub open spec fn lookup_response(r: Result<Option<Book>, RepositoryError>) -> ResponseView {
    match r {
        Ok(Some(book)) => ResponseView {
            status: 200,
            body: BodyView::Book(book@),
            logged: None,
        },
        Ok(None) => not_found(),
        Err(error) => failure(error),
    }
}

/// The answer to a create or an update, from what the repository returned.
pub open spec fn entity_response(r: Result<Book, RepositoryError>) -> ResponseView {
    match r {
        Ok(book) => ResponseView { status: 200, body: BodyView::Book(book@), logged: None },
        Err(error) => failure(error),
    }
}

/// The answer to a delete, from what the repository returned.
pub open spec fn removal_response(r: Result<(), RepositoryError>) -> ResponseView {
    match r {
        Ok(_) => ResponseView { status: 204, body: BodyView::Empty, logged: None },
        Err(error) => failure(error),
    }
}

/// Answers a request that is itself at fault.
pub fn respond_bad_request(message: String) -> (resp: Response)
    ensures
        resp@ == bad_request(message@),
{
    Response { status: BAD_REQUEST, body: Body::Message(message), logged: None }
}

/// Answers a failed repository operation.
pub fn respond_failure(error: RepositoryError) -> (resp: Response)
    ensures
        resp@ == failure(error),
{
    match error {
        RepositoryError::TargetNotFound => Response {
            status: NOT_FOUND,
            body: Body::Empty,
            logged: None,
        },
        _ => Response {
            status: INTERNAL_SERVER_ERROR,
            body: Body::Empty,
            logged: Some(error.to_string()),
        },
    }
}

/// Answers a listing with what the repository returned.
pub fn respond_listing(result: Result<Vec<Book>, RepositoryError>) -> (resp: Response)
    ensures
        resp@ == listing_response(result),
{
    match result {
        Ok(books) => Response { status: OK, body: Body::Books(books), logged: None },
        Err(error) => respond_failure(error),
    }
}

/// Answers a lookup with what the repository returned.
pub fn respond_lookup(result: Result<Option<Book>, RepositoryError>) -> (resp: Response)
    ensures
        resp@ == lookup_response(result),
{
    match result {
        Ok(Some(book)) => Response { status: OK, body: Body::Book(book), logged: None },
        Ok(None) => Response { status: NOT_FOUND, body: Body::Empty, logged: None },
        Err(error) => respond_failure(error),
    }
}

/// Answers a create or an update with what the repository returned.
pub fn respond_entity(result: Result<Book, RepositoryError>) -> (resp: Response)
    ensures
        resp@ == entity_response(result),
{
    match result {
        Ok(book) => Response { status: OK, body: Body::Book(book), logged: None },
        Err(error) => respond_failure(error),
    }
}

/// Answers a delete with what the repository returned.
pub fn respond_removal(result: Result<(), RepositoryError>) -> (resp: Response)
    ensures
        resp@ == removal_response(result),
{
    match result {
        Ok(_) => Response { status: NO_CONTENT, body: Body::Empty, logged: None },
        Err(error) => respond_failure(error),
    }
}

/// Lists every book.
///
/// The response is what `respond_listing` makes of an outcome that the
/// repository contract allows for `find_all`.
pub fn fetch_all<R: Repository<Book, BookId>>(repo: &R) -> (resp: Response)
    ensures
        exists|r: Result<Vec<Book>, RepositoryError>|
            #[trigger] find_all_outcome::<Book, BookId>(repo.records(), r) && resp@
                == listing_response(r),
{
    let result = repo.find_all();
    let ghost outcome = result;
    let resp = respond_listing(result);
    assert(find_all_outcome::<Book, BookId>(repo.records(), outcome));
    resp
}

/// Looks up the book that the path names.
///
/// A path that writes no identifier is answered with the parser's message,
/// and the repository is not asked. Otherwise the response is what
/// `respond_lookup` makes of an outcome that the contract allows for
/// `find_one`.
pub fn fetch_one<R: Repository<Book, BookId>>(repo: &R, book_id: &str) -> (resp: Response)
    ensures
        match parsed_id(book_id@) {
            None => resp@ == bad_request(id_text_rejection(book_id@)),
            Some(id) => exists|r: Result<Option<Book>, RepositoryError>|
                #[trigger] find_one_outcome::<Book, BookId>(repo.records(), id, r) && resp@
                    == lookup_response(r),
        },
{
    let id = match parse_object_id(book_id) {
        Err(message) => {
            return respond_bad_request(message);
        },
        Ok(id) => id,
    };
    let result = repo.find_one(id);
    let ghost outcome = result;
    let resp = respond_lookup(result);
    assert(find_one_outcome::<Book, BookId>(repo.records(), parsed_id(book_id@).unwrap(), outcome));
    resp
}

/// Persists a new book.
///
/// The response is what `respond_entity` makes of an outcome that the
/// contract allows for `store`.
pub fn store<R: Repository<Book, BookId>>(repo: &mut R, book: Book) -> (resp: Response)
    ensures
        exists|r: Result<Book, RepositoryError>|
            #[trigger] store_outcome::<Book, BookId>(
                old(repo).records(),
                book@,
                r,
                final(repo).records(),
            ) && resp@ == entity_response(r),
{
    let ghost before = repo.records();
    let ghost entity = book@;
    let result = repo.store(book);
    let ghost outcome = result;
    let resp = respond_entity(result);
    assert(store_outcome::<Book, BookId>(before, entity, outcome, repo.records()));
    resp
}

/// Replaces the book that the path names with `book`.
///
/// A path that writes no identifier is answered with the parser's message. A
/// book that does not carry the identifier of the path is answered with a
/// fixed message. In both cases the repository is not asked. Otherwise the
/// response is what `respond_entity` makes of an outcome that the contract
/// allows for `update`.
pub fn update<R: Repository<Book, BookId>>(repo: &mut R, book_id: &str, book: Book) -> (resp:
    Response)
    ensures
        match parsed_id(book_id@) {
            None => {
                &&& resp@ == bad_request(id_text_rejection(book_id@))
                &&& final(repo).records() == old(repo).records()
            },
            Some(id) => if book@.id != Some(id) {
                &&& resp@ == bad_request("resource id mismatch"@)
                &&& final(repo).records() == old(repo).records()
            } else {
                exists|r: Result<Book, RepositoryError>|
                    #[trigger] update_outcome::<Book, BookId>(
                        old(repo).records(),
                        book@,
                        r,
                        final(repo).records(),
                    ) && resp@ == entity_response(r)
            },
        },
{
    let id = match parse_object_id(book_id) {
        Err(message) => {
            return respond_bad_request(message);
        },
        Ok(id) => id,
    };
    let matches = match book.id {
        Some(carried) => carried == id,
        None => false,
    };
    if !matches {
        return respond_bad_request(String::from_str("resource id mismatch"));
    }
    let ghost before = repo.records();
    let ghost entity = book@;
    let result = repo.update(book);
    let ghost outcome = result;
    let resp = respond_entity(result);
    assert(update_outcome::<Book, BookId>(before, entity, outcome, repo.records()));
    resp
}

/// Removes the book that the path names.
///
/// A path that writes no identifier is answered with the parser's message,
/// and the repository is not asked. Otherwise the response is what
/// `respond_removal` makes of an outcome that the contract allows for
/// `delete_one`.
pub fn delete<R: Repository<Book, BookId>>(repo: &mut R, book_id: &str) -> (resp: Response)
    ensures
        match parsed_id(book_id@) {
            None => {
                &&& resp@ == bad_request(id_text_rejection(book_id@))
                &&& final(repo).records() == old(repo).records()
            },
            Some(id) => exists|r: Result<(), RepositoryError>|
                #[trigger] delete_one_outcome::<Book, BookId>(
                    old(repo).records(),
                    id,
                    r,
                    final(repo).records(),
                ) && resp@ == removal_response(r),
        },
{
    let id = match parse_object_id(book_id) {
        Err(message) => {
            return respond_bad_request(message);
        },
        Ok(id) => id,
    };
    let ghost before = repo.records();
    let result = repo.delete_one(id);
    let ghost outcome = result;
    let resp = respond_removal(result);
    assert(delete_one_outcome::<Book, BookId>(
        before,
        parsed_id(book_id@).unwrap(),
        outcome,
        repo.records(),
    ));
    resp
}

} // verus!
