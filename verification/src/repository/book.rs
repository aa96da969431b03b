//! How the acknowledgments of a document store become results of the
//! repository contract for books.

use vstd::prelude::*;
use crate::model::{Book, BookId, Model};
use crate::repository::RepositoryError;

verus! {

/// The error type of the document store's driver. Nothing of its inside is
/// visible here: it is only carried to where its message is taken.
#[verifier::external_type_specification]
#[verifier::external_body]
pub struct ExEngineError(mongodb::error::Error);

impl RepositoryError {
    /// The failure that stands for an engine-level error with the message
    /// `message`, which is kept as it is.
    pub fn generic(message: String) -> (e: RepositoryError)
        ensures
            e == RepositoryError::Generic(message),
    {
        RepositoryError::Generic(message)
    }

    /// Wraps an error of the engine's driver. Its type does not pass this
    /// point: what is kept is its message, a text as which the error renders
    /// itself. Which text that is stays open: the driver lists an error's
    /// labels in the order in which a hash set happens to hold them.
    pub fn from(error: mongodb::error::Error) -> (e: RepositoryError)
        ensures
            e matches RepositoryError::Generic(message)
                && vstd::string::to_string_from_display_ensures::<mongodb::error::Error>(
                &error,
                message,
            ),
    {
        RepositoryError::generic(error.to_string())
    }
}

/// The identifier under which the engine says it inserted a document.
#[derive(Debug, PartialEq, Eq)]
pub enum InsertedId {
    /// An object identifier, the only kind that this store hands out for books.
    ObjectId(BookId),
    /// A value of any other kind.
    Other,
}

/// What the engine acknowledges after a match-then-replace.
#[derive(Debug, PartialEq, Eq)]
pub struct UpdateAcknowledgment {
    /// How many documents the filter matched.
    pub matched_count: u64,
    /// How many documents the operation changed.
    pub modified_count: u64,
}

/// What the engine acknowledges after a delete by identifier.
#[derive(Debug, PartialEq, Eq)]
pub struct DeleteAcknowledgment {
    /// How many documents were deleted.
    pub deleted_count: u64,
}

/// The identifier that an update addresses, or `MissingIdentifier` where the
/// book carries none. It is asked before the engine is.
pub fn require_identifier(book: &Book) -> (r: Result<BookId, RepositoryError>)
    ensures
        match book@.id {
            Some(id) => r matches Ok(found) && found@ == id,
            None => r == Err::<BookId, RepositoryError>(RepositoryError::MissingIdentifier),
        },
{
    match book.id {
        Some(id) => Ok(id),
        None => Err(RepositoryError::MissingIdentifier),
    }
}

/// The book as persisted: `book` under the identifier that the engine
/// assigned, whatever identifier `book` carried.
///
/// An acknowledgment that names anything but an object identifier is a defect
/// of the engine, not an outcome: callers rule it out.
pub fn stored(book: Book, inserted: InsertedId) -> (saved: Book)
    requires
        inserted is ObjectId,
    ensures
        saved@ == Book::identified(book@, inserted->ObjectId_0@),
{
    match inserted {
        InsertedId::ObjectId(id) => book.with_id(id),
        InsertedId::Other => vstd::pervasive::unreached(),
    }
}

/// The result of an update from the engine's acknowledgment: the book as it
/// was given where the filter matched a document, `TargetNotFound` where it
/// matched none. A replace that changed nothing is a success like any other:
/// the count of modified documents is not asked.
pub fn updated(book: Book, ack: &UpdateAcknowledgment) -> (r: Result<Book, RepositoryError>)
    ensures
        ack.matched_count > 0 ==> r == Ok::<Book, RepositoryError>(book),
        ack.matched_count == 0 ==> r == Err::<Book, RepositoryError>(
            RepositoryError::TargetNotFound,
        ),
{
    if ack.matched_count > 0 {
        Ok(book)
    } else {
        Err(RepositoryError::TargetNotFound)
    }
}

/// The result of a delete from the engine's acknowledgment: success where a
/// document was deleted, `TargetNotFound` where none was.
pub fn deleted(ack: &DeleteAcknowledgment) -> (r: Result<(), RepositoryError>)
    ensures
        ack.deleted_count > 0 ==> r == Ok::<(), RepositoryError>(()),
        ack.deleted_count == 0 ==> r == Err::<(), RepositoryError>(
            RepositoryError::TargetNotFound,
        ),
{
    if ack.deleted_count > 0 {
        Ok(())
    } else {
        Err(RepositoryError::TargetNotFound)
    }
}

} // verus!
