use bookshelf::model::{Book, BookId};
use bookshelf::repository::book::{
    deleted, require_identifier, stored, updated, DeleteAcknowledgment, InsertedId,
    UpdateAcknowledgment,
};
use bookshelf::repository::RepositoryError;

fn id(last: u8) -> BookId {
    BookId { bytes: [9, 9, 9, 9, 0, 0, 0, 0, 0, 0, 0, last] }
}

fn dune() -> Book {
    Book::new(String::from("Dune"), String::from("Herbert"), 1965)
}

#[test]
fn a_book_without_identifier_cannot_be_updated() {
    assert_eq!(require_identifier(&dune()), Err(RepositoryError::MissingIdentifier));
}

#[test]
fn a_book_with_identifier_names_its_target() {
    assert_eq!(require_identifier(&dune().with_id(id(5))), Ok(id(5)));
}

#[test]
fn stored_book_carries_the_assigned_identifier() {
    let saved = stored(dune(), InsertedId::ObjectId(id(1)));
    assert_eq!(saved, dune().with_id(id(1)));
}

#[test]
fn stored_book_loses_the_identifier_it_came_with() {
    let saved = stored(dune().with_id(id(8)), InsertedId::ObjectId(id(1)));
    assert_eq!(saved.id, Some(id(1)));
    assert_eq!(saved.title, "Dune");
    assert_eq!(saved.author, "Herbert");
    assert_eq!(saved.year, 1965);
}

#[test]
fn a_matched_update_returns_the_book_as_given() {
    let ack = UpdateAcknowledgment { matched_count: 1, modified_count: 1 };
    assert_eq!(updated(dune().with_id(id(2)), &ack), Ok(dune().with_id(id(2))));
}

#[test]
fn an_update_that_changed_nothing_is_a_success() {
    let ack = UpdateAcknowledgment { matched_count: 1, modified_count: 0 };
    assert_eq!(updated(dune().with_id(id(2)), &ack), Ok(dune().with_id(id(2))));
}

#[test]
fn an_update_that_matched_nothing_is_not_found() {
    let ack = UpdateAcknowledgment { matched_count: 0, modified_count: 0 };
    assert_eq!(updated(dune().with_id(id(2)), &ack), Err(RepositoryError::TargetNotFound));
}

#[test]
fn the_modified_count_alone_decides_nothing() {
    let ack = UpdateAcknowledgment { matched_count: 0, modified_count: 1 };
    assert_eq!(updated(dune().with_id(id(2)), &ack), Err(RepositoryError::TargetNotFound));
}

#[test]
fn a_delete_that_removed_a_document_succeeds() {
    assert_eq!(deleted(&DeleteAcknowledgment { deleted_count: 1 }), Ok(()));
    assert_eq!(deleted(&DeleteAcknowledgment { deleted_count: u64::MAX }), Ok(()));
}

#[test]
fn a_delete_that_removed_nothing_is_not_found() {
    assert_eq!(
        deleted(&DeleteAcknowledgment { deleted_count: 0 }),
        Err(RepositoryError::TargetNotFound)
    );
}
