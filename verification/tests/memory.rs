use bookshelf::model::{Book, BookId};
use bookshelf::repository::memory::MemoryBookRepository;
use bookshelf::repository::{Repository, RepositoryError};

fn dune() -> Book {
    Book::new(String::from("Dune"), String::from("Herbert"), 1965)
}

fn emma() -> Book {
    Book::new(String::from("Emma"), String::from("Austen"), 1815)
}

fn unknown() -> BookId {
    BookId { bytes: [255; 12] }
}

#[test]
fn a_new_repository_holds_nothing() {
    let repo = MemoryBookRepository::new();
    assert_eq!(repo.find_all(), Ok(vec![]));
    assert_eq!(repo.find_one(unknown()), Ok(None));
}

#[test]
fn a_stored_book_gets_an_identifier_and_keeps_its_fields() {
    let mut repo = MemoryBookRepository::new();
    let saved = repo.store(dune()).unwrap();
    assert!(saved.id.is_some());
    assert_eq!(saved.title, "Dune");
    assert_eq!(saved.author, "Herbert");
    assert_eq!(saved.year, 1965);
}

#[test]
fn a_stored_book_is_found_again() {
    let mut repo = MemoryBookRepository::new();
    let saved = repo.store(dune()).unwrap();
    assert_eq!(repo.find_one(saved.id.unwrap()), Ok(Some(saved)));
}

#[test]
fn the_first_identifier_writes_zero() {
    let mut repo = MemoryBookRepository::new();
    let saved = repo.store(dune()).unwrap();
    assert_eq!(saved.id, Some(BookId { bytes: [0; 12] }));
    let next = repo.store(emma()).unwrap();
    assert_eq!(next.id, Some(BookId { bytes: [0, 0, 0, 0, 0, 0, 0, 0, 0, 0, 0, 1] }));
}

#[test]
fn identifiers_carry_into_the_next_byte() {
    let mut repo = MemoryBookRepository::new();
    let mut last = None;
    for _ in 0..258 {
        last = repo.store(dune()).unwrap().id;
    }
    assert_eq!(last, Some(BookId { bytes: [0, 0, 0, 0, 0, 0, 0, 0, 0, 0, 1, 1] }));
    assert_eq!(repo.find_all().unwrap().len(), 258);
}

#[test]
fn store_ignores_the_identifier_given() {
    let mut repo = MemoryBookRepository::new();
    let saved = repo.store(dune().with_id(unknown())).unwrap();
    assert_ne!(saved.id, Some(unknown()));
    assert_eq!(repo.find_one(unknown()), Ok(None));
    assert_eq!(repo.find_one(saved.id.unwrap()), Ok(Some(saved)));
}

#[test]
fn update_without_identifier_is_refused() {
    let mut repo = MemoryBookRepository::new();
    repo.store(dune()).unwrap();
    assert_eq!(repo.update(dune()), Err(RepositoryError::MissingIdentifier));
    assert_eq!(repo.find_all().unwrap().len(), 1);
}

#[test]
fn an_absent_identifier_is_not_found() {
    let mut repo = MemoryBookRepository::new();
    repo.store(dune()).unwrap();
    assert_eq!(repo.find_one(unknown()), Ok(None));
    assert_eq!(repo.update(emma().with_id(unknown())), Err(RepositoryError::TargetNotFound));
    assert_eq!(repo.delete_one(unknown()), Err(RepositoryError::TargetNotFound));
    assert_eq!(repo.find_all().unwrap().len(), 1);
}

#[test]
fn update_replaces_every_field_but_the_identifier() {
    let mut repo = MemoryBookRepository::new();
    let saved = repo.store(dune()).unwrap();
    let id = saved.id.unwrap();
    let changed = emma().with_id(id);
    assert_eq!(repo.update(changed.clone()), Ok(changed.clone()));
    assert_eq!(repo.find_one(id), Ok(Some(changed)));
    assert_eq!(repo.find_all().unwrap().len(), 1);
}

#[test]
fn an_update_to_the_same_values_succeeds() {
    let mut repo = MemoryBookRepository::new();
    let saved = repo.store(dune()).unwrap();
    assert_eq!(repo.update(saved.clone()), Ok(saved.clone()));
    assert_eq!(repo.update(saved.clone()), Ok(saved));
}

#[test]
fn a_second_delete_fails() {
    let mut repo = MemoryBookRepository::new();
    let id = repo.store(dune()).unwrap().id.unwrap();
    assert_eq!(repo.delete_one(id), Ok(()));
    assert_eq!(repo.delete_one(id), Err(RepositoryError::TargetNotFound));
    assert_eq!(repo.find_one(id), Ok(None));
}

#[test]
fn delete_leaves_the_other_records() {
    let mut repo = MemoryBookRepository::new();
    let first = repo.store(dune()).unwrap();
    let second = repo.store(emma()).unwrap();
    assert_eq!(repo.delete_one(first.id.unwrap()), Ok(()));
    assert_eq!(repo.find_all(), Ok(vec![second.clone()]));
    assert_eq!(repo.find_one(second.id.unwrap()), Ok(Some(second)));
}

#[test]
fn two_stored_books_are_both_listed() {
    let mut repo = MemoryBookRepository::new();
    let first = repo.store(dune()).unwrap();
    let second = repo.store(emma()).unwrap();
    assert_ne!(first.id, second.id);
    let all = repo.find_all().unwrap();
    assert_eq!(all.len(), 2);
    assert!(all.contains(&first));
    assert!(all.contains(&second));
}

#[test]
fn two_stored_books_are_both_listed_in_the_other_order() {
    let mut repo = MemoryBookRepository::new();
    let second = repo.store(emma()).unwrap();
    let first = repo.store(dune()).unwrap();
    assert_ne!(first.id, second.id);
    let all = repo.find_all().unwrap();
    assert_eq!(all.len(), 2);
    assert!(all.contains(&first));
    assert!(all.contains(&second));
}

#[test]
fn two_equal_books_get_two_identifiers() {
    let mut repo = MemoryBookRepository::new();
    let first = repo.store(dune()).unwrap();
    let second = repo.store(dune()).unwrap();
    assert_ne!(first.id, second.id);
    assert_eq!(repo.find_all().unwrap().len(), 2);
}

#[test]
fn an_identifier_is_not_handed_out_again_after_a_delete() {
    let mut repo = MemoryBookRepository::new();
    let first = repo.store(dune()).unwrap();
    repo.delete_one(first.id.unwrap()).unwrap();
    let second = repo.store(dune()).unwrap();
    assert_ne!(first.id, second.id);
}
