use bookshelf::model::{Book, BookId};

fn id(last: u8) -> BookId {
    BookId { bytes: [0, 0, 0, 0, 0, 0, 0, 0, 0, 0, 0, last] }
}

#[test]
fn new_book_has_no_identifier() {
    let book = Book::new(String::from("Dune"), String::from("Herbert"), 1965);
    assert_eq!(book.id, None);
    assert_eq!(book.title, "Dune");
    assert_eq!(book.author, "Herbert");
    assert_eq!(book.year, 1965);
}

#[test]
fn with_id_sets_only_the_identifier() {
    let book = Book::new(String::from("Dune"), String::from("Herbert"), 1965).with_id(id(7));
    assert_eq!(book.id, Some(id(7)));
    assert_eq!(book.title, "Dune");
    assert_eq!(book.author, "Herbert");
    assert_eq!(book.year, 1965);
}

#[test]
fn with_id_overwrites_an_identifier() {
    let book = Book::new(String::from("Dune"), String::from("Herbert"), 1965)
        .with_id(id(1))
        .with_id(id(2));
    assert_eq!(book.id, Some(id(2)));
}

#[test]
fn identifiers_are_equal_by_their_bytes() {
    assert!(id(3) == id(3));
    assert!(id(3) != id(4));
    let first = BookId { bytes: [1, 0, 0, 0, 0, 0, 0, 0, 0, 0, 0, 0] };
    let last = BookId { bytes: [0, 0, 0, 0, 0, 0, 0, 0, 0, 0, 0, 1] };
    assert!(first != last);
}

#[test]
fn clone_keeps_every_field() {
    let book = Book::new(String::from("Emma"), String::from("Austen"), -1815).with_id(id(9));
    let copy = book.clone();
    assert_eq!(copy, book);
    assert_eq!(copy.year, -1815);
}
