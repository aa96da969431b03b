//! The persisted entity and its identifier.

use vstd::prelude::*;
use vstd::std_specs::cmp::PartialEqSpecImpl;

verus! {

/// Number of bytes in an identifier.
pub const ID_LEN: usize = 12;

/// An opaque identifier that a storage engine assigns to a record.
///
/// Its value is the sequence of its twelve bytes.
#[derive(Clone, Copy, Debug, Eq)]
pub struct BookId {
    pub bytes: [u8; 12],
}

impl View for BookId {
    type V = Seq<u8>;

    open spec fn view(&self) -> Seq<u8> {
        self.bytes@
    }
}

impl PartialEq for BookId {
    fn eq(&self, other: &BookId) -> (r: bool) {
        let mut i: usize = 0;
        while i < ID_LEN
            invariant
                i <= ID_LEN,
                forall|j: int| 0 <= j < i ==> self.bytes@[j] == other.bytes@[j],
            decreases ID_LEN - i,
        {
            if self.bytes[i] != other.bytes[i] {
                return false;
            }
            i += 1;
        }
        assert(self.bytes@ =~= other.bytes@);
        true
    }
}

impl PartialEqSpecImpl for BookId {
    open spec fn obeys_eq_spec() -> bool {
        true
    }

    open spec fn eq_spec(&self, other: &BookId) -> bool {
        self@ == other@
    }
}

/// The number that a hexadecimal digit stands for, in either case.
pub open spec fn hex_digit(c: char) -> Option<int> {
    if '0' <= c <= '9' {
        Some(c as int - '0' as int)
    } else if 'a' <= c <= 'f' {
        Some(c as int - 'a' as int + 10)
    } else if 'A' <= c <= 'F' {
        Some(c as int - 'A' as int + 10)
    } else {
        None
    }
}

/// Whether `text` writes an identifier: twenty-four hexadecimal digits.
pub open spec fn is_id_text(text: Seq<char>) -> bool {
    &&& text.len() == 24
    &&& forall|i: int| 0 <= i < 24 ==> hex_digit(#[trigger] text[i]) is Some
}

/// The identifier that `text` writes: each pair of digits gives one byte, the
/// first digit its upper half.
pub open spec fn id_from_text(text: Seq<char>) -> Seq<u8> {
    Seq::new(
        12,
        |i: int| (16 * hex_digit(text[2 * i]).unwrap() + hex_digit(text[2 * i + 1]).unwrap()) as u8,
    )
}

/// The identifier that `text` writes, if it writes one.
pub open spec fn parsed_id(text: Seq<char>) -> Option<Seq<u8>> {
    if is_id_text(text) {
        Some(id_from_text(text))
    } else {
        None
    }
}

/// The message with which the identifier parser turns down `text`.
pub uninterp spec fn id_text_rejection(text: Seq<char>) -> Seq<char>;

/// Calls `ObjectId::parse_str` of the `bson` crate, takes the bytes of the
/// identifier it gives with `ObjectId::bytes`, and renders the error it gives
/// with `to_string`.
///
/// The parser decodes the text as hexadecimal, two digits to a byte, upper
/// and lower case alike, and accepts it exactly when that gives twelve bytes.
/// Its message for a text that it turns down depends on that text alone; the
/// wording is the parser's own and is only named here.
#[verifier::external_body]
pub(crate) fn parse_object_id(text: &str) -> (r: Result<BookId, String>)
    ensures
        match r {
            Ok(id) => is_id_text(text@) && id@ == id_from_text(text@),
            Err(message) => !is_id_text(text@) && message@ == id_text_rejection(text@),
        },
{
    match mongodb::bson::oid::ObjectId::parse_str(text) {
        Ok(id) => Ok(BookId { bytes: id.bytes() }),
        Err(error) => Err(error.to_string()),
    }
}

/// A book: the one entity that is persisted.
#[derive(Debug, PartialEq, Eq)]
pub struct Book {
    /// Absent until the book is first persisted.
    pub id: Option<BookId>,
    pub title: String,
    pub author: String,
    pub year: i32,
}

/// The mathematical value of a [`Book`].
pub struct BookView {
    pub id: Option<Seq<u8>>,
    pub title: Seq<char>,
    pub author: Seq<char>,
    pub year: int,
}

impl View for Book {
    type V = BookView;

    open spec fn view(&self) -> BookView {
        BookView {
            id: match self.id {
                Some(id) => Some(id@),
                None => None,
            },
            title: self.title@,
            author: self.author@,
            year: self.year as int,
        }
    }
}

impl Clone for Book {
    fn clone(&self) -> (copy: Book)
        ensures
            copy@ == self@,
    {
        Book {
            id: self.id,
            title: self.title.clone(),
            author: self.author.clone(),
            year: self.year,
        }
    }
}

/// An entity that a repository can hold under an identifier of type `K`.
pub trait Model<K: View>: View + Sized {
    /// The identifier that an entity's value carries, if any.
    spec fn id_of(v: Self::V) -> Option<K::V>;

    /// The same value carrying the identifier `id`.
    spec fn identified(v: Self::V, id: K::V) -> Self::V;
}

impl Model<BookId> for Book {
    open spec fn id_of(v: BookView) -> Option<Seq<u8>> {
        v.id
    }

    open spec fn identified(v: BookView, id: Seq<u8>) -> BookView {
        BookView { id: Some(id), ..v }
    }
}

impl Book {
    /// A book that was never persisted.
    pub fn new(title: String, author: String, year: i32) -> (book: Book)
        ensures
            book@ == (BookView { id: None, title: title@, author: author@, year: year as int }),
    {
        Book { id: None, title, author, year }
    }

    /// The same book under the identifier `id`, whatever identifier it had.
    pub fn with_id(self, id: BookId) -> (book: Book)
        ensures
            book@ == Book::identified(self@, id@),
    {
        Book { id: Some(id), title: self.title, author: self.author, year: self.year }
    }
}

} // verus!
