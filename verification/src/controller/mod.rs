//! What a request handler answers: a status, a body still to be encoded, and
//! what is to be logged on the server.

pub mod book;

use vstd::prelude::*;
use crate::model::{Book, BookView};
use crate::repository::{value_of, values_of};

verus! {

/// The request succeeded and the body holds its result.
pub const OK: u16 = 200;

/// The request succeeded and there is nothing to send.
pub const NO_CONTENT: u16 = 204;

/// The request itself is at fault.
pub const BAD_REQUEST: u16 = 400;

/// No record is held under the identifier that was asked for.
pub const NOT_FOUND: u16 = 404;

/// The server failed; the caller is told nothing more.
pub const INTERNAL_SERVER_ERROR: u16 = 500;

/// The payload of a response, before it is encoded for the wire.
#[derive(Debug, PartialEq, Eq)]
pub enum Body {
    /// Nothing.
    Empty,
    /// A text for the caller.
    Message(String),
    /// One book.
    Book(Book),
    /// A list of books.
    Books(Vec<Book>),
}

/// The mathematical value of a [`Body`].
pub enum BodyView {
    Empty,
    Message(Seq<char>),
    Book(BookView),
    Books(Seq<BookView>),
}

impl View for Body {
    type V = BodyView;

    open spec fn view(&self) -> BodyView {
        match self {
            Body::Empty => BodyView::Empty,
            Body::Message(text) => BodyView::Message(text@),
            Body::Book(book) => BodyView::Book(book@),
            Body::Books(books) => BodyView::Books(values_of(books@)),
        }
    }
}

/// What a handler answers to one request.
#[derive(Debug, PartialEq, Eq)]
pub struct Response {
    /// The status code.
    pub status: u16,
    /// What is sent to the caller.
    pub body: Body,
    /// What is written to the server's log, and never sent.
    pub logged: Option<String>,
}

/// The mathematical value of a [`Response`].
pub struct ResponseView {
    pub status: int,
    pub body: BodyView,
    pub logged: Option<Seq<char>>,
}

impl View for Response {
    type V = ResponseView;

    open spec fn view(&self) -> ResponseView {
        ResponseView {
            status: self.status as int,
            body: self.body@,
            logged: value_of(self.logged),
        }
    }
}

} // verus!
