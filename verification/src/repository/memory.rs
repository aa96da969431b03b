//! An adapter of the repository contract that keeps its records in memory.

use vstd::prelude::*;
use vstd::string::StringExecFns;
use crate::model::{Book, BookId, BookView};
use crate::repository::book::{
    deleted,
    require_identifier,
    stored,
    updated,
    DeleteAcknowledgment,
    InsertedId,
    UpdateAcknowledgment,
};
use crate::repository::{is_listing, values_of, Repository, RepositoryError};

verus! {

/// Whether `books` holds a book under `id` at index `i`.
spec fn held_at(books: Seq<Book>, id: Seq<u8>, i: int) -> bool {
    0 <= i < books.len() && books[i]@.id == Some(id)
}

/// Whether `books` holds a book under `id`.
spec fn holds(books: Seq<Book>, id: Seq<u8>) -> bool {
    exists|i: int| held_at(books, id, i)
}

/// An index at which `books` holds a book under `id`.
spec fn place(books: Seq<Book>, id: Seq<u8>) -> int {
    choose|i: int| held_at(books, id, i)
}

/// The records that a list of books stands for.
spec fn records_of(books: Seq<Book>) -> Map<Seq<u8>, BookView> {
    Map::new(|id: Seq<u8>| holds(books, id), |id: Seq<u8>| books[place(books, id)]@)
}

/// Every book of the list has an identifier, and no two have the same.
spec fn well_keyed(books: Seq<Book>) -> bool {
    &&& forall|i: int| 0 <= i < books.len() ==> (#[trigger] books[i])@.id is Some
    &&& forall|i: int, j: int|
        0 <= i < j < books.len() ==> (#[trigger] books[i])@.id != (#[trigger] books[j])@.id
}

/// The number that the last eight bytes of an identifier write, the first of
/// them the most significant.
spec fn serial(id: Seq<u8>) -> int {
    ((((((id[4] * 256 + id[5]) * 256 + id[6]) * 256 + id[7]) * 256 + id[8]) * 256 + id[9]) * 256
        + id[10]) * 256 + id[11]
}

/// Every identifier in the list writes a number below `bound`.
spec fn serials_below(books: Seq<Book>, bound: int) -> bool {
    forall|i: int|
        0 <= i < books.len() ==> match (#[trigger] books[i])@.id {
            Some(id) => serial(id) < bound,
            None => true,
        }
}

/// In a well-keyed list, the record under a book's identifier is that book.
proof fn lemma_record_at(books: Seq<Book>, i: int)
    requires
        well_keyed(books),
        0 <= i < books.len(),
    ensures
        books[i]@.id is Some,
        records_of(books).contains_key(books[i]@.id->Some_0),
        records_of(books)[books[i]@.id->Some_0] == books[i]@,
{
    let id = books[i]@.id->Some_0;
    assert(held_at(books, id, i));
    let p = place(books, id);
    assert(held_at(books, id, p));
    if p < i {
        assert(books[p]@.id != books[i]@.id);
    } else if i < p {
        assert(books[i]@.id != books[p]@.id);
    }
}

/// A well-keyed list lists the records that it stands for.
proof fn lemma_lists_itself(books: Seq<Book>)
    requires
        well_keyed(books),
    ensures
        is_listing::<Book, BookId>(records_of(books), values_of(books)),
{
    let records = records_of(books);
    let all = values_of(books);
    assert forall|i: int| 0 <= i < all.len() implies match (#[trigger] all[i]).id {
        Some(id) => records.contains_key(id) && records[id] == all[i],
        None => false,
    } by {
        lemma_record_at(books, i);
    }
    assert forall|id: Seq<u8>| #[trigger] records.contains_key(id) implies exists|i: int|
        0 <= i < all.len() && #[trigger] all[i] == records[id] by {
        let p = place(books, id);
        assert(held_at(books, id, p));
        assert(all[p] == records[id]);
    }
    assert forall|i: int, j: int| 0 <= i < j < all.len() implies (#[trigger] all[i]).id != (
    #[trigger] all[j]).id by {
        assert(books[i]@.id != books[j]@.id);
    }
}

/// The identifier that writes the number `n`.
fn issue(n: u64) -> (id: BookId)
    ensures
        serial(id@) == n,
{
    let b11 = (n % 256) as u8;
    let n = n / 256;
    let b10 = (n % 256) as u8;
    let n = n / 256;
    let b9 = (n % 256) as u8;
    let n = n / 256;
    let b8 = (n % 256) as u8;
    let n = n / 256;
    let b7 = (n % 256) as u8;
    let n = n / 256;
    let b6 = (n % 256) as u8;
    let n = n / 256;
    let b5 = (n % 256) as u8;
    let n = n / 256;
    let b4 = (n % 256) as u8;
    BookId { bytes: [0, 0, 0, 0, b4, b5, b6, b7, b8, b9, b10, b11] }
}

/// A repository of books that lives in memory: the reference adapter of the
/// contract. It never fails but where its identifiers run out.
pub struct MemoryBookRepository {
    books: Vec<Book>,
    issued: u64,
}

impl MemoryBookRepository {
    #[verifier::type_invariant]
    spec fn consistent(self) -> bool {
        &&& well_keyed(self.books@)
        &&& serials_below(self.books@, self.issued as int)
    }

    /// How many identifiers have been handed out.
    pub closed spec fn handed_out(&self) -> nat {
        self.issued as nat
    }

    /// A repository that holds nothing.
    pub fn new() -> (repo: MemoryBookRepository)
        ensures
            repo.records() == Map::<Seq<u8>, BookView>::empty(),
            repo.handed_out() == 0,
    {
        let repo = MemoryBookRepository { books: Vec::new(), issued: 0 };
        assert(repo.records() =~= Map::<Seq<u8>, BookView>::empty());
        repo
    }

    /// The index of the book held under `id`, if one is.
    fn position(&self, id: &BookId) -> (found: Option<usize>)
        ensures
            match found {
                Some(i) => held_at(self.books@, id@, i as int),
                None => !holds(self.books@, id@),
            },
    {
        let mut i: usize = 0;
        while i < self.books.len()
            invariant
                i <= self.books.len(),
                forall|j: int| 0 <= j < i ==> !held_at(self.books@, id@, j),
            decreases self.books.len() - i,
        {
            let here = match self.books[i].id {
                Some(held) => held == *id,
                None => false,
            };
            if here {
                return Some(i);
            }
            i += 1;
        }
        None
    }
}

impl Repository<Book, BookId> for MemoryBookRepository {
    closed spec fn records(&self) -> Map<Seq<u8>, BookView> {
        records_of(self.books@)
    }

    fn find_all(&self) -> (r: Result<Vec<Book>, RepositoryError>)
        ensures
            r is Ok,
    {
        proof {
            use_type_invariant(self);
        }
        let mut all: Vec<Book> = Vec::new();
        let mut i: usize = 0;
        while i < self.books.len()
            invariant
                i <= self.books.len(),
                all@.len() == i,
                forall|j: int| 0 <= j < i ==> (#[trigger] all@[j])@ == self.books@[j]@,
            decreases self.books.len() - i,
        {
            all.push(self.books[i].clone());
            i += 1;
        }
        proof {
            assert(values_of(all@) =~= values_of(self.books@));
            lemma_lists_itself(self.books@);
        }
        Ok(all)
    }

    fn find_one(&self, id: BookId) -> (r: Result<Option<Book>, RepositoryError>)
        ensures
            r is Ok,
    {
        proof {
            use_type_invariant(self);
        }
        match self.position(&id) {
            Some(i) => {
                proof {
                    lemma_record_at(self.books@, i as int);
                }
                Ok(Some(self.books[i].clone()))
            },
            None => Ok(None),
        }
    }

    fn store(&mut self, entity: Book) -> (r: Result<Book, RepositoryError>)
        ensures
            r is Ok <==> old(self).handed_out() < u64::MAX,
            r is Ok ==> final(self).handed_out() == old(self).handed_out() + 1,
            r is Err ==> final(self).records() == old(self).records() && final(self).handed_out()
                == old(self).handed_out(),
    {
        proof {
            use_type_invariant(&*self);
        }
        if self.issued == u64::MAX {
            return Err(RepositoryError::generic(String::from_str("no identifier is left")));
        }
        let id = issue(self.issued);
        let saved = stored(entity, InsertedId::ObjectId(id));
        let ghost before = self.books@;
        proof {
            assert(!holds(before, id@)) by {
                if holds(before, id@) {
                    let p = place(before, id@);
                    assert(held_at(before, id@, p));
                }
            }
        }
        let mut books: Vec<Book> = Vec::new();
        core::mem::swap(&mut self.books, &mut books);
        books.push(saved.clone());
        self.issued = self.issued + 1;
        proof {
            let after = books@;
            let last = before.len() as int;
            assert(after[last]@ == saved@);
            assert forall|i: int| 0 <= i < before.len() implies after[i] == before[i] by {}
            assert(well_keyed(after)) by {
                assert forall|i: int, j: int| 0 <= i < j < after.len() implies (
                #[trigger] after[i])@.id != (#[trigger] after[j])@.id by {
                    if j == last {
                        assert(held_at(before, after[i]@.id->Some_0, i));
                    }
                }
            }
            assert(records_of(after) =~= records_of(before).insert(id@, saved@)) by {
                assert forall|k: Seq<u8>|
                    records_of(after).contains_key(k) <==> records_of(before).insert(
                        id@,
                        saved@,
                    ).contains_key(k) by {
                    if holds(after, k) {
                        let p = place(after, k);
                        assert(held_at(after, k, p));
                        if p < last {
                            assert(held_at(before, k, p));
                        }
                    }
                    if holds(before, k) {
                        let p = place(before, k);
                        assert(held_at(before, k, p));
                        assert(held_at(after, k, p));
                    }
                    if k == id@ {
                        assert(held_at(after, k, last));
                    }
                }
                assert forall|k: Seq<u8>| records_of(after).contains_key(k) implies records_of(
                    after,
                )[k] == records_of(before).insert(id@, saved@)[k] by {
                    let p = place(after, k);
                    assert(held_at(after, k, p));
                    lemma_record_at(after, p);
                    if p < last {
                        assert(held_at(before, k, p));
                        lemma_record_at(before, p);
                    }
                }
            }
            assert(serials_below(after, self.issued as int)) by {
                assert forall|i: int| 0 <= i < after.len() implies match (
                #[trigger] after[i])@.id {
                    Some(held) => serial(held) < self.issued,
                    None => true,
                } by {
                    if i < last {
                        assert(before[i]@.id == after[i]@.id);
                    }
                }
            }
        }
        self.books = books;
        Ok(saved)
    }

    fn update(&mut self, entity: Book) -> (r: Result<Book, RepositoryError>)
        ensures
            !(r matches Err(RepositoryError::Generic(_))),
            final(self).handed_out() == old(self).handed_out(),
    {
        proof {
            use_type_invariant(&*self);
        }
        let id = match require_identifier(&entity) {
            Ok(id) => id,
            Err(error) => {
                return Err(error);
            },
        };
        let ghost before = self.books@;
        let ack = match self.position(&id) {
            Some(i) => {
                let unchanged = self.books[i].title == entity.title && self.books[i].author
                    == entity.author && self.books[i].year == entity.year;
                let mut books: Vec<Book> = Vec::new();
                core::mem::swap(&mut self.books, &mut books);
                books.set(i, entity.clone());
                proof {
                    let after = books@;
                    assert(after[i as int]@ == entity@);
                    assert(well_keyed(after)) by {
                        assert forall|a: int, b: int| 0 <= a < b < after.len() implies (
                        #[trigger] after[a])@.id != (#[trigger] after[b])@.id by {
                            assert(before[a]@.id != before[b]@.id);
                        }
                        assert forall|a: int| 0 <= a < after.len() implies (
                        #[trigger] after[a])@.id is Some by {
                            assert(before[a]@.id is Some);
                        }
                    }
                    assert(serials_below(after, self.issued as int)) by {
                        assert forall|a: int| 0 <= a < after.len() implies match (
                        #[trigger] after[a])@.id {
                            Some(held) => serial(held) < self.issued,
                            None => true,
                        } by {
                            assert(before[a]@.id == after[a]@.id);
                        }
                    }
                    lemma_record_at(before, i as int);
                    assert(records_of(after) =~= records_of(before).insert(id@, entity@)) by {
                        assert forall|k: Seq<u8>|
                            records_of(after).contains_key(k) <==> records_of(
                                before,
                            ).contains_key(k) by {
                            if holds(after, k) {
                                let p = place(after, k);
                                assert(held_at(after, k, p));
                                assert(held_at(before, k, p));
                            }
                            if holds(before, k) {
                                let p = place(before, k);
                                assert(held_at(before, k, p));
                                assert(held_at(after, k, p));
                            }
                        }
                        assert forall|k: Seq<u8>| records_of(after).contains_key(
                            k,
                        ) implies records_of(after)[k] == records_of(before).insert(
                            id@,
                            entity@,
                        )[k] by {
                            let p = place(after, k);
                            assert(held_at(after, k, p));
                            lemma_record_at(after, p);
                            assert(held_at(before, k, p));
                            lemma_record_at(before, p);
                        }
                    }
                }
                self.books = books;
                UpdateAcknowledgment {
                    matched_count: 1,
                    modified_count: if unchanged {
                        0
                    } else {
                        1
                    },
                }
            },
            None => UpdateAcknowledgment { matched_count: 0, modified_count: 0 },
        };
        updated(entity, &ack)
    }

    fn delete_one(&mut self, id: BookId) -> (r: Result<(), RepositoryError>)
        ensures
            !(r matches Err(RepositoryError::Generic(_))),
            final(self).handed_out() == old(self).handed_out(),
    {
        proof {
            use_type_invariant(&*self);
        }
        let ghost before = self.books@;
        let ack = match self.position(&id) {
            Some(i) => {
                let mut books: Vec<Book> = Vec::new();
                core::mem::swap(&mut self.books, &mut books);
                books.remove(i);
                proof {
                    let after = books@;
                    let gone = i as int;
                    assert forall|a: int| 0 <= a < after.len() implies #[trigger] after[a] == (
                    if a < gone {
                        before[a]
                    } else {
                        before[a + 1]
                    }) by {}
                    assert(well_keyed(after)) by {
                        assert forall|a: int, b: int| 0 <= a < b < after.len() implies (
                        #[trigger] after[a])@.id != (#[trigger] after[b])@.id by {
                            let x = if a < gone { a } else { a + 1 };
                            let y = if b < gone { b } else { b + 1 };
                            assert(before[x]@.id != before[y]@.id);
                        }
                        assert forall|a: int| 0 <= a < after.len() implies (
                        #[trigger] after[a])@.id is Some by {
                            let x = if a < gone { a } else { a + 1 };
                            assert(before[x]@.id is Some);
                        }
                    }
                    assert(serials_below(after, self.issued as int)) by {
                        assert forall|a: int| 0 <= a < after.len() implies match (
                        #[trigger] after[a])@.id {
                            Some(held) => serial(held) < self.issued,
                            None => true,
                        } by {
                            let x = if a < gone { a } else { a + 1 };
                            assert(before[x]@.id == after[a]@.id);
                        }
                    }
                    assert(records_of(after) =~= records_of(before).remove(id@)) by {
                        assert forall|k: Seq<u8>|
                            records_of(after).contains_key(k) <==> records_of(before).remove(
                                id@,
                            ).contains_key(k) by {
                            if holds(after, k) {
                                let p = place(after, k);
                                assert(held_at(after, k, p));
                                let x = if p < gone { p } else { p + 1 };
                                assert(held_at(before, k, x));
                                if k == id@ {
                                    if x < gone {
                                        assert(before[x]@.id != before[gone]@.id);
                                    } else {
                                        assert(before[gone]@.id != before[x]@.id);
                                    }
                                }
                            }
                            if holds(before, k) && k != id@ {
                                let p = place(before, k);
                                assert(held_at(before, k, p));
                                let x = if p < gone { p } else { p - 1 };
                                assert(held_at(after, k, x));
                            }
                        }
                        assert forall|k: Seq<u8>| records_of(after).contains_key(
                            k,
                        ) implies records_of(after)[k] == records_of(before).remove(id@)[k] by {
                            let p = place(after, k);
                            assert(held_at(after, k, p));
                            lemma_record_at(after, p);
                            let x = if p < gone { p } else { p + 1 };
                            assert(held_at(before, k, x));
                            lemma_record_at(before, x);
                        }
                    }
                }
                self.books = books;
                DeleteAcknowledgment { deleted_count: 1 }
            },
            None => DeleteAcknowledgment { deleted_count: 0 },
        };
        deleted(&ack)
    }
}

} // verus!
