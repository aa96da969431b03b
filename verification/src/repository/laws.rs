//! What follows from the repository contract, whatever the adapter: each law
//! is stated over the outcomes that the contract allows.

use vstd::prelude::*;
use crate::model::{Book, BookId, BookView, Model};
use crate::repository::{
    delete_one_outcome,
    find_all_outcome,
    find_one_outcome,
    store_outcome,
    update_outcome,
    value_of,
    values_of,
    RepositoryError,
};

verus! {

/// What was stored is found again. Where `store` succeeds, the entity it
/// returns carries an identifier and is otherwise the entity given; a lookup
/// of that identifier on the records that `store` left, unless the engine
/// fails, returns exactly that entity.
pub proof fn stored_is_found<M: Model<K>, K: View>(
    before: Map<K::V, M::V>,
    entity: M::V,
    stored: Result<M, RepositoryError>,
    after: Map<K::V, M::V>,
    found: Result<Option<M>, RepositoryError>,
)
    requires
        store_outcome::<M, K>(before, entity, stored, after),
        stored is Ok,
        find_one_outcome::<M, K>(after, M::id_of(stored->Ok_0@)->Some_0, found),
    ensures
        M::id_of(stored->Ok_0@) is Some,
        stored->Ok_0@ == M::identified(entity, M::id_of(stored->Ok_0@)->Some_0),
        found is Ok ==> value_of(found->Ok_0) == Some(stored->Ok_0@),
{
}

/// A stored book keeps its title, its author and its year, and has an
/// identifier, whether or not the book given had one.
pub proof fn stored_book_keeps_fields(
    before: Map<Seq<u8>, BookView>,
    book: Book,
    stored: Result<Book, RepositoryError>,
    after: Map<Seq<u8>, BookView>,
)
    requires
        store_outcome::<Book, BookId>(before, book@, stored, after),
        stored is Ok,
    ensures
        stored->Ok_0@.id is Some,
        stored->Ok_0@.title == book@.title,
        stored->Ok_0@.author == book@.author,
        stored->Ok_0@.year == book@.year,
{
}

/// An update of an entity without identifier fails with `MissingIdentifier`
/// and leaves the records as they were.
pub proof fn update_without_identifier_fails<M: Model<K>, K: View>(
    before: Map<K::V, M::V>,
    entity: M::V,
    updated: Result<M, RepositoryError>,
    after: Map<K::V, M::V>,
)
    requires
        M::id_of(entity) is None,
        update_outcome::<M, K>(before, entity, updated, after),
    ensures
        updated == Err::<M, RepositoryError>(RepositoryError::MissingIdentifier),
        after == before,
{
}

/// An identifier under which nothing is held is not found. A lookup of it
/// returns nothing, which is no error; an update and a delete that address it
/// fail, with `TargetNotFound` unless the engine itself fails, and then leave
/// the records as they were.
pub proof fn absent_is_not_found<M: Model<K>, K: View>(
    records: Map<K::V, M::V>,
    id: K::V,
    found: Result<Option<M>, RepositoryError>,
    entity: M::V,
    updated: Result<M, RepositoryError>,
    after_update: Map<K::V, M::V>,
    deleted: Result<(), RepositoryError>,
    after_delete: Map<K::V, M::V>,
)
    requires
        !records.contains_key(id),
        find_one_outcome::<M, K>(records, id, found),
        M::id_of(entity) == Some(id),
        update_outcome::<M, K>(records, entity, updated, after_update),
        delete_one_outcome::<M, K>(records, id, deleted, after_delete),
    ensures
        found is Ok ==> found->Ok_0 is None,
        updated is Err,
        updated->Err_0 is TargetNotFound || updated->Err_0 is Generic,
        updated->Err_0 is TargetNotFound ==> after_update == records,
        deleted is Err,
        deleted->Err_0 is TargetNotFound || deleted->Err_0 is Generic,
        deleted->Err_0 is TargetNotFound ==> after_delete == records,
{
}

/// A delete is not idempotent. After a delete that succeeded, a second delete
/// of the same identifier does not succeed: it fails with `TargetNotFound`
/// unless the engine itself fails, and then leaves the records as they were.
pub proof fn second_delete_fails<M: Model<K>, K: View>(
    before: Map<K::V, M::V>,
    id: K::V,
    first: Result<(), RepositoryError>,
    between: Map<K::V, M::V>,
    second: Result<(), RepositoryError>,
    after: Map<K::V, M::V>,
)
    requires
        delete_one_outcome::<M, K>(before, id, first, between),
        first is Ok,
        delete_one_outcome::<M, K>(between, id, second, after),
    ensures
        !between.contains_key(id),
        second is Err,
        second->Err_0 is TargetNotFound || second->Err_0 is Generic,
        second->Err_0 is TargetNotFound ==> after == between,
{
}

/// Two entities stored one after the other get two different identifiers,
/// and a listing of the records that the second `store` left holds both as
/// they were returned. Nothing is asked of the two entities: they may be
/// equal, and either may come first.
pub proof fn both_stored_are_listed<M: Model<K>, K: View>(
    before: Map<K::V, M::V>,
    first_entity: M::V,
    first: Result<M, RepositoryError>,
    between: Map<K::V, M::V>,
    second_entity: M::V,
    second: Result<M, RepositoryError>,
    after: Map<K::V, M::V>,
    listed: Result<Vec<M>, RepositoryError>,
)
    requires
        store_outcome::<M, K>(before, first_entity, first, between),
        first is Ok,
        store_outcome::<M, K>(between, second_entity, second, after),
        second is Ok,
        find_all_outcome::<M, K>(after, listed),
        listed is Ok,
    ensures
        M::id_of(first->Ok_0@) is Some,
        M::id_of(second->Ok_0@) is Some,
        M::id_of(first->Ok_0@) != M::id_of(second->Ok_0@),
        values_of(listed->Ok_0@).contains(first->Ok_0@),
        values_of(listed->Ok_0@).contains(second->Ok_0@),
{
    let first_id = M::id_of(first->Ok_0@)->Some_0;
    let second_id = M::id_of(second->Ok_0@)->Some_0;
    assert(between.contains_key(first_id));
    assert(after.contains_key(first_id) && after[first_id] == first->Ok_0@);
    assert(after.contains_key(second_id) && after[second_id] == second->Ok_0@);
}

} // verus!
