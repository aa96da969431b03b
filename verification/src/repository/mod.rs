//! The repository contract: five operations over a set of records, and the
//! closed set of errors they may produce.

pub mod book;
pub mod laws;
pub mod memory;

use vstd::prelude::*;
use vstd::string::StringExecFns;
use crate::model::Model;

verus! {

/// Every way in which a repository operation can fail.
#[derive(Debug, PartialEq, Eq)]
pub enum RepositoryError {
    /// An unclassified failure of the storage engine, with the engine's message.
    Generic(String),
    /// An update was attempted on an entity that has no identifier.
    MissingIdentifier,
    /// An update or a delete addressed an identifier that matches no record.
    TargetNotFound,
}

impl RepositoryError {
    /// The text that describes this error.
    pub open spec fn description(self) -> Seq<char> {
        match self {
            RepositoryError::Generic(message) => "generic: "@ + message@,
            RepositoryError::MissingIdentifier => "missing identifier"@,
            RepositoryError::TargetNotFound => "target not found"@,
        }
    }

    /// Renders the error for a log line.
    pub fn to_string(&self) -> (text: String)
        ensures
            text@ == self.description(),
    {
        match self {
            RepositoryError::Generic(message) => {
                String::from_str("generic: ").concat(message.as_str())
            },
            RepositoryError::MissingIdentifier => String::from_str("missing identifier"),
            RepositoryError::TargetNotFound => String::from_str("target not found"),
        }
    }
}

/// The value of an optional entity or identifier.
pub open spec fn value_of<T: View>(o: Option<T>) -> Option<T::V> {
    match o {
        Some(t) => Some(t@),
        None => None,
    }
}

/// The values of a list of entities, in the list's order.
pub open spec fn values_of<T: View>(all: Seq<T>) -> Seq<T::V> {
    Seq::new(all.len(), |i: int| all[i]@)
}

/// `found` is what a lookup of `id` in `records` gives: the record held under
/// `id`, which carries `id`, or nothing where no record is held under it.
pub open spec fn is_lookup<M: Model<K>, K: View>(
    records: Map<K::V, M::V>,
    id: K::V,
    found: Option<M::V>,
) -> bool {
    match found {
        Some(v) => records.contains_key(id) && records[id] == v && M::id_of(v) == Some(id),
        None => !records.contains_key(id),
    }
}

/// `all` lists `records`: each record once, each under the identifier that it
/// carries, and nothing else. The order is left open.
pub open spec fn is_listing<M: Model<K>, K: View>(
    records: Map<K::V, M::V>,
    all: Seq<M::V>,
) -> bool {
    &&& forall|i: int|
        0 <= i < all.len() ==> match M::id_of(#[trigger] all[i]) {
            Some(id) => records.contains_key(id) && records[id] == all[i],
            None => false,
        }
    &&& forall|id: K::V| #[trigger]
        records.contains_key(id) ==> exists|i: int|
            0 <= i < all.len() && #[trigger] all[i] == records[id]
    &&& forall|i: int, j: int|
        0 <= i < j < all.len() ==> M::id_of(#[trigger] all[i]) != M::id_of(#[trigger] all[j])
}

/// `saved` is `entity` under an identifier that `before` did not hold, and
/// `after` is `before` with `saved` added under that identifier.
pub open spec fn is_insertion<M: Model<K>, K: View>(
    before: Map<K::V, M::V>,
    entity: M::V,
    saved: M::V,
    after: Map<K::V, M::V>,
) -> bool {
    match M::id_of(saved) {
        Some(id) => {
            &&& !before.contains_key(id)
            &&& saved == M::identified(entity, id)
            &&& after == before.insert(id, saved)
        },
        None => false,
    }
}

/// What `find_all` may return on the records `records`.
pub open spec fn find_all_outcome<M: Model<K>, K: View>(
    records: Map<K::V, M::V>,
    r: Result<Vec<M>, RepositoryError>,
) -> bool {
    match r {
        Ok(all) => is_listing::<M, K>(records, values_of(all@)),
        Err(e) => e is Generic,
    }
}

/// What `find_one` may return for `id` on the records `records`.
pub open spec fn find_one_outcome<M: Model<K>, K: View>(
    records: Map<K::V, M::V>,
    id: K::V,
    r: Result<Option<M>, RepositoryError>,
) -> bool {
    match r {
        Ok(found) => is_lookup::<M, K>(records, id, value_of(found)),
        Err(e) => e is Generic,
    }
}

/// What `store` may return for `entity`, and the records it may leave. Where
/// the engine fails, nothing is known of the records it leaves.
pub open spec fn store_outcome<M: Model<K>, K: View>(
    before: Map<K::V, M::V>,
    entity: M::V,
    r: Result<M, RepositoryError>,
    after: Map<K::V, M::V>,
) -> bool {
    match r {
        Ok(saved) => is_insertion::<M, K>(before, entity, saved@, after),
        Err(e) => e is Generic,
    }
}

/// What `update` may return for `entity`, and the records it may leave.
pub open spec fn update_outcome<M: Model<K>, K: View>(
    before: Map<K::V, M::V>,
    entity: M::V,
    r: Result<M, RepositoryError>,
    after: Map<K::V, M::V>,
) -> bool {
    match M::id_of(entity) {
        None => r == Err::<M, RepositoryError>(RepositoryError::MissingIdentifier) && after
            == before,
        Some(id) => match r {
            Ok(updated) => {
                &&& before.contains_key(id)
                &&& updated@ == entity
                &&& after == before.insert(id, entity)
            },
            Err(RepositoryError::TargetNotFound) => !before.contains_key(id) && after == before,
            Err(e) => e is Generic,
        },
    }
}

/// What `delete_one` may return for `id`, and the records it may leave.
pub open spec fn delete_one_outcome<M: Model<K>, K: View>(
    before: Map<K::V, M::V>,
    id: K::V,
    r: Result<(), RepositoryError>,
    after: Map<K::V, M::V>,
) -> bool {
    match r {
        Ok(_) => before.contains_key(id) && after == before.remove(id),
        Err(RepositoryError::TargetNotFound) => !before.contains_key(id) && after == before,
        Err(e) => e is Generic,
    }
}

/// Persistence of entities of type `M` under identifiers of type `K`, whatever
/// the storage engine behind it.
pub trait Repository<M: Model<K>, K: View> {
    /// The records held, each under its identifier. An adapter that is
    /// verified against this contract says what they are; for any other the
    /// contract is a promise that nothing has checked.
    open spec fn records(&self) -> Map<K::V, M::V> {
        arbitrary()
    }

    /// Returns every record, in no particular order.
    fn find_all(&self) -> (r: Result<Vec<M>, RepositoryError>)
        ensures
            find_all_outcome::<M, K>(self.records(), r),
    ;

    /// Returns the record held under `id`, or `None` where there is none.
    fn find_one(&self, id: K) -> (r: Result<Option<M>, RepositoryError>)
        ensures
            find_one_outcome::<M, K>(self.records(), id@, r),
    ;

    /// Persists `entity` as a new record. The identifier that `entity` carries
    /// is ignored: the engine assigns one, and the entity returned carries it.
    fn store(&mut self, entity: M) -> (r: Result<M, RepositoryError>)
        ensures
            store_outcome::<M, K>(old(self).records(), entity@, r, final(self).records()),
    ;

    /// Replaces the record held under the identifier that `entity` carries.
    fn update(&mut self, entity: M) -> (r: Result<M, RepositoryError>)
        ensures
            update_outcome::<M, K>(old(self).records(), entity@, r, final(self).records()),
    ;

    /// Removes the record held under `id`.
    fn delete_one(&mut self, id: K) -> (r: Result<(), RepositoryError>)
        ensures
            delete_one_outcome::<M, K>(old(self).records(), id@, r, final(self).records()),
    ;
}

} // verus!
