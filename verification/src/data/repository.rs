//! The repository contract: create, read, update and delete over a table of
//! records keyed by identifier.
//!
//! The table is modelled as a finite map from identifier to record. Each
//! operation is described by a predicate over the table before, the table
//! after and the result, so that the laws relating the operations can be
//! stated once and hold of every implementation.

use vstd::prelude::*;

verus! {

/// Why a repository operation did not succeed.
#[derive(Debug, Clone, Copy, PartialEq, Eq, Structural)]
pub enum RepositoryError {
    /// No record has the requested identifier.
    NotFound,
    /// A record with the same identifier is already stored.
    Conflict,
    /// The store could not be reached or did not answer as expected.
    Infrastructure,
}

/// What a repository needs to know of the records it stores.
pub trait Record: Sized {
    /// The identifier a record is stored under.
    spec fn key(self) -> u128;

    /// The stored record after the mutable fields of `incoming` have been
    /// written over it.
    spec fn overwritten(self, incoming: Self) -> Self;

    /// Overwriting never moves a record to another identifier.
    proof fn overwritten_keeps_key(self, incoming: Self)
        ensures
            self.overwritten(incoming).key() == self.key(),
    ;
}

/// A table is keyed when it is finite and files every record under the
/// record's own identifier.
pub open spec fn keyed<T: Record>(rows: Map<u128, T>) -> bool {
    &&& rows.dom().finite()
    &&& forall|id: u128| #[trigger] rows.contains_key(id) ==> rows[id].key() == id
}

/// `all` lists the table: every row once, in some order, and nothing else.
pub open spec fn lists<T: Record>(rows: Map<u128, T>, all: Seq<T>) -> bool {
    &&& all.len() == rows.len()
    &&& forall|i: int|
        0 <= i < all.len() ==> rows.contains_key(#[trigger] all[i].key()) && rows[all[i].key()]
            == all[i]
    &&& forall|i: int, j: int|
        0 <= i < j < all.len() ==> #[trigger] all[i].key() != #[trigger] all[j].key()
}

/// What `get_all` may return on a table.
pub open spec fn get_all_outcome<T: Record>(
    rows: Map<u128, T>,
    result: Result<Vec<T>, RepositoryError>,
) -> bool {
    match result {
        Ok(all) => lists(rows, all@),
        Err(error) => error == RepositoryError::Infrastructure,
    }
}

/// What `get_by_id` may return on a table.
pub open spec fn get_by_id_outcome<T: Record>(
    rows: Map<u128, T>,
    id: u128,
    result: Result<Option<T>, RepositoryError>,
) -> bool {
    match result {
        Ok(Some(found)) => rows.contains_key(id) && found == rows[id],
        Ok(None) => !rows.contains_key(id),
        Err(error) => error == RepositoryError::Infrastructure,
    }
}

/// What `insert` may do to a table and return.
pub open spec fn insert_outcome<T: Record>(
    before: Map<u128, T>,
    after: Map<u128, T>,
    entity: T,
    result: Result<T, RepositoryError>,
) -> bool {
    match result {
        Ok(stored) => {
            &&& !before.contains_key(entity.key())
            &&& stored == entity
            &&& after == before.insert(entity.key(), entity)
        },
        Err(RepositoryError::Conflict) => before.contains_key(entity.key()) && after == before,
        Err(RepositoryError::Infrastructure) => after == before,
        Err(RepositoryError::NotFound) => false,
    }
}

/// What `update` may do to a table and return.
pub open spec fn update_outcome<T: Record>(
    before: Map<u128, T>,
    after: Map<u128, T>,
    id: u128,
    entity: T,
    result: Result<T, RepositoryError>,
) -> bool {
    match result {
        Ok(stored) => {
            &&& before.contains_key(id)
            &&& stored == before[id].overwritten(entity)
            &&& after == before.insert(id, stored)
        },
        Err(RepositoryError::NotFound) => !before.contains_key(id) && after == before,
        Err(RepositoryError::Infrastructure) => after == before,
        Err(RepositoryError::Conflict) => false,
    }
}

/// What `delete` may do to a table and return.
pub open spec fn delete_outcome<T: Record>(
    before: Map<u128, T>,
    after: Map<u128, T>,
    id: u128,
    result: Result<bool, RepositoryError>,
) -> bool {
    match result {
        Ok(removed) => removed == before.contains_key(id) && after == before.remove(id),
        Err(error) => error == RepositoryError::Infrastructure && after == before,
    }
}

/// Create, read, update and delete over one kind of record.
///
/// An operation may fail with [`RepositoryError::Infrastructure`] when the
/// store behind it cannot be reached, unless the repository is
/// [`reliable`](Repository::reliable); such a failure leaves the table as
/// it was. The other results are fixed by the table and the arguments.
pub trait Repository<T: Record> {
    /// The table of stored records. A verified implementation says what its
    /// table is. For any other the table is some function of the
    /// repository that is left unnamed, and the contracts below are what its
    /// author promises of it.
    open spec fn rows(&self) -> Map<u128, T> {
        (arbitrary::<spec_fn(&Self) -> Map<u128, T>>())(self)
    }

    /// Whether the store behind this repository cannot fail, so that no
    /// operation ever returns [`RepositoryError::Infrastructure`]. Nothing is
    /// assumed of a repository that does not say so.
    open spec fn reliable(&self) -> bool {
        false
    }

    /// Returns every stored record, in the store's own order.
    fn get_all(&self) -> (result: Result<Vec<T>, RepositoryError>)
        ensures
            get_all_outcome(self.rows(), result),
            self.reliable() ==> result is Ok,
    ;

    /// Returns the record stored under `id`, or `None` when there is none.
    fn get_by_id(&self, id: u128) -> (result: Result<Option<T>, RepositoryError>)
        ensures
            get_by_id_outcome(self.rows(), id, result),
            self.reliable() ==> result is Ok,
    ;

    /// Stores a new record under its own identifier and returns it; fails
    /// with [`RepositoryError::Conflict`] when the identifier is taken.
    fn insert(&mut self, entity: T) -> (result: Result<T, RepositoryError>)
        ensures
            insert_outcome(old(self).rows(), final(self).rows(), entity, result),
            final(self).reliable() == old(self).reliable(),
            old(self).reliable() ==> result != Err::<T, RepositoryError>(
                RepositoryError::Infrastructure,
            ),
    ;

    /// Writes the mutable fields of `entity` over the record stored under
    /// `id` and returns the record as stored; fails with
    /// [`RepositoryError::NotFound`] when there is none.
    fn update(&mut self, id: u128, entity: T) -> (result: Result<T, RepositoryError>)
        ensures
            update_outcome(old(self).rows(), final(self).rows(), id, entity, result),
            final(self).reliable() == old(self).reliable(),
            old(self).reliable() ==> result != Err::<T, RepositoryError>(
                RepositoryError::Infrastructure,
            ),
    ;

    /// Removes the record stored under `id` and says whether there was one.
    fn delete(&mut self, id: u128) -> (result: Result<bool, RepositoryError>)
        ensures
            delete_outcome(old(self).rows(), final(self).rows(), id, result),
            final(self).reliable() == old(self).reliable(),
            old(self).reliable() ==> result is Ok,
    ;
}

/// A record that was inserted is read back unchanged under its identifier.
pub proof fn lemma_insert_then_get<T: Record>(
    before: Map<u128, T>,
    after: Map<u128, T>,
    entity: T,
    inserted: Result<T, RepositoryError>,
    found: Result<Option<T>, RepositoryError>,
)
    requires
        insert_outcome(before, after, entity, inserted),
        inserted is Ok,
        get_by_id_outcome(after, inserted->Ok_0.key(), found),
        found is Ok,
    ensures
        found == Ok::<Option<T>, RepositoryError>(Some(entity)),
{
}

/// After a successful update, reading the identifier gives the stored record
/// with the incoming mutable fields written over it.
pub proof fn lemma_update_then_get<T: Record>(
    before: Map<u128, T>,
    after: Map<u128, T>,
    id: u128,
    entity: T,
    updated: Result<T, RepositoryError>,
    found: Result<Option<T>, RepositoryError>,
)
    requires
        update_outcome(before, after, id, entity, updated),
        updated is Ok,
        get_by_id_outcome(after, id, found),
        found is Ok,
    ensures
        before.contains_key(id),
        found == Ok::<Option<T>, RepositoryError>(Some(before[id].overwritten(entity))),
        found == Ok::<Option<T>, RepositoryError>(Some(updated->Ok_0)),
{
}

/// Updating an identifier that is not stored fails and leaves the table as
/// it was; unless the store itself failed, the error is `NotFound`.
pub proof fn lemma_update_missing<T: Record>(
    before: Map<u128, T>,
    after: Map<u128, T>,
    id: u128,
    entity: T,
    updated: Result<T, RepositoryError>,
)
    requires
        update_outcome(before, after, id, entity, updated),
        !before.contains_key(id),
    ensures
        updated is Err,
        after == before,
        updated != Err::<T, RepositoryError>(RepositoryError::Infrastructure) ==> updated == Err::<
            T,
            RepositoryError,
        >(RepositoryError::NotFound),
{
}

/// Deleting a stored identifier returns `true`, and the identifier is then
/// absent; deleting one that is not stored returns `false` and changes
/// nothing.
pub proof fn lemma_delete_then_get<T: Record>(
    before: Map<u128, T>,
    after: Map<u128, T>,
    id: u128,
    deleted: Result<bool, RepositoryError>,
    found: Result<Option<T>, RepositoryError>,
)
    requires
        delete_outcome(before, after, id, deleted),
        deleted is Ok,
        get_by_id_outcome(after, id, found),
        found is Ok,
    ensures
        deleted == Ok::<bool, RepositoryError>(before.contains_key(id)),
        found == Ok::<Option<T>, RepositoryError>(None),
        !before.contains_key(id) ==> after == before,
{
    if !before.contains_key(id) {
        assert(before.remove(id) =~= before);
    }
}

/// The listing grows by exactly one record with each successful insert.
pub proof fn lemma_insert_grows_listing<T: Record>(
    before: Map<u128, T>,
    after: Map<u128, T>,
    entity: T,
    inserted: Result<T, RepositoryError>,
    listed_before: Result<Vec<T>, RepositoryError>,
    listed_after: Result<Vec<T>, RepositoryError>,
)
    requires
        keyed(before),
        insert_outcome(before, after, entity, inserted),
        inserted is Ok,
        get_all_outcome(before, listed_before),
        get_all_outcome(after, listed_after),
        listed_before is Ok,
        listed_after is Ok,
    ensures
        listed_after->Ok_0@.len() == listed_before->Ok_0@.len() + 1,
{
}

/// The listing shrinks by exactly one record with each delete that removed
/// a record, and keeps its size with one that did not.
pub proof fn lemma_delete_shrinks_listing<T: Record>(
    before: Map<u128, T>,
    after: Map<u128, T>,
    id: u128,
    deleted: Result<bool, RepositoryError>,
    listed_before: Result<Vec<T>, RepositoryError>,
    listed_after: Result<Vec<T>, RepositoryError>,
)
    requires
        keyed(before),
        delete_outcome(before, after, id, deleted),
        deleted is Ok,
        get_all_outcome(before, listed_before),
        get_all_outcome(after, listed_after),
        listed_before is Ok,
        listed_after is Ok,
    ensures
        deleted->Ok_0 ==> listed_after->Ok_0@.len() + 1 == listed_before->Ok_0@.len(),
        !deleted->Ok_0 ==> listed_after->Ok_0@.len() == listed_before->Ok_0@.len(),
{
}

/// A successful or failed insert keeps a keyed table keyed.
pub proof fn lemma_insert_keeps_keyed<T: Record>(
    before: Map<u128, T>,
    after: Map<u128, T>,
    entity: T,
    inserted: Result<T, RepositoryError>,
)
    requires
        keyed(before),
        insert_outcome(before, after, entity, inserted),
    ensures
        keyed(after),
{
}

/// A successful or failed update keeps a keyed table keyed.
pub proof fn lemma_update_keeps_keyed<T: Record>(
    before: Map<u128, T>,
    after: Map<u128, T>,
    id: u128,
    entity: T,
    updated: Result<T, RepositoryError>,
)
    requires
        keyed(before),
        update_outcome(before, after, id, entity, updated),
    ensures
        keyed(after),
{
    if updated is Ok {
        before[id].overwritten_keeps_key(entity);
    }
}

/// A successful or failed delete keeps a keyed table keyed.
pub proof fn lemma_delete_keeps_keyed<T: Record>(
    before: Map<u128, T>,
    after: Map<u128, T>,
    id: u128,
    deleted: Result<bool, RepositoryError>,
)
    requires
        keyed(before),
        delete_outcome(before, after, id, deleted),
    ensures
        keyed(after),
{
}

} // verus!
