//! A repository that keeps its table in memory, in insertion order.

use crate::data::repository::{keyed, lists, Record, Repository, RepositoryError};
use crate::entities::todo_entity::TodoEntity;
use vstd::prelude::*;

verus! {

/// No identifier occurs twice in `rows`.
pub open spec fn distinct_ids(rows: Seq<TodoEntity>) -> bool {
    forall|i: int, j: int| 0 <= i < j < rows.len() ==> rows[i].id != rows[j].id
}

/// Whether some record of `rows` has the identifier `id`.
pub open spec fn holds_id(rows: Seq<TodoEntity>, id: u128) -> bool {
    exists|i: int| 0 <= i < rows.len() && #[trigger] rows[i].id == id
}

/// The table that a sequence of records stands for: each record filed under
/// its identifier.
pub open spec fn table_of(rows: Seq<TodoEntity>) -> Map<u128, TodoEntity>
    decreases rows.len(),
{
    if rows.len() == 0 {
        Map::empty()
    } else {
        table_of(rows.drop_last()).insert(rows.last().id, rows.last())
    }
}

/// The table holds exactly the identifiers of the sequence, and, where no
/// identifier occurs twice, each record under its own.
pub proof fn lemma_table_of(rows: Seq<TodoEntity>)
    ensures
        table_of(rows).dom().finite(),
        forall|id: u128| #[trigger] table_of(rows).contains_key(id) <==> holds_id(rows, id),
        distinct_ids(rows) ==> table_of(rows).len() == rows.len(),
        distinct_ids(rows) ==> forall|i: int|
            0 <= i < rows.len() ==> table_of(rows)[#[trigger] rows[i].id] == rows[i],
    decreases rows.len(),
{
    if rows.len() > 0 {
        let front = rows.drop_last();
        let last = rows.last();
        lemma_table_of(front);
        assert forall|id: u128| #[trigger] table_of(rows).contains_key(id) <==> holds_id(
            rows,
            id,
        ) by {
            if holds_id(front, id) {
                let i = choose|i: int| 0 <= i < front.len() && #[trigger] front[i].id == id;
                assert(rows[i].id == id);
            }
            if id == last.id {
                assert(rows[rows.len() - 1].id == id);
            }
            if holds_id(rows, id) && id != last.id {
                let i = choose|i: int| 0 <= i < rows.len() && #[trigger] rows[i].id == id;
                assert(front[i].id == id);
            }
        }
        if distinct_ids(rows) {
            assert(distinct_ids(front)) by {
                assert forall|i: int, j: int| 0 <= i < j < front.len() implies front[i].id
                    != front[j].id by {
                    assert(rows[i].id != rows[j].id);
                }
            }
            assert(!holds_id(front, last.id)) by {
                if holds_id(front, last.id) {
                    let i = choose|i: int|
                        0 <= i < front.len() && #[trigger] front[i].id == last.id;
                    assert(rows[i].id != rows[rows.len() - 1].id);
                }
            }
            assert forall|i: int| 0 <= i < rows.len() implies table_of(rows)[#[trigger] rows[i].id]
                == rows[i] by {
                if i < rows.len() - 1 {
                    assert(front[i] == rows[i]);
                    assert(rows[i].id != rows[rows.len() - 1].id);
                }
            }
        }
    }
}

/// A repository of to-do records held in memory.
///
/// No identifier is stored twice; the type keeps that to itself.
pub struct InMemoryTodoRepository {
    rows: Vec<TodoEntity>,
}

impl InMemoryTodoRepository {
    #[verifier::type_invariant]
    spec fn distinct(&self) -> bool {
        distinct_ids(self.rows@)
    }

    /// An empty repository.
    pub fn new() -> (repository: Self)
        ensures
            repository.sequence() == Seq::<TodoEntity>::empty(),
            repository.rows() == Map::<u128, TodoEntity>::empty(),
    {
        InMemoryTodoRepository { rows: Vec::new() }
    }

    /// The stored records in insertion order.
    pub closed spec fn sequence(&self) -> Seq<TodoEntity> {
        self.rows@
    }

    /// The position of the record with identifier `id`, if one is stored.
    fn position(rows: &Vec<TodoEntity>, id: u128) -> (found: Option<usize>)
        ensures
            match found {
                Some(i) => i < rows@.len() && rows@[i as int].id == id,
                None => !holds_id(rows@, id),
            },
    {
        let mut i: usize = 0;
        while i < rows.len()
            invariant
                i <= rows@.len(),
                forall|k: int| 0 <= k < i ==> rows@[k].id != id,
            decreases rows@.len() - i,
        {
            if rows[i].id == id {
                return Some(i);
            }
            i += 1;
        }
        None
    }

    /// Takes the records out, leaving the repository empty until they are
    /// put back.
    fn take_rows(&mut self) -> (rows: Vec<TodoEntity>)
        ensures
            rows@ == old(self).sequence(),
            distinct_ids(rows@),
    {
        proof {
            use_type_invariant(&*self);
        }
        let mut rows: Vec<TodoEntity> = Vec::new();
        std::mem::swap(&mut rows, &mut self.rows);
        rows
    }
}

/// Appending a record with a new identifier keeps the identifiers distinct
/// and adds the record to the table.
proof fn lemma_push(before: Seq<TodoEntity>, entity: TodoEntity)
    requires
        distinct_ids(before),
        !holds_id(before, entity.id),
    ensures
        distinct_ids(before.push(entity)),
        table_of(before.push(entity)) == table_of(before).insert(entity.id, entity),
{
    let after = before.push(entity);
    assert(after.drop_last() =~= before);
    assert forall|i: int, j: int| 0 <= i < j < after.len() implies after[i].id != after[j].id by {
        if j == after.len() - 1 {
            assert(before[i].id != entity.id);
        } else {
            assert(before[i].id != before[j].id);
        }
    }
}

/// Replacing a record by one with the same identifier keeps the identifiers
/// distinct and replaces the record in the table.
proof fn lemma_replace(before: Seq<TodoEntity>, i: int, entity: TodoEntity)
    requires
        distinct_ids(before),
        0 <= i < before.len(),
        before[i].id == entity.id,
    ensures
        distinct_ids(before.update(i, entity)),
        table_of(before.update(i, entity)) == table_of(before).insert(entity.id, entity),
{
    let after = before.update(i, entity);
    let id = entity.id;
    assert forall|a: int, b: int| 0 <= a < b < after.len() implies after[a].id != after[b].id by {
        assert(before[a].id != before[b].id);
    }
    lemma_table_of(before);
    lemma_table_of(after);
    assert forall|k: u128| #[trigger]
        table_of(after).contains_key(k) <==> table_of(before).insert(id, entity).contains_key(
            k,
        ) by {
        if holds_id(after, k) {
            let a = choose|a: int| 0 <= a < after.len() && #[trigger] after[a].id == k;
            assert(before[a].id == k);
        }
        if holds_id(before, k) {
            let a = choose|a: int| 0 <= a < before.len() && #[trigger] before[a].id == k;
            assert(after[a].id == k);
        }
        if k == id {
            assert(after[i].id == k);
        }
    }
    assert forall|k: u128| #[trigger] table_of(after).contains_key(k) implies table_of(after)[k]
        == table_of(before).insert(id, entity)[k] by {
        let a = choose|a: int| 0 <= a < after.len() && #[trigger] after[a].id == k;
        assert(table_of(after)[after[a].id] == after[a]);
        assert(table_of(before)[before[a].id] == before[a]);
        if a != i {
            if a < i {
                assert(before[a].id != before[i].id);
            } else {
                assert(before[i].id != before[a].id);
            }
        }
    }
    assert(table_of(after) =~= table_of(before).insert(id, entity));
}

/// Taking a record out keeps the identifiers distinct and removes the
/// record's identifier from the table.
proof fn lemma_remove(before: Seq<TodoEntity>, i: int)
    requires
        distinct_ids(before),
        0 <= i < before.len(),
    ensures
        distinct_ids(before.remove(i)),
        table_of(before.remove(i)) == table_of(before).remove(before[i].id),
{
    let after = before.remove(i);
    let id = before[i].id;
    assert forall|a: int, b: int| 0 <= a < b < after.len() implies after[a].id != after[b].id by {
        let a0 = if a < i { a } else { a + 1 };
        let b0 = if b < i { b } else { b + 1 };
        assert(before[a0].id != before[b0].id);
    }
    lemma_table_of(before);
    lemma_table_of(after);
    assert forall|k: u128| #[trigger]
        table_of(after).contains_key(k) <==> table_of(before).remove(id).contains_key(k) by {
        if holds_id(after, k) {
            let a = choose|a: int| 0 <= a < after.len() && #[trigger] after[a].id == k;
            let a0 = if a < i { a } else { a + 1 };
            assert(before[a0].id == k);
            if a0 < i {
                assert(before[a0].id != before[i].id);
            } else {
                assert(before[i].id != before[a0].id);
            }
        }
        if holds_id(before, k) && k != id {
            let a = choose|a: int| 0 <= a < before.len() && #[trigger] before[a].id == k;
            let a1 = if a < i { a } else { a - 1 };
            assert(after[a1].id == k);
        }
    }
    assert forall|k: u128| #[trigger] table_of(after).contains_key(k) implies table_of(after)[k]
        == table_of(before).remove(id)[k] by {
        let a = choose|a: int| 0 <= a < after.len() && #[trigger] after[a].id == k;
        let a0 = if a < i { a } else { a + 1 };
        assert(table_of(after)[after[a].id] == after[a]);
        assert(table_of(before)[before[a0].id] == before[a0]);
    }
    assert(table_of(after) =~= table_of(before).remove(id));
}

/// The table of records with distinct identifiers is keyed, and the
/// records list it.
proof fn lemma_distinct_is_keyed(rows: Seq<TodoEntity>)
    requires
        distinct_ids(rows),
    ensures
        keyed(table_of(rows)),
        lists(table_of(rows), rows),
{
    lemma_table_of(rows);
    assert forall|id: u128| #[trigger] table_of(rows).contains_key(id) implies table_of(
        rows,
    )[id].key() == id by {
        let i = choose|i: int| 0 <= i < rows.len() && #[trigger] rows[i].id == id;
        assert(table_of(rows)[rows[i].id] == rows[i]);
    }
    assert forall|k: int| 0 <= k < rows.len() implies table_of(rows).contains_key(
        #[trigger] rows[k].key(),
    ) && table_of(rows)[rows[k].key()] == rows[k] by {
        assert(rows[k].id == rows[k].key());
        assert(holds_id(rows, rows[k].id));
    }
}

impl Repository<TodoEntity> for InMemoryTodoRepository {
    open spec fn rows(&self) -> Map<u128, TodoEntity> {
        table_of(self.sequence())
    }

    /// Memory does not fail.
    open spec fn reliable(&self) -> bool {
        true
    }

    /// The records come back in insertion order.
    fn get_all(&self) -> (result: Result<Vec<TodoEntity>, RepositoryError>)
        ensures
            result matches Ok(all) && all@ == self.sequence(),
            keyed(self.rows()),
    {
        proof {
            use_type_invariant(&*self);
            lemma_distinct_is_keyed(self.rows@);
        }
        let mut all: Vec<TodoEntity> = Vec::new();
        let mut i: usize = 0;
        while i < self.rows.len()
            invariant
                i <= self.rows@.len(),
                all@ == self.rows@.take(i as int),
            decreases self.rows@.len() - i,
        {
            all.push(self.rows[i].clone());
            assert(self.rows@.take(i as int).push(self.rows@[i as int]) =~= self.rows@.take(
                i + 1,
            ));
            i += 1;
        }
        assert(self.rows@.take(self.rows@.len() as int) =~= self.rows@);
        Ok(all)
    }

    fn get_by_id(&self, id: u128) -> (result: Result<Option<TodoEntity>, RepositoryError>)
        ensures
            keyed(self.rows()),
    {
        proof {
            use_type_invariant(&*self);
            lemma_distinct_is_keyed(self.rows@);
            lemma_table_of(self.rows@);
        }
        match Self::position(&self.rows, id) {
            Some(i) => Ok(Some(self.rows[i].clone())),
            None => Ok(None),
        }
    }

    /// A new record goes to the end.
    fn insert(&mut self, entity: TodoEntity) -> (result: Result<TodoEntity, RepositoryError>)
        ensures
            result is Ok ==> final(self).sequence() == old(self).sequence().push(entity),
            result is Err ==> final(self).sequence() == old(self).sequence(),
            keyed(final(self).rows()),
    {
        let mut rows = self.take_rows();
        proof {
            lemma_table_of(rows@);
            lemma_distinct_is_keyed(rows@);
        }
        match Self::position(&rows, entity.id) {
            Some(_) => {
                self.rows = rows;
                Err(RepositoryError::Conflict)
            },
            None => {
                let stored = entity.clone();
                proof {
                    lemma_push(rows@, entity);
                    lemma_distinct_is_keyed(rows@.push(entity));
                }
                rows.push(entity);
                self.rows = rows;
                Ok(stored)
            },
        }
    }

    /// The record keeps its place.
    fn update(&mut self, id: u128, entity: TodoEntity) -> (result: Result<
        TodoEntity,
        RepositoryError,
    >)
        ensures
            final(self).sequence().len() == old(self).sequence().len(),
            keyed(final(self).rows()),
    {
        let mut rows = self.take_rows();
        proof {
            lemma_table_of(rows@);
            lemma_distinct_is_keyed(rows@);
        }
        match Self::position(&rows, id) {
            None => {
                self.rows = rows;
                Err(RepositoryError::NotFound)
            },
            Some(i) => {
                let mut stored = rows[i].clone();
                stored.overwrite(entity);
                let returned = stored.clone();
                proof {
                    lemma_replace(rows@, i as int, stored);
                    lemma_distinct_is_keyed(rows@.update(i as int, stored));
                }
                rows.set(i, stored);
                self.rows = rows;
                Ok(returned)
            },
        }
    }

    /// The remaining records keep their order.
    fn delete(&mut self, id: u128) -> (result: Result<bool, RepositoryError>)
        ensures
            keyed(final(self).rows()),
    {
        let mut rows = self.take_rows();
        proof {
            lemma_table_of(rows@);
            lemma_distinct_is_keyed(rows@);
        }
        match Self::position(&rows, id) {
            None => {
                proof {
                    assert(table_of(rows@).remove(id) =~= table_of(rows@));
                }
                self.rows = rows;
                Ok(false)
            },
            Some(i) => {
                proof {
                    lemma_remove(rows@, i as int);
                    lemma_distinct_is_keyed(rows@.remove(i as int));
                }
                rows.remove(i);
                self.rows = rows;
                Ok(true)
            },
        }
    }
}

} // verus!
