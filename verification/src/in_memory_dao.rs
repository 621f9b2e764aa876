//! The datastore held in memory: a table for entities of any one type, the
//! three tables of the datastore behind one transaction context, and the
//! three stores that work on them.
//!
//! A context holds the tables while it is out: the durable ones and a copy
//! to work on. `begin` and `rollback` copy the durable tables over the
//! working ones, `commit` the working ones over the durable ones.

use crate::dao::{
    answers, consumed, deactivated_for, deliverable, employee_views, listing, lists_all,
    lists_deliverable, named, none_of, notify_views, sent, several, sole, sole_answering,
    sole_named, DaoResult, Datastore, EmployeeDao, Failure, FailureKind,
    IdentityVerifyRequestDao, NotifyRequestDao, Table, TransactionContext,
    TransactionContextBuilder,
};
use crate::models::{
    EmployeeModel, EmployeeView, IdentityVerifyRequestModel, IdentityVerifyRequestView,
    NotifyRequestModel, NotifyRequestView,
};
use crate::traits::{
    ascending_keys, lists, purged, purged_at, selects, updated, Appliable, Identifiable,
};
use std::collections::HashMap;
use vstd::prelude::*;
use vstd::std_specs::hash::*;

verus! {

broadcast use group_hash_axioms;

/// What an in-memory table reports when it refuses an operation.
#[derive(Debug)]
pub struct InMemoryDaoError {
    code: i32,
    msg: String,
}

impl InMemoryDaoError {
    /// The numeric code of the error.
    pub closed spec fn code(&self) -> i32 {
        self.code
    }

    /// The text of the error.
    pub closed spec fn msg(&self) -> Seq<char> {
        self.msg@
    }

    fn new(code: i32, msg: String) -> (r: Self)
        ensures
            r.code() == code,
            r.msg() == msg@,
    {
        Self { code, msg }
    }

    pub fn get_code(&self) -> (r: i32)
        ensures
            r == self.code(),
    {
        self.code
    }

    pub fn get_msg(&self) -> (r: String)
        ensures
            r@ == self.msg(),
    {
        self.msg.clone()
    }

    pub fn entity_not_found() -> (r: Self)
        ensures
            r.code() == 1000,
            r.msg() == "Entity not found"@,
    {
        Self::new(1000, "Entity not found".to_owned())
    }

    pub fn id_field_must_be_none() -> (r: Self)
        ensures
            r.code() == 2000,
            r.msg() == "The field 'id' must be none"@,
    {
        Self::new(2000, "The field 'id' must be none".to_owned())
    }

    pub fn id_field_must_not_be_none() -> (r: Self)
        ensures
            r.code() == 3000,
            r.msg() == "The field 'id' must not be none"@,
    {
        Self::new(3000, "The field 'id' must not be none".to_owned())
    }

    pub fn more_than_one_entity_found() -> (r: Self)
        ensures
            r.code() == 4000,
            r.msg() == "More than one entity found"@,
    {
        Self::new(4000, "More than one entity found".to_owned())
    }

    /// The error of a table that has handed out its last identifier.
    pub fn id_sequence_exhausted() -> (r: Self)
        ensures
            r.code() == 5000,
            r.msg() == "No identifier is left"@,
    {
        Self::new(5000, "No identifier is left".to_owned())
    }

    /// The error of a datastore whose one context is out.
    pub fn datastore_in_use() -> (r: Self)
        ensures
            r.code() == 6000,
            r.msg() == "The datastore is in use"@,
    {
        Self::new(6000, "The datastore is in use".to_owned())
    }
}

impl Failure for InMemoryDaoError {
    open spec fn spec_kind(&self) -> FailureKind {
        if self.code() == 1000 {
            FailureKind::NotFound
        } else if self.code() == 4000 {
            FailureKind::MoreThanOne
        } else {
            FailureKind::Other
        }
    }

    fn kind(&self) -> (r: FailureKind) {
        if self.code == 1000 {
            FailureKind::NotFound
        } else if self.code == 4000 {
            FailureKind::MoreThanOne
        } else {
            FailureKind::Other
        }
    }
}

/// A table of entities keyed by identifiers that the table hands out itself,
/// counting up from 1.
pub struct InMemoryDb<EntityModelType> {
    id_seq: i32,
    entities: HashMap<i32, EntityModelType>,
}

impl<EntityModelType> View for InMemoryDb<EntityModelType> {
    type V = Map<i32, EntityModelType>;

    closed spec fn view(&self) -> Map<i32, EntityModelType> {
        self.entities@
    }
}

impl<EntityModelType> InMemoryDb<EntityModelType> {
    /// The identifier handed out last, 0 before the first.
    pub closed spec fn last_id(&self) -> int {
        self.id_seq as int
    }

    /// Every key is an identifier that the table has handed out.
    pub open spec fn wf(&self) -> bool {
        &&& 0 <= self.last_id() <= i32::MAX
        &&& self@.dom().finite()
        &&& forall|k: i32| #[trigger] self@.contains_key(k) ==> 1 <= k <= self.last_id()
    }
}

impl<EntityModelType> InMemoryDb<EntityModelType> where
    EntityModelType: Identifiable + Appliable<EntityModelType> + Clone,
 {
    pub fn new() -> (r: Self)
        ensures
            r@ == Map::<i32, EntityModelType>::empty(),
            r.last_id() == 0,
            r.wf(),
    {
        Self { id_seq: 0, entities: HashMap::new() }
    }

    pub fn count(&self) -> (r: usize)
        ensures
            r == self@.len(),
    {
        self.entities.len()
    }

    /// Stores `values` under the next identifier and writes that identifier
    /// into it.
    pub fn insert_into(&mut self, values: EntityModelType) -> (r: Result<(), InMemoryDaoError>)
        requires
            old(self).wf(),
        ensures
            final(self).wf(),
            match r {
                Ok(_) => {
                    let id = (old(self).last_id() + 1) as i32;
                    &&& values.spec_id() is None
                    &&& old(self).last_id() < i32::MAX
                    &&& final(self).last_id() == id
                    &&& final(self)@ == old(self)@.insert(id, values.with_id(id))
                    &&& !old(self)@.contains_key(id)
                },
                Err(e) => {
                    &&& final(self)@ == old(self)@
                    &&& final(self).last_id() == old(self).last_id()
                    &&& values.spec_id() is Some ==> e.code() == 2000
                    &&& values.spec_id() is None ==> e.code() == 5000 && old(self).last_id()
                        == i32::MAX
                },
            },
    {
        if values.id().is_some() {
            return Err(InMemoryDaoError::id_field_must_be_none());
        }
        if self.id_seq == i32::MAX {
            return Err(InMemoryDaoError::id_sequence_exhausted());
        }
        self.id_seq = self.id_seq + 1;
        let id: i32 = self.id_seq;
        let mut values = values;
        values.set_id(id);
        self.entities.insert(id, values);
        Ok(())
    }

    /// Applies `set_values` to every entity that `predicate` accepts.
    pub fn update<P: Fn(&EntityModelType) -> bool>(
        &mut self,
        set_values: EntityModelType,
        predicate: P,
    ) -> (r: Result<(), InMemoryDaoError>)
        requires
            old(self).wf(),
            forall|k: i32|
                old(self)@.contains_key(k) ==> call_requires(predicate, (&#[trigger] old(self)@[k],)),
        ensures
            r is Ok,
            final(self).wf(),
            final(self).last_id() == old(self).last_id(),
            final(self)@.dom() == old(self)@.dom(),
            forall|k: i32|
                old(self)@.contains_key(k) ==> updated(
                    predicate,
                    set_values,
                    old(self)@[k],
                    #[trigger] final(self)@[k],
                ),
    {
        let mut id: i32 = 0;
        while id < self.id_seq
            invariant
                self.wf(),
                0 <= id <= self.id_seq,
                self.id_seq == old(self).id_seq,
                self@.dom() == old(self)@.dom(),
                forall|k: i32|
                    old(self)@.contains_key(k) ==> call_requires(
                        predicate,
                        (&#[trigger] old(self)@[k],),
                    ),
                forall|k: i32|
                    old(self)@.contains_key(k) && k <= id ==> updated(
                        predicate,
                        set_values,
                        old(self)@[k],
                        #[trigger] self@[k],
                    ),
                forall|k: i32|
                    old(self)@.contains_key(k) && k > id ==> #[trigger] self@[k] == old(self)@[k],
            decreases self.id_seq - id,
        {
            id = id + 1;
            let ghost before = self@;
            match self.entities.remove(&id) {
                Some(entity) => {
                    let mut entity = entity;
                    if predicate(&entity) {
                        entity.apply(&set_values);
                    }
                    self.entities.insert(id, entity);
                    assert(self@.dom() =~= before.dom());
                },
                None => {
                    assert(self@ =~= before);
                },
            }
        }
        Ok(())
    }

    /// Applies `set_values` to the entity stored under `id`.
    pub(crate) fn update_entity(&mut self, id: i32, set_values: &EntityModelType) -> (r: Result<
        (),
        InMemoryDaoError,
    >)
        requires
            old(self).wf(),
        ensures
            final(self).wf(),
            final(self).last_id() == old(self).last_id(),
            match r {
                Ok(_) => {
                    &&& old(self)@.contains_key(id)
                    &&& final(self)@ == old(self)@.insert(id, old(self)@[id].applied(*set_values))
                },
                Err(e) => {
                    &&& final(self)@ == old(self)@
                    &&& e.code() == 1000
                    &&& !old(self)@.contains_key(id)
                },
            },
    {
        match self.entities.remove(&id) {
            Some(entity) => {
                let mut entity = entity;
                entity.apply(set_values);
                self.entities.insert(id, entity);
                Ok(())
            },
            None => {
                assert(self@ =~= old(self)@);
                Err(InMemoryDaoError::entity_not_found())
            },
        }
    }

    /// Applies `set_values` to the entity whose identifier it carries.
    pub fn update_one(&mut self, set_values: EntityModelType) -> (r: Result<(), InMemoryDaoError>)
        requires
            old(self).wf(),
        ensures
            final(self).wf(),
            final(self).last_id() == old(self).last_id(),
            match r {
                Ok(_) => {
                    &&& set_values.spec_id() matches Some(id)
                    &&& old(self)@.contains_key(id)
                    &&& final(self)@ == old(self)@.insert(id, old(self)@[id].applied(set_values))
                },
                Err(e) => {
                    &&& final(self)@ == old(self)@
                    &&& set_values.spec_id() is None ==> e.code() == 3000
                    &&& set_values.spec_id() matches Some(id) ==> e.code() == 1000 && !old(
                        self,
                    )@.contains_key(id)
                },
            },
    {
        let id: i32 = match set_values.id() {
            Some(id) => id,
            None => {
                return Err(InMemoryDaoError::id_field_must_not_be_none());
            },
        };
        self.update_entity(id, &set_values)
    }

    /// Removes every entity that `predicate` accepts.
    pub(crate) fn delete_where<P: Fn(&EntityModelType) -> bool>(&mut self, predicate: P) -> (r:
        Result<(), InMemoryDaoError>)
        requires
            old(self).wf(),
            forall|k: i32|
                old(self)@.contains_key(k) ==> call_requires(predicate, (&#[trigger] old(self)@[k],)),
        ensures
            r is Ok,
            final(self).wf(),
            final(self).last_id() == old(self).last_id(),
            purged(predicate, old(self)@, final(self)@),
    {
        let mut id: i32 = 0;
        while id < self.id_seq
            invariant
                self.wf(),
                0 <= id <= self.id_seq,
                self.id_seq == old(self).id_seq,
                forall|k: i32|
                    old(self)@.contains_key(k) ==> call_requires(
                        predicate,
                        (&#[trigger] old(self)@[k],),
                    ),
                forall|k: i32| #[trigger] self@.contains_key(k) ==> old(self)@.contains_key(k),
                forall|k: i32|
                    #[trigger] old(self)@.contains_key(k) && k <= id ==> purged_at(
                        predicate,
                        old(self)@,
                        self@,
                        k,
                    ),
                forall|k: i32|
                    #[trigger] old(self)@.contains_key(k) && k > id ==> self@.contains_key(k)
                        && self@[k] == old(self)@[k],
            decreases self.id_seq - id,
        {
            id = id + 1;
            let ghost before = self@;
            let accepted = match self.entities.get(&id) {
                Some(entity) => predicate(entity),
                None => false,
            };
            if accepted {
                self.entities.remove(&id);
            }
        }
        Ok(())
    }

    /// Removes the entity stored under `id`, if there is one.
    pub fn delete(&mut self, id: i32) -> (r: Result<(), InMemoryDaoError>)
        requires
            old(self).wf(),
        ensures
            r is Ok,
            final(self).wf(),
            final(self).last_id() == old(self).last_id(),
            final(self)@ == old(self)@.remove(id),
    {
        self.entities.remove(&id);
        Ok(())
    }

    /// A clone of the entity stored under `id`.
    pub fn get_one_by_id(&self, id: i32) -> (r: Result<EntityModelType, InMemoryDaoError>)
        ensures
            match r {
                Ok(entity) => self@.contains_key(id) && cloned(self@[id], entity),
                Err(e) => !self@.contains_key(id) && e.code() == 1000,
            },
    {
        match self.entities.get(&id) {
            Some(entity) => Ok(entity.clone()),
            None => Err(InMemoryDaoError::entity_not_found()),
        }
    }

    /// Clones of the entities that `predicate` accepts, by ascending
    /// identifier.
    pub fn get<P: Fn(&EntityModelType) -> bool>(&self, predicate: P) -> (r: Result<
        Vec<EntityModelType>,
        InMemoryDaoError,
    >)
        requires
            self.wf(),
            forall|k: i32| self@.contains_key(k) ==> call_requires(predicate, (&#[trigger] self@[k],)),
        ensures
            r is Ok,
            exists|ids: Seq<i32>| #[trigger] selects(self@, predicate, ids, r->Ok_0@),
    {
        let mut results: Vec<EntityModelType> = Vec::new();
        let ghost mut ids: Seq<i32> = Seq::empty();
        let mut id: i32 = 0;
        while id < self.id_seq
            invariant
                self.wf(),
                0 <= id <= self.id_seq,
                forall|k: i32|
                    self@.contains_key(k) ==> call_requires(predicate, (&#[trigger] self@[k],)),
                ascending_keys(self@, ids),
                forall|i: int| 0 <= i < ids.len() ==> #[trigger] ids[i] <= id,
                results@.len() == ids.len(),
                forall|i: int|
                    0 <= i < ids.len() ==> cloned(self@[ids[i]], #[trigger] results@[i])
                        && call_ensures(predicate, (&self@[ids[i]],), true),
                forall|k: i32|
                    #[trigger] self@.contains_key(k) && k <= id && !ids.contains(k) ==> call_ensures(
                        predicate,
                        (&self@[k],),
                        false,
                    ),
            decreases self.id_seq - id,
        {
            id = id + 1;
            match self.entities.get(&id) {
                Some(entity) => {
                    assert(self@[id] == *entity);
                    let ghost prev = ids;
                    if predicate(entity) {
                        let copy = entity.clone();
                        results.push(copy);
                        proof {
                            ids = ids.push(id);
                            assert(ids[ids.len() - 1] == id);
                        }
                    }
                    assert forall|k: i32| #[trigger]
                        self@.contains_key(k) && k <= id && !ids.contains(k) implies call_ensures(
                        predicate,
                        (&self@[k],),
                        false,
                    ) by {
                        if k != id {
                            if prev.contains(k) {
                                let i = choose|i: int| 0 <= i < prev.len() && prev[i] == k;
                                assert(ids[i] == k);
                            }
                        }
                    }
                },
                None => {},
            }
        }
        assert(selects(self@, predicate, ids, results@)) by {
            assert forall|k: i32| #[trigger]
                self@.contains_key(k) && !ids.contains(k) implies call_ensures(
                predicate,
                (&self@[k],),
                false,
            ) by {
                assert(k <= id);
            }
            assert forall|i: int| 0 <= i < ids.len() implies cloned(
                self@[ids[i]],
                #[trigger] results@[i],
            ) && call_ensures(predicate, (&self@[ids[i]],), true) by {}
        }
        let r: Result<Vec<EntityModelType>, InMemoryDaoError> = Ok(results);
        assert(selects(self@, predicate, ids, r->Ok_0@));
        r
    }

    /// A clone of the one entity that `predicate` accepts.
    pub fn get_one<P: Fn(&EntityModelType) -> bool>(&self, predicate: P) -> (r: Result<
        EntityModelType,
        InMemoryDaoError,
    >)
        requires
            self.wf(),
            forall|k: i32| self@.contains_key(k) ==> call_requires(predicate, (&#[trigger] self@[k],)),
        ensures
            match r {
                Ok(entity) => exists|ids: Seq<i32>| #[trigger]
                    selects(self@, predicate, ids, seq![entity]),
                Err(e) => exists|ids: Seq<i32>, found: Seq<EntityModelType>|
                    {
                        &&& #[trigger] selects(self@, predicate, ids, found)
                        &&& ids.len() != 1
                        &&& ids.len() == 0 ==> e.code() == 1000
                        &&& ids.len() > 1 ==> e.code() == 4000
                    },
            },
    {
        let found_entities = match self.get(predicate) {
            Ok(found) => found,
            Err(e) => {
                return Err(e);
            },
        };
        let ghost found = found_entities@;
        let ghost ids = choose|ids: Seq<i32>| selects(self@, predicate, ids, found);
        if found_entities.len() == 0 {
            return Err(InMemoryDaoError::entity_not_found());
        }
        if found_entities.len() > 1 {
            return Err(InMemoryDaoError::more_than_one_entity_found());
        }
        let mut found_entities = found_entities;
        match found_entities.pop() {
            Some(entity) => {
                assert(seq![entity] =~= found);
                let r: Result<EntityModelType, InMemoryDaoError> = Ok(entity);
                assert(selects(self@, predicate, ids, seq![r->Ok_0]));
                r
            },
            None => Err(InMemoryDaoError::entity_not_found()),
        }
    }

    /// Clones of all entities, by ascending identifier.
    pub fn get_all(&self) -> (r: Result<Vec<EntityModelType>, InMemoryDaoError>)
        requires
            self.wf(),
        ensures
            r is Ok,
            exists|ids: Seq<i32>| #[trigger] lists(self@, ids, r->Ok_0@),
    {
        let mut results: Vec<EntityModelType> = Vec::new();
        let ghost mut ids: Seq<i32> = Seq::empty();
        let mut id: i32 = 0;
        while id < self.id_seq
            invariant
                self.wf(),
                0 <= id <= self.id_seq,
                ascending_keys(self@, ids),
                forall|i: int| 0 <= i < ids.len() ==> #[trigger] ids[i] <= id,
                results@.len() == ids.len(),
                forall|i: int| 0 <= i < ids.len() ==> cloned(self@[ids[i]], #[trigger] results@[i]),
                forall|k: i32| #[trigger] self@.contains_key(k) && k <= id ==> ids.contains(k),
            decreases self.id_seq - id,
        {
            id = id + 1;
            match self.entities.get(&id) {
                Some(entity) => {
                    let copy = entity.clone();
                    results.push(copy);
                    proof {
                        let ghost prev = ids;
                        ids = ids.push(id);
                        assert forall|k: i32| #[trigger]
                            self@.contains_key(k) && k <= id implies ids.contains(k) by {
                            if k == id {
                                assert(ids[ids.len() - 1] == k);
                            } else {
                                let i = choose|i: int| 0 <= i < prev.len() && prev[i] == k;
                                assert(ids[i] == k);
                            }
                        }
                    }
                },
                None => {},
            }
        }
        assert(lists(self@, ids, results@)) by {
            assert forall|k: i32| #[trigger] self@.contains_key(k) implies ids.contains(k) by {
                assert(k <= id);
            }
        }
        let r: Result<Vec<EntityModelType>, InMemoryDaoError> = Ok(results);
        assert(lists(self@, ids, r->Ok_0@));
        r
    }
}

impl<EntityModelType: Clone> Clone for InMemoryDb<EntityModelType> {
    fn clone(&self) -> (r: Self)
        ensures
            r@ == self@,
            r.last_id() == self.last_id(),
    {
        InMemoryDb { id_seq: self.id_seq, entities: self.entities.clone() }
    }
}

/// The table that `db` stands for.
spec fn table_of<E: View>(db: InMemoryDb<E>) -> Table<E::V> {
    Table { rows: db@.map_values(|m: E| m@), last_id: db.last_id() }
}

/// The table that `db` stands for has the keys of `db`.
proof fn table_of_dom<E: View>(db: InMemoryDb<E>)
    ensures
        table_of(db).rows.dom() == db@.dom(),
        forall|k: i32| #[trigger] db@.contains_key(k) ==> table_of(db).rows[k] == db@[k]@,
{
    assert(table_of(db).rows.dom() =~= db@.dom());
}

/// The table that a well-formed `db` stands for has the keys of `db`, and
/// under each what the entity of `db` holds.
proof fn table_of_rows<E: View>(db: InMemoryDb<E>)
    requires
        db.wf(),
    ensures
        table_of(db).in_range(),
        table_of(db).rows.dom() == db@.dom(),
        forall|k: i32| #[trigger] db@.contains_key(k) ==> table_of(db).rows[k] == db@[k]@,
{
    assert(table_of(db).rows.dom() =~= db@.dom());
}

/// The three tables of the in-memory datastore.
struct InMemoryTables {
    employees: InMemoryDb<EmployeeModel>,
    requests: InMemoryDb<IdentityVerifyRequestModel>,
    notifications: InMemoryDb<NotifyRequestModel>,
}

impl View for InMemoryTables {
    type V = Datastore;

    closed spec fn view(&self) -> Datastore {
        Datastore {
            employees: table_of(self.employees),
            requests: table_of(self.requests),
            notifications: table_of(self.notifications),
        }
    }
}

impl InMemoryTables {
    /// Every row carries the identifier it is stored under.
    spec fn wf(&self) -> bool {
        &&& self.employees.wf()
        &&& self.requests.wf()
        &&& self.notifications.wf()
        &&& forall|k: i32| #[trigger]
            self.employees@.contains_key(k) ==> self.employees@[k].id == Some(k)
        &&& forall|k: i32| #[trigger]
            self.requests@.contains_key(k) ==> self.requests@[k].id == Some(k)
        &&& forall|k: i32| #[trigger]
            self.notifications@.contains_key(k) ==> self.notifications@[k].id == Some(k)
    }

    /// The tables are well-formed where the datastore they stand for is.
    proof fn wf_view(&self)
        ensures
            self.wf() <==> self@.wf(),
    {
        table_of_dom(self.employees);
        table_of_dom(self.requests);
        table_of_dom(self.notifications);
        if self.wf() {
            table_of_rows(self.employees);
            table_of_rows(self.requests);
            table_of_rows(self.notifications);
        }
        if self@.wf() {
            assert forall|k: i32| #[trigger] self.employees@.contains_key(k) implies 1 <= k
                <= self.employees.last_id() && self.employees@[k].id == Some(k) by {
                assert(self@.employees.rows.contains_key(k));
            }
            assert forall|k: i32| #[trigger] self.requests@.contains_key(k) implies 1 <= k
                <= self.requests.last_id() && self.requests@[k].id == Some(k) by {
                assert(self@.requests.rows.contains_key(k));
            }
            assert forall|k: i32| #[trigger] self.notifications@.contains_key(k) implies 1 <= k
                <= self.notifications.last_id() && self.notifications@[k].id == Some(k) by {
                assert(self@.notifications.rows.contains_key(k));
            }
        }
    }

    fn new() -> (r: Self)
        ensures
            r.wf(),
            r@ == Datastore::empty(),
    {
        let r = InMemoryTables {
            employees: InMemoryDb::new(),
            requests: InMemoryDb::new(),
            notifications: InMemoryDb::new(),
        };
        proof {
            assert(table_of(r.employees).rows =~= Map::empty());
            assert(table_of(r.requests).rows =~= Map::empty());
            assert(table_of(r.notifications).rows =~= Map::empty());
        }
        r
    }
}

impl Clone for InMemoryTables {
    fn clone(&self) -> (r: Self)
        ensures
            r@ == self@,
    {
        InMemoryTables {
            employees: self.employees.clone(),
            requests: self.requests.clone(),
            notifications: self.notifications.clone(),
        }
    }
}

/// A unit of work on the in-memory datastore. It holds the tables while it
/// lasts: the durable ones, and a copy to work on.
pub struct InMemoryTransactionContext {
    durable: InMemoryTables,
    working: InMemoryTables,
}

impl TransactionContext for InMemoryTransactionContext {
    type ErrorType = InMemoryDaoError;

    open spec fn modelled(&self) -> bool {
        true
    }

    closed spec fn durable(&self) -> Datastore {
        self.durable@
    }

    closed spec fn working(&self) -> Datastore {
        self.working@
    }

    open spec fn dependable() -> bool {
        true
    }

    fn begin(&mut self) -> (r: DaoResult<(), Self::ErrorType>) {
        proof {
            self.durable.wf_view();
            self.working.wf_view();
        }
        self.working = self.durable.clone();
        proof {
            self.durable.wf_view();
            self.working.wf_view();
        }
        Ok(())
    }

    fn commit(&mut self) -> (r: DaoResult<(), Self::ErrorType>) {
        proof {
            self.durable.wf_view();
            self.working.wf_view();
        }
        self.durable = self.working.clone();
        proof {
            self.durable.wf_view();
            self.working.wf_view();
        }
        Ok(())
    }

    fn rollback(&mut self) -> (r: DaoResult<(), Self::ErrorType>) {
        proof {
            self.durable.wf_view();
            self.working.wf_view();
        }
        self.working = self.durable.clone();
        proof {
            self.durable.wf_view();
            self.working.wf_view();
        }
        Ok(())
    }
}

/// The in-memory datastore. It has one context to lend.
pub struct InMemoryTransactionContextBuilder {
    tables: Option<InMemoryTables>,
}

impl InMemoryTransactionContextBuilder {
    /// An empty datastore.
    pub fn new() -> (r: Self)
        ensures
            r.idle(),
            r.datastore() == Datastore::empty(),
            r.datastore().wf(),
    {
        let tables = InMemoryTables::new();
        proof {
            tables.wf_view();
        }
        InMemoryTransactionContextBuilder { tables: Some(tables) }
    }
}

impl TransactionContextBuilder<InMemoryTransactionContext> for InMemoryTransactionContextBuilder {
    closed spec fn idle(&self) -> bool {
        self.tables is Some
    }

    closed spec fn datastore(&self) -> Datastore {
        match self.tables {
            Some(tables) => tables@,
            None => Datastore::empty(),
        }
    }

    open spec fn dependable() -> bool {
        true
    }

    fn build(&mut self) -> (r: DaoResult<InMemoryTransactionContext, InMemoryDaoError>)
        ensures
            r is Ok <==> old(self).idle(),
            r is Ok ==> !final(self).idle(),
            r matches Err(e) ==> e.code() == 6000,
    {
        match self.tables.take() {
            Some(tables) => {
                proof {
                    tables.wf_view();
                }
                let transaction_context = InMemoryTransactionContext {
                    durable: tables.clone(),
                    working: tables,
                };
                proof {
                    transaction_context.durable.wf_view();
                }
                Ok(transaction_context)
            },
            None => Err(InMemoryDaoError::datastore_in_use()),
        }
    }

    fn release(&mut self, transaction_context: InMemoryTransactionContext) {
        self.tables = Some(transaction_context.durable);
    }
}

/// What a lookup in `db` found, read as a lookup in the table that `db`
/// stands for: `p` says of what a row holds what `predicate` says of the
/// entity.
proof fn selects_rows<E: View + Clone, P: Fn(&E) -> bool>(
    db: InMemoryDb<E>,
    predicate: P,
    ids: Seq<i32>,
    found: Seq<E>,
    p: spec_fn(E::V) -> bool,
)
    requires
        db.wf(),
        selects(db@, predicate, ids, found),
        forall|e: E, b: bool| call_ensures(predicate, (&e,), b) ==> b == p(e@),
        forall|a: E, b: E| cloned(a, b) ==> a == b,
    ensures
        ids.len() == 0 ==> none_of(table_of(db).rows, p),
        ids.len() == 1 ==> sole(table_of(db).rows, p, ids[0]) && found[0] == db@[ids[0]]
            && found[0]@ == table_of(db).rows[ids[0]],
        ids.len() > 1 ==> several(table_of(db).rows, p),
        listing(table_of(db).rows, p, ids, found.map_values(|m: E| m@)),
{
    table_of_rows(db);
    let rows = table_of(db).rows;
    assert forall|i: int| 0 <= i < ids.len() implies rows.contains_key(#[trigger] ids[i]) && p(
        rows[ids[i]],
    ) && found[i] == db@[ids[i]] by {
        assert(cloned(db@[ids[i]], found[i]));
    }
    assert forall|k: i32| #[trigger] rows.contains_key(k) && p(rows[k]) implies ids.contains(
        k,
    ) by {
        assert(db@.contains_key(k));
    }
    if ids.len() == 0 {
        assert forall|j: i32| #[trigger] rows.contains_key(j) implies !p(rows[j]) by {
            assert(db@.contains_key(j));
            assert(!ids.contains(j));
        }
    }
    if ids.len() == 1 {
        assert forall|j: i32| #[trigger] rows.contains_key(j) && p(rows[j]) implies j == ids[0] by {
            assert(ids.contains(j));
        }
    }
    if ids.len() > 1 {
        assert(rows.contains_key(ids[0]) && rows.contains_key(ids[1]));
        assert(ids[0] < ids[1]);
    }
}

/// A list of all of `db`, read as a list of the table that `db` stands for.
proof fn lists_rows<E: View + Clone>(db: InMemoryDb<E>, ids: Seq<i32>, found: Seq<E>)
    requires
        db.wf(),
        lists(db@, ids, found),
        forall|a: E, b: E| cloned(a, b) ==> a == b,
    ensures
        lists_all(table_of(db).rows, ids, found.map_values(|m: E| m@)),
{
    table_of_rows(db);
    let rows = table_of(db).rows;
    let views = found.map_values(|m: E| m@);
    assert forall|i: int| 0 <= i < ids.len() implies rows.contains_key(#[trigger] ids[i])
        && views[i] == rows[ids[i]] by {
        assert(cloned(db@[ids[i]], found[i]));
    }
    assert forall|k: i32| #[trigger] rows.contains_key(k) implies ids.contains(k) by {
        assert(db@.contains_key(k));
    }
}

/// The employee directory of the in-memory datastore.
pub struct InMemoryEmployeeDao {}

impl InMemoryEmployeeDao {
    pub fn new() -> Self {
        Self {}
    }
}

impl EmployeeDao for InMemoryEmployeeDao {
    type ErrorType = InMemoryDaoError;

    type TransactionContextType = InMemoryTransactionContext;

    open spec fn dependable() -> bool {
        true
    }

    fn insert_into(
        &mut self,
        transaction_context: &mut InMemoryTransactionContext,
        employee_model: EmployeeModel,
    ) -> (r: DaoResult<(), InMemoryDaoError>)
        ensures
            r is Err ==> final(transaction_context).working() == old(
                transaction_context,
            ).working(),
            r matches Err(e) ==> e.code() == if employee_model.id is Some {
                2000i32
            } else {
                5000i32
            },
    {
        proof {
            transaction_context.durable.wf_view();
            transaction_context.working.wf_view();
        }
        let ghost before = transaction_context.working.employees;
        let r = transaction_context.working.employees.insert_into(employee_model);
        proof {
            let after = transaction_context.working.employees;
            if r is Ok {
                assert(table_of(after).rows =~= table_of(before).rows.insert(
                    table_of(before).next_id(),
                    employee_model@.with_id(table_of(before).next_id()),
                ));
            }
            transaction_context.working.wf_view();
        }
        r
    }

    fn update(
        &mut self,
        transaction_context: &mut InMemoryTransactionContext,
        employee_model: EmployeeModel,
    ) -> (r: DaoResult<(), InMemoryDaoError>)
        ensures
            r is Err ==> final(transaction_context).working() == old(
                transaction_context,
            ).working(),
            r matches Err(e) ==> e.code() == if employee_model.id is Some {
                1000i32
            } else {
                3000i32
            },
    {
        proof {
            transaction_context.durable.wf_view();
            transaction_context.working.wf_view();
        }
        let ghost before = transaction_context.working.employees;
        let r = transaction_context.working.employees.update_one(employee_model);
        proof {
            let after = transaction_context.working.employees;
            table_of_rows(before);
            if r is Ok {
                let id = employee_model.id->Some_0;
                assert(table_of(after).rows =~= table_of(before).rows.insert(
                    id,
                    table_of(before).rows[id].applied(employee_model@),
                ));
            }
            transaction_context.working.wf_view();
        }
        r
    }

    fn delete(&mut self, transaction_context: &mut InMemoryTransactionContext, id: i32) -> (r:
        DaoResult<(), InMemoryDaoError>) {
        proof {
            transaction_context.durable.wf_view();
            transaction_context.working.wf_view();
        }
        let ghost before = transaction_context.working.employees;
        let r = transaction_context.working.employees.delete(id);
        proof {
            let after = transaction_context.working.employees;
            assert(table_of(after).rows =~= table_of(before).rows.remove(id));
            transaction_context.working.wf_view();
        }
        r
    }

    fn get_by_username(
        &self,
        transaction_context: &mut InMemoryTransactionContext,
        username: String,
    ) -> (r: DaoResult<EmployeeModel, InMemoryDaoError>)
        ensures
            final(transaction_context).working() == old(transaction_context).working(),
            r matches Err(e) ==> e.code() == 1000 || e.code() == 4000,
    {
        proof {
            transaction_context.durable.wf_view();
            transaction_context.working.wf_view();
        }
        let by_username = |employee: &EmployeeModel| -> (b: bool)
            ensures
                b == named(employee@, username@),
            {
                match &employee.username {
                    Some(name) => *name == username,
                    None => false,
                }
            };
        let r = transaction_context.working.employees.get_one(by_username);
        proof {
            let db = transaction_context.working.employees;
            let p = |e: EmployeeView| named(e, username@);
            if r is Ok {
                let employee = r->Ok_0;
                let ids = choose|ids: Seq<i32>| selects(db@, by_username, ids, seq![employee]);
                selects_rows(db, by_username, ids, seq![employee], p);
                assert(sole_named(
                    old(transaction_context).working().employees.rows,
                    username@,
                    ids[0],
                ));
            } else {
                let e = r->Err_0;
                let (ids, found) = choose|ids: Seq<i32>, found: Seq<EmployeeModel>|
                    {
                        &&& #[trigger] selects(db@, by_username, ids, found)
                        &&& ids.len() != 1
                        &&& ids.len() == 0 ==> e.code() == 1000
                        &&& ids.len() > 1 ==> e.code() == 4000
                    };
                selects_rows(db, by_username, ids, found, p);
            }
            transaction_context.working.wf_view();
        }
        r
    }

    fn get_one(&self, transaction_context: &mut InMemoryTransactionContext, id: i32) -> (r:
        DaoResult<EmployeeModel, InMemoryDaoError>)
        ensures
            final(transaction_context).working() == old(transaction_context).working(),
            r matches Err(e) ==> e.code() == 1000,
    {
        proof {
            transaction_context.durable.wf_view();
            transaction_context.working.wf_view();
            table_of_rows(transaction_context.working.employees);
        }
        transaction_context.working.employees.get_one_by_id(id)
    }

    fn get_all(&self, transaction_context: &mut InMemoryTransactionContext) -> (r: DaoResult<
        Vec<EmployeeModel>,
        InMemoryDaoError,
    >)
        ensures
            r is Ok,
            exists|ids: Seq<i32>|
                ascending_keys(old(transaction_context).working().employees.rows, ids)
                    && #[trigger] lists_all(
                    old(transaction_context).working().employees.rows,
                    ids,
                    employee_views(r->Ok_0@),
                ),
    {
        proof {
            transaction_context.durable.wf_view();
            transaction_context.working.wf_view();
        }
        let r = transaction_context.working.employees.get_all();
        proof {
            let db = transaction_context.working.employees;
            let found = r->Ok_0@;
            let ids = choose|ids: Seq<i32>| lists(db@, ids, found);
            lists_rows(db, ids, found);
            table_of_dom(db);
            assert(ascending_keys(old(transaction_context).working().employees.rows, ids));
            assert(lists_all(
                old(transaction_context).working().employees.rows,
                ids,
                employee_views(r->Ok_0@),
            ));
            transaction_context.working.wf_view();
        }
        r
    }
}

/// The store of verification challenges of the in-memory datastore.
pub struct InMemoryIdentityVerifyRequestDao {}

impl InMemoryIdentityVerifyRequestDao {
    pub fn new() -> Self {
        Self {}
    }
}

impl IdentityVerifyRequestDao for InMemoryIdentityVerifyRequestDao {
    type ErrorType = InMemoryDaoError;

    type TransactionContextType = InMemoryTransactionContext;

    open spec fn dependable() -> bool {
        true
    }

    fn insert_into(
        &mut self,
        transaction_context: &mut InMemoryTransactionContext,
        id_verify_req_model: IdentityVerifyRequestModel,
    ) -> (r: DaoResult<(), InMemoryDaoError>)
        ensures
            r is Err ==> final(transaction_context).working() == old(
                transaction_context,
            ).working(),
            r matches Err(e) ==> e.code() == if id_verify_req_model.id is Some {
                2000i32
            } else {
                5000i32
            },
    {
        proof {
            transaction_context.durable.wf_view();
            transaction_context.working.wf_view();
        }
        let ghost before = transaction_context.working.requests;
        let r = transaction_context.working.requests.insert_into(id_verify_req_model);
        proof {
            let after = transaction_context.working.requests;
            if r is Ok {
                assert(table_of(after).rows =~= table_of(before).rows.insert(
                    table_of(before).next_id(),
                    id_verify_req_model@.with_id(table_of(before).next_id()),
                ));
            }
            transaction_context.working.wf_view();
        }
        r
    }

    fn deactivate_all_requests(
        &mut self,
        transaction_context: &mut InMemoryTransactionContext,
        employee_id: i32,
    ) -> (r: DaoResult<(), InMemoryDaoError>) {
        proof {
            transaction_context.durable.wf_view();
            transaction_context.working.wf_view();
        }
        let mut set_values = IdentityVerifyRequestModel::empty();
        set_values.active = Some(false);
        let of_employee = |request: &IdentityVerifyRequestModel| -> (b: bool)
            ensures
                b == (request.employee_id == Some(employee_id)),
            {
                match request.employee_id {
                    Some(id) => id == employee_id,
                    None => false,
                }
            };
        let ghost before = transaction_context.working.requests;
        let r = transaction_context.working.requests.update(set_values, of_employee);
        proof {
            let after = transaction_context.working.requests;
            table_of_rows(before);
            table_of_rows(after);
            assert forall|k: i32| #[trigger] before@.contains_key(k) implies after@[k]@
                == deactivated_for(before@[k]@, employee_id) by {
                assert(updated(of_employee, set_values, before@[k], after@[k]));
            }
            assert(table_of(after).rows =~= table_of(before).rows.map_values(
                |q: IdentityVerifyRequestView|
                    deactivated_for(q, employee_id),
            ));
            transaction_context.working.wf_view();
        }
        r
    }

    fn verify_request(
        &mut self,
        transaction_context: &mut InMemoryTransactionContext,
        id: i32,
        now: i64,
    ) -> (r: DaoResult<(), InMemoryDaoError>)
        ensures
            r is Err ==> final(transaction_context).working() == old(
                transaction_context,
            ).working(),
            r matches Err(e) ==> e.code() == 1000,
    {
        proof {
            transaction_context.durable.wf_view();
            transaction_context.working.wf_view();
        }
        let mut set_values = IdentityVerifyRequestModel::empty();
        set_values.id = Some(id);
        set_values.active = Some(false);
        set_values.verified_utc_dt = Some(now);
        let ghost before = transaction_context.working.requests;
        let r = transaction_context.working.requests.update_one(set_values);
        proof {
            let after = transaction_context.working.requests;
            table_of_rows(before);
            if r is Ok {
                assert(table_of(after).rows =~= table_of(before).rows.insert(
                    id,
                    consumed(table_of(before).rows[id], now),
                ));
            }
            transaction_context.working.wf_view();
        }
        r
    }

    fn get_active_request_by_reference(
        &self,
        transaction_context: &mut InMemoryTransactionContext,
        reference: String,
        now: i64,
    ) -> (r: DaoResult<IdentityVerifyRequestModel, InMemoryDaoError>)
        ensures
            final(transaction_context).working() == old(transaction_context).working(),
            r matches Err(e) ==> e.code() == 1000 || e.code() == 4000,
    {
        proof {
            transaction_context.durable.wf_view();
            transaction_context.working.wf_view();
        }
        let answering = |request: &IdentityVerifyRequestModel| -> (b: bool)
            ensures
                b == answers(request@, reference@, now),
            {
                let active = match request.active {
                    Some(active) => active,
                    None => false,
                };
                let in_time = match request.expire_utc_dt {
                    Some(expire_utc_dt) => now < expire_utc_dt,
                    None => false,
                };
                let called = match &request.reference {
                    Some(name) => *name == reference,
                    None => false,
                };
                active && in_time && called
            };
        let r = transaction_context.working.requests.get_one(answering);
        proof {
            let db = transaction_context.working.requests;
            let p = |q: IdentityVerifyRequestView| answers(q, reference@, now);
            if r is Ok {
                let request = r->Ok_0;
                let ids = choose|ids: Seq<i32>| selects(db@, answering, ids, seq![request]);
                selects_rows(db, answering, ids, seq![request], p);
                assert(sole_answering(
                    old(transaction_context).working().requests.rows,
                    reference@,
                    now,
                    ids[0],
                ));
            } else {
                let e = r->Err_0;
                let (ids, found) = choose|ids: Seq<i32>, found: Seq<IdentityVerifyRequestModel>|
                    {
                        &&& #[trigger] selects(db@, answering, ids, found)
                        &&& ids.len() != 1
                        &&& ids.len() == 0 ==> e.code() == 1000
                        &&& ids.len() > 1 ==> e.code() == 4000
                    };
                selects_rows(db, answering, ids, found, p);
            }
            transaction_context.working.wf_view();
        }
        r
    }
}

/// The store of messages of the in-memory datastore.
pub struct InMemoryNotifyRequestDao {}

impl InMemoryNotifyRequestDao {
    pub fn new() -> Self {
        Self {}
    }
}

impl NotifyRequestDao for InMemoryNotifyRequestDao {
    type ErrorType = InMemoryDaoError;

    type TransactionContextType = InMemoryTransactionContext;

    open spec fn dependable() -> bool {
        true
    }

    fn insert_into(
        &mut self,
        transaction_context: &mut InMemoryTransactionContext,
        notify_req_model: NotifyRequestModel,
    ) -> (r: DaoResult<(), InMemoryDaoError>)
        ensures
            r is Err ==> final(transaction_context).working() == old(
                transaction_context,
            ).working(),
            r matches Err(e) ==> e.code() == if notify_req_model.id is Some {
                2000i32
            } else {
                5000i32
            },
    {
        proof {
            transaction_context.durable.wf_view();
            transaction_context.working.wf_view();
        }
        let ghost before = transaction_context.working.notifications;
        let r = transaction_context.working.notifications.insert_into(notify_req_model);
        proof {
            let after = transaction_context.working.notifications;
            if r is Ok {
                assert(table_of(after).rows =~= table_of(before).rows.insert(
                    table_of(before).next_id(),
                    notify_req_model@.with_id(table_of(before).next_id()),
                ));
            }
            transaction_context.working.wf_view();
        }
        r
    }

    fn mark_as_sent(
        &mut self,
        transaction_context: &mut InMemoryTransactionContext,
        id: i32,
        now: i64,
    ) -> (r: DaoResult<(), InMemoryDaoError>) {
        proof {
            transaction_context.durable.wf_view();
            transaction_context.working.wf_view();
        }
        let mut set_values = NotifyRequestModel::empty();
        set_values.send_utc_dt = Some(now);
        let with_id = |message: &NotifyRequestModel| -> (b: bool)
            ensures
                b == (message.id == Some(id)),
            {
                match message.id {
                    Some(message_id) => message_id == id,
                    None => false,
                }
            };
        let ghost before = transaction_context.working.notifications;
        let r = transaction_context.working.notifications.update(set_values, with_id);
        proof {
            let after = transaction_context.working.notifications;
            table_of_rows(before);
            table_of_rows(after);
            assert forall|k: i32| #[trigger] before@.contains_key(k) implies after@[k]@ == (if k
                == id {
                sent(before@[k]@, now)
            } else {
                before@[k]@
            }) by {
                assert(updated(with_id, set_values, before@[k], after@[k]));
            }
            if before@.contains_key(id) {
                assert(table_of(after).rows =~= table_of(before).rows.insert(
                    id,
                    sent(table_of(before).rows[id], now),
                ));
            } else {
                assert(table_of(after).rows =~= table_of(before).rows);
            }
            transaction_context.working.wf_view();
        }
        r
    }

    fn get_not_sent_requests(
        &self,
        transaction_context: &mut InMemoryTransactionContext,
        now: i64,
    ) -> (r: DaoResult<Vec<NotifyRequestModel>, InMemoryDaoError>)
        ensures
            r is Ok,
            exists|ids: Seq<i32>|
                ascending_keys(old(transaction_context).working().notifications.rows, ids)
                    && #[trigger] lists_deliverable(
                    old(transaction_context).working().notifications.rows,
                    now,
                    ids,
                    notify_views(r->Ok_0@),
                ),
    {
        proof {
            transaction_context.durable.wf_view();
            transaction_context.working.wf_view();
        }
        let waiting = |message: &NotifyRequestModel| -> (b: bool)
            ensures
                b == deliverable(message@, now),
            {
                match message.expire_utc_dt {
                    Some(expire_utc_dt) => now < expire_utc_dt && message.send_utc_dt.is_none(),
                    None => false,
                }
            };
        let r = transaction_context.working.notifications.get(waiting);
        proof {
            let db = transaction_context.working.notifications;
            let p = |n: NotifyRequestView| deliverable(n, now);
            let found = r->Ok_0@;
            let ids = choose|ids: Seq<i32>| selects(db@, waiting, ids, found);
            selects_rows(db, waiting, ids, found, p);
            table_of_dom(db);
            assert(ascending_keys(old(transaction_context).working().notifications.rows, ids));
            assert(lists_deliverable(
                old(transaction_context).working().notifications.rows,
                now,
                ids,
                notify_views(r->Ok_0@),
            ));
            transaction_context.working.wf_view();
        }
        r
    }
}

} // verus!
