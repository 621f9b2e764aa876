//! A store of entities of any one type, held in memory.

use crate::in_memory_dao::{InMemoryDaoError, InMemoryDb};
use crate::traits::{lists, selects, Appliable, Dao, DaoResult, Identifiable};
use vstd::prelude::*;

verus! {

/// A store over an in-memory table. It hands out identifiers by counting up
/// from 1.
pub struct InMemoryDao<EntityType> {
    db: InMemoryDb<EntityType>,
}

impl<EntityType> InMemoryDao<EntityType> where
    EntityType: Identifiable + Appliable<EntityType> + Clone,
 {
    /// An empty store.
    pub fn new() -> (r: Self)
        ensures
            r.wf(),
            r.rows() == Map::<i32, EntityType>::empty(),
            r.last_id() == 0,
    {
        Self { db: InMemoryDb::new() }
    }

    /// The identifier handed out last, 0 before the first.
    pub closed spec fn last_id(&self) -> int {
        self.db.last_id()
    }
}

impl<EntityType> Dao<EntityType> for InMemoryDao<EntityType> where
    EntityType: Identifiable + Appliable<EntityType> + Clone,
 {
    type ErrorType = InMemoryDaoError;

    closed spec fn rows(&self) -> Map<i32, EntityType> {
        self.db@
    }

    closed spec fn wf(&self) -> bool {
        self.db.wf()
    }

    fn count(&self) -> (r: usize) {
        self.db.count()
    }

    fn insert_into(&mut self, values: EntityType) -> (r: DaoResult<(), InMemoryDaoError>)
        ensures
            r is Ok <==> values.spec_id() is None && old(self).last_id() < i32::MAX,
            r is Ok ==> {
                let id = (old(self).last_id() + 1) as i32;
                &&& final(self).last_id() == id
                &&& final(self).rows() == old(self).rows().insert(id, values.with_id(id))
                &&& !old(self).rows().contains_key(id)
            },
            r matches Err(e) ==> {
                &&& final(self).last_id() == old(self).last_id()
                &&& e.code() == if values.spec_id() is Some {
                    2000i32
                } else {
                    5000i32
                }
            },
    {
        let r = self.db.insert_into(values);
        proof {
            if r is Ok {
                let id = (old(self).last_id() + 1) as i32;
                assert(self.rows().contains_key(id));
            }
        }
        r
    }

    fn update<P: Fn(&EntityType) -> bool>(&mut self, set_values: EntityType, predicate: P) -> (r:
        DaoResult<(), InMemoryDaoError>)
        ensures
            r is Ok <==> set_values.spec_id() is None,
            r matches Err(e) ==> e.code() == 2000,
            final(self).last_id() == old(self).last_id(),
    {
        if set_values.id().is_some() {
            return Err(InMemoryDaoError::id_field_must_be_none());
        }
        proof {
            assert forall|k: i32| self.db@.contains_key(k) implies call_requires(
                predicate,
                (&#[trigger] self.db@[k],),
            ) by {
                assert(self.rows()[k] == self.db@[k]);
            }
        }
        self.db.update(set_values, predicate)
    }

    fn update_one(&mut self, id: i32, set_values: EntityType) -> (r: DaoResult<
        (),
        InMemoryDaoError,
    >)
        ensures
            r is Ok <==> set_values.spec_id() is None && old(self).rows().contains_key(id),
            r matches Err(e) ==> e.code() == if set_values.spec_id() is Some {
                2000i32
            } else {
                1000i32
            },
            final(self).last_id() == old(self).last_id(),
    {
        if set_values.id().is_some() {
            return Err(InMemoryDaoError::id_field_must_be_none());
        }
        self.db.update_entity(id, &set_values)
    }

    fn delete<P: Fn(&EntityType) -> bool>(&mut self, predicate: P) -> (r: DaoResult<
        (),
        InMemoryDaoError,
    >)
        ensures
            r is Ok,
            final(self).last_id() == old(self).last_id(),
    {
        proof {
            assert forall|k: i32| self.db@.contains_key(k) implies call_requires(
                predicate,
                (&#[trigger] self.db@[k],),
            ) by {
                assert(self.rows()[k] == self.db@[k]);
            }
        }
        self.db.delete_where(predicate)
    }

    fn delete_one(&mut self, id: i32) -> (r: DaoResult<(), InMemoryDaoError>)
        ensures
            r is Ok,
            final(self).last_id() == old(self).last_id(),
    {
        self.db.delete(id)
    }

    fn get_one(&self, id: i32) -> (r: DaoResult<EntityType, InMemoryDaoError>)
        ensures
            r is Ok <==> self.rows().contains_key(id),
            r matches Err(e) ==> e.code() == 1000,
    {
        self.db.get_one_by_id(id)
    }

    fn get<P: Fn(&EntityType) -> bool>(&self, predicate: P) -> (r: DaoResult<
        Vec<EntityType>,
        InMemoryDaoError,
    >)
        ensures
            r is Ok,
    {
        proof {
            assert forall|k: i32| self.db@.contains_key(k) implies call_requires(
                predicate,
                (&#[trigger] self.db@[k],),
            ) by {
                assert(self.rows()[k] == self.db@[k]);
            }
        }
        let r = self.db.get(predicate);
        proof {
            let ids = choose|ids: Seq<i32>| selects(self.db@, predicate, ids, r->Ok_0@);
            assert(selects(self.rows(), predicate, ids, r->Ok_0@));
        }
        r
    }

    fn get_all(&self) -> (r: DaoResult<Vec<EntityType>, InMemoryDaoError>)
        ensures
            r is Ok,
    {
        let r = self.db.get_all();
        proof {
            let ids = choose|ids: Seq<i32>| lists(self.db@, ids, r->Ok_0@);
            assert(lists(self.rows(), ids, r->Ok_0@));
        }
        r
    }
}

} // verus!
