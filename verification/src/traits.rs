//! The interfaces of a generic store: what an entity has to offer before a
//! table can hold it, and what a store of such entities does.

use vstd::prelude::*;

verus! {

/// An entity that may carry a numeric identifier.
pub trait Identifiable: Sized {
    /// The identifier the entity carries, if it has been given one.
    ///
    /// An implementation gives its own definition. The default says
    /// nothing, for implementations outside verified code.
    open spec fn spec_id(&self) -> Option<i32> {
        arbitrary()
    }

    /// The entity as it is once `id` has been written into it.
    ///
    /// An implementation gives its own definition. The default says
    /// nothing, for implementations outside verified code.
    open spec fn with_id(self, id: i32) -> Self {
        arbitrary()
    }

    fn id(&self) -> (r: Option<i32>)
        ensures
            r == self.spec_id(),
    ;

    fn set_id(&mut self, id: i32)
        ensures
            *final(self) == old(self).with_id(id),
            final(self).spec_id() == Some(id),
    ;
}

/// An entity that can take over the fields that another value sets.
pub trait Appliable<EntityType>: Sized {
    /// The entity as it is once the fields set in `entity` have been copied
    /// into it.
    ///
    /// An implementation gives its own definition. The default says
    /// nothing, for implementations outside verified code.
    open spec fn applied(self, entity: EntityType) -> Self {
        arbitrary()
    }

    fn apply(&mut self, entity: &EntityType)
        ensures
            *final(self) == old(self).applied(*entity),
    ;
}

/// `ids` are keys of `m`, each once, in ascending order.
pub open spec fn ascending_keys<E>(m: Map<i32, E>, ids: Seq<i32>) -> bool {
    &&& forall|i: int| 0 <= i < ids.len() ==> m.contains_key(#[trigger] ids[i])
    &&& forall|i: int, j: int| 0 <= i < j < ids.len() ==> ids[i] < ids[j]
}

/// `found` holds a clone of each entity of `m` that `predicate` accepts, in
/// the order of `ids`, and `predicate` rejects every other entity of `m`.
pub open spec fn selects<E: Clone, P: Fn(&E) -> bool>(
    m: Map<i32, E>,
    predicate: P,
    ids: Seq<i32>,
    found: Seq<E>,
) -> bool {
    &&& ascending_keys(m, ids)
    &&& found.len() == ids.len()
    &&& forall|i: int|
        0 <= i < ids.len() ==> cloned(m[ids[i]], #[trigger] found[i]) && call_ensures(
            predicate,
            (&m[ids[i]],),
            true,
        )
    &&& forall|k: i32|
        #[trigger] m.contains_key(k) && !ids.contains(k) ==> call_ensures(
            predicate,
            (&m[k],),
            false,
        )
}

/// `found` holds a clone of every entity of `m`, in the order of `ids`.
pub open spec fn lists<E: Clone>(m: Map<i32, E>, ids: Seq<i32>, found: Seq<E>) -> bool {
    &&& ascending_keys(m, ids)
    &&& found.len() == ids.len()
    &&& forall|i: int| 0 <= i < ids.len() ==> cloned(m[ids[i]], #[trigger] found[i])
    &&& forall|k: i32| #[trigger] m.contains_key(k) ==> ids.contains(k)
}

/// What `update` leaves under a key: the entity with `set_values` applied
/// where `predicate` accepts it, the entity as it was where it does not.
pub open spec fn updated<E: Appliable<E>, P: Fn(&E) -> bool>(
    predicate: P,
    set_values: E,
    before: E,
    after: E,
) -> bool {
    ||| call_ensures(predicate, (&before,), true) && after == before.applied(set_values)
    ||| call_ensures(predicate, (&before,), false) && after == before
}

/// What `delete` leaves of the entity under `k`: nothing where `predicate`
/// accepts it, the entity as it was where it does not.
pub open spec fn purged_at<E, P: Fn(&E) -> bool>(
    predicate: P,
    before: Map<i32, E>,
    after: Map<i32, E>,
    k: i32,
) -> bool {
    ||| call_ensures(predicate, (&before[k],), true) && !after.contains_key(k)
    ||| call_ensures(predicate, (&before[k],), false) && after.contains_key(k) && after[k]
        == before[k]
}

/// `after` is `before` without the entities that `predicate` accepts.
pub open spec fn purged<E, P: Fn(&E) -> bool>(
    predicate: P,
    before: Map<i32, E>,
    after: Map<i32, E>,
) -> bool {
    &&& forall|k: i32| #[trigger] after.contains_key(k) ==> before.contains_key(k)
    &&& forall|k: i32| #[trigger] before.contains_key(k) ==> purged_at(predicate, before, after, k)
}

pub type DaoResult<EntityType, ErrorType> = Result<EntityType, ErrorType>;

/// A store of entities of one type, each under the identifier that the
/// store gave it.
pub trait Dao<EntityType> where EntityType: Identifiable + Appliable<EntityType> + Clone {
    type ErrorType;

    /// The entities of the store by identifier.
    ///
    /// An implementation gives its own definition. The default says
    /// nothing, for implementations outside verified code.
    open spec fn rows(&self) -> Map<i32, EntityType> {
        arbitrary()
    }

    /// The store can be used. By default it cannot: an implementation
    /// outside verified code is believed to meet no contract.
    open spec fn wf(&self) -> bool {
        false
    }

    /// How many entities the store holds.
    fn count(&self) -> (r: usize)
        requires
            self.wf(),
        ensures
            r == self.rows().len(),
    ;

    /// Stores `values` under a new identifier and writes that identifier
    /// into it. An entity that carries an identifier is refused.
    fn insert_into(&mut self, values: EntityType) -> (r: DaoResult<(), Self::ErrorType>)
        requires
            old(self).wf(),
        ensures
            final(self).wf(),
            values.spec_id() is Some ==> r is Err,
            r is Ok ==> exists|id: i32|
                {
                    &&& !old(self).rows().contains_key(id)
                    &&& #[trigger] final(self).rows().contains_key(id)
                    &&& final(self).rows() == old(self).rows().insert(id, values.with_id(id))
                },
            r is Err ==> final(self).rows() == old(self).rows(),
    ;

    /// Applies `set_values` to every entity that `predicate` accepts.
    /// Values that carry an identifier are refused.
    fn update<P: Fn(&EntityType) -> bool>(&mut self, set_values: EntityType, predicate: P) -> (r:
        DaoResult<(), Self::ErrorType>)
        requires
            old(self).wf(),
            forall|k: i32|
                old(self).rows().contains_key(k) ==> call_requires(
                    predicate,
                    (&#[trigger] old(self).rows()[k],),
                ),
        ensures
            final(self).wf(),
            set_values.spec_id() is Some ==> r is Err,
            r is Ok ==> {
                &&& final(self).rows().dom() == old(self).rows().dom()
                &&& forall|k: i32|
                    old(self).rows().contains_key(k) ==> updated(
                        predicate,
                        set_values,
                        old(self).rows()[k],
                        #[trigger] final(self).rows()[k],
                    )
            },
            r is Err ==> final(self).rows() == old(self).rows(),
    ;

    /// Applies `set_values` to the entity `id`. Values that carry an
    /// identifier are refused.
    fn update_one(&mut self, id: i32, set_values: EntityType) -> (r: DaoResult<
        (),
        Self::ErrorType,
    >)
        requires
            old(self).wf(),
        ensures
            final(self).wf(),
            set_values.spec_id() is Some || !old(self).rows().contains_key(id) ==> r is Err,
            r is Ok ==> final(self).rows() == old(self).rows().insert(
                id,
                old(self).rows()[id].applied(set_values),
            ),
            r is Err ==> final(self).rows() == old(self).rows(),
    ;

    /// Removes every entity that `predicate` accepts.
    fn delete<P: Fn(&EntityType) -> bool>(&mut self, predicate: P) -> (r: DaoResult<
        (),
        Self::ErrorType,
    >)
        requires
            old(self).wf(),
            forall|k: i32|
                old(self).rows().contains_key(k) ==> call_requires(
                    predicate,
                    (&#[trigger] old(self).rows()[k],),
                ),
        ensures
            final(self).wf(),
            r is Ok ==> purged(predicate, old(self).rows(), final(self).rows()),
            r is Err ==> final(self).rows() == old(self).rows(),
    ;

    /// Removes the entity `id`, if there is one.
    fn delete_one(&mut self, id: i32) -> (r: DaoResult<(), Self::ErrorType>)
        requires
            old(self).wf(),
        ensures
            final(self).wf(),
            r is Ok ==> final(self).rows() == old(self).rows().remove(id),
            r is Err ==> final(self).rows() == old(self).rows(),
    ;

    /// A clone of the entity `id`.
    fn get_one(&self, id: i32) -> (r: DaoResult<EntityType, Self::ErrorType>)
        requires
            self.wf(),
        ensures
            r matches Ok(entity) ==> self.rows().contains_key(id) && cloned(
                self.rows()[id],
                entity,
            ),
            !self.rows().contains_key(id) ==> r is Err,
    ;

    /// Clones of the entities that `predicate` accepts, by ascending
    /// identifier.
    fn get<P: Fn(&EntityType) -> bool>(&self, predicate: P) -> (r: DaoResult<
        Vec<EntityType>,
        Self::ErrorType,
    >)
        requires
            self.wf(),
            forall|k: i32|
                self.rows().contains_key(k) ==> call_requires(
                    predicate,
                    (&#[trigger] self.rows()[k],),
                ),
        ensures
            r matches Ok(found) ==> exists|ids: Seq<i32>| #[trigger]
                selects(self.rows(), predicate, ids, found@),
    ;

    /// Clones of all entities, by ascending identifier.
    fn get_all(&self) -> (r: DaoResult<Vec<EntityType>, Self::ErrorType>)
        requires
            self.wf(),
        ensures
            r matches Ok(found) ==> exists|ids: Seq<i32>| #[trigger]
                lists(self.rows(), ids, found@),
    ;
}

} // verus!
