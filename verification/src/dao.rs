//! The persistence contract: what the stores hold, as plain tables, and what
//! each store operation does to them inside one unit of work.
//!
//! A unit of work sees two states of the datastore. The durable state is
//! what every other reader sees. The working state is the durable state
//! with the writes of this unit of work on top. Store operations touch the
//! working state only; `commit` makes it durable, `rollback` drops it.
//!
//! The specification functions of the traits have defaults that say
//! nothing, so that a store outside verified code can implement the traits
//! by their executable methods alone. Such a store is believed to meet no
//! contract: its context stands for no datastore and it is not dependable.

use crate::models::{
    EmployeeModel, EmployeeView, IdentityVerifyRequestModel, IdentityVerifyRequestView,
    NotifyRequestModel, NotifyRequestView,
};
use vstd::prelude::*;

verus! {

pub type DaoResult<ReturnType, ErrorType> = Result<ReturnType, ErrorType>;

/// One table: its rows by identifier, and the identifier it handed out last.
pub struct Table<V> {
    pub rows: Map<i32, V>,
    pub last_id: int,
}

impl<V> Table<V> {
    /// Every row sits under an identifier that the table has handed out.
    pub open spec fn in_range(self) -> bool {
        &&& 0 <= self.last_id <= i32::MAX
        &&& self.rows.dom().finite()
        &&& forall|k: i32| #[trigger] self.rows.contains_key(k) ==> 1 <= k <= self.last_id
    }

    /// The table can still hand out an identifier.
    pub open spec fn has_room(self) -> bool {
        self.last_id < i32::MAX
    }

    /// The identifier that the next row gets.
    pub open spec fn next_id(self) -> i32 {
        (self.last_id + 1) as i32
    }

    /// The table with `row` stored under the next identifier.
    pub open spec fn appended(self, row: V) -> Table<V> {
        Table { rows: self.rows.insert(self.next_id(), row), last_id: self.last_id + 1 }
    }

    /// The table with a new set of rows.
    pub open spec fn with_rows(self, rows: Map<i32, V>) -> Table<V> {
        Table { rows, last_id: self.last_id }
    }
}

/// Row `k` is the only row of `rows` that `p` accepts.
pub open spec fn sole<V>(rows: Map<i32, V>, p: spec_fn(V) -> bool, k: i32) -> bool {
    &&& rows.contains_key(k)
    &&& p(rows[k])
    &&& forall|j: i32| #[trigger] rows.contains_key(j) && p(rows[j]) ==> j == k
}

/// `p` accepts no row of `rows`.
pub open spec fn none_of<V>(rows: Map<i32, V>, p: spec_fn(V) -> bool) -> bool {
    forall|j: i32| #[trigger] rows.contains_key(j) ==> !p(rows[j])
}

/// `p` accepts two rows of `rows` at least.
pub open spec fn several<V>(rows: Map<i32, V>, p: spec_fn(V) -> bool) -> bool {
    exists|j: i32, k: i32|
        j != k && #[trigger] rows.contains_key(j) && #[trigger] rows.contains_key(k) && p(rows[j])
            && p(rows[k])
}

/// `found` are the rows of `rows` that `p` accepts, each once, the row under
/// `ids[i]` at place `i`.
pub open spec fn listing<V>(
    rows: Map<i32, V>,
    p: spec_fn(V) -> bool,
    ids: Seq<i32>,
    found: Seq<V>,
) -> bool {
    &&& ids.no_duplicates()
    &&& found.len() == ids.len()
    &&& forall|i: int|
        0 <= i < ids.len() ==> rows.contains_key(#[trigger] ids[i]) && p(rows[ids[i]]) && found[i]
            == rows[ids[i]]
    &&& forall|k: i32| #[trigger] rows.contains_key(k) && p(rows[k]) ==> ids.contains(k)
}

/// The employee goes by `username`.
pub open spec fn named(e: EmployeeView, username: Seq<char>) -> bool {
    e.username == Some(username)
}

/// Row `k` is the only employee who goes by `username`.
pub open spec fn sole_named(rows: Map<i32, EmployeeView>, username: Seq<char>, k: i32) -> bool {
    sole(rows, |e: EmployeeView| named(e, username), k)
}

/// No employee goes by `username`.
pub open spec fn none_named(rows: Map<i32, EmployeeView>, username: Seq<char>) -> bool {
    none_of(rows, |e: EmployeeView| named(e, username))
}

/// Two employees at least go by `username`.
pub open spec fn several_named(rows: Map<i32, EmployeeView>, username: Seq<char>) -> bool {
    several(rows, |e: EmployeeView| named(e, username))
}

/// The challenge can still be answered at `now`: it is active and `now` is
/// before its expiry.
pub open spec fn usable(r: IdentityVerifyRequestView, now: i64) -> bool {
    &&& r.active == Some(true)
    &&& r.expire_utc_dt matches Some(t) && now < t
}

/// The challenge is the one that `reference` names, and usable at `now`.
pub open spec fn answers(r: IdentityVerifyRequestView, reference: Seq<char>, now: i64) -> bool {
    r.reference == Some(reference) && usable(r, now)
}

/// Row `k` is the only challenge that answers to `reference` at `now`.
pub open spec fn sole_answering(
    rows: Map<i32, IdentityVerifyRequestView>,
    reference: Seq<char>,
    now: i64,
    k: i32,
) -> bool {
    sole(rows, |q: IdentityVerifyRequestView| answers(q, reference, now), k)
}

/// No challenge answers to `reference` at `now`.
pub open spec fn none_answering(
    rows: Map<i32, IdentityVerifyRequestView>,
    reference: Seq<char>,
    now: i64,
) -> bool {
    none_of(rows, |q: IdentityVerifyRequestView| answers(q, reference, now))
}

/// Two challenges at least answer to `reference` at `now`.
pub open spec fn several_answering(
    rows: Map<i32, IdentityVerifyRequestView>,
    reference: Seq<char>,
    now: i64,
) -> bool {
    several(rows, |q: IdentityVerifyRequestView| answers(q, reference, now))
}

/// The message has not been sent and `now` is before its expiry.
pub open spec fn deliverable(n: NotifyRequestView, now: i64) -> bool {
    &&& n.send_utc_dt is None
    &&& n.expire_utc_dt matches Some(t) && now < t
}

/// The challenge with its `active` flag cleared, if it belongs to
/// `employee_id`.
pub open spec fn deactivated_for(
    r: IdentityVerifyRequestView,
    employee_id: i32,
) -> IdentityVerifyRequestView {
    if r.employee_id == Some(employee_id) {
        IdentityVerifyRequestView { active: Some(false), ..r }
    } else {
        r
    }
}

/// The challenge as a successful answer at `now` leaves it: no longer
/// active, and marked as verified at `now`.
pub open spec fn consumed(r: IdentityVerifyRequestView, now: i64) -> IdentityVerifyRequestView {
    IdentityVerifyRequestView { active: Some(false), verified_utc_dt: Some(now), ..r }
}

/// The message marked as sent at `now`.
pub open spec fn sent(n: NotifyRequestView, now: i64) -> NotifyRequestView {
    NotifyRequestView { send_utc_dt: Some(now), ..n }
}

/// The three tables of the datastore.
pub struct Datastore {
    pub employees: Table<EmployeeView>,
    pub requests: Table<IdentityVerifyRequestView>,
    pub notifications: Table<NotifyRequestView>,
}

impl Datastore {
    /// A datastore with nothing in it.
    pub open spec fn empty() -> Datastore {
        Datastore {
            employees: Table { rows: Map::empty(), last_id: 0 },
            requests: Table { rows: Map::empty(), last_id: 0 },
            notifications: Table { rows: Map::empty(), last_id: 0 },
        }
    }

    /// Every row sits under an identifier that its table has handed out, and
    /// carries that identifier.
    pub open spec fn wf(self) -> bool {
        &&& self.employees.in_range()
        &&& self.requests.in_range()
        &&& self.notifications.in_range()
        &&& forall|k: i32| #[trigger]
            self.employees.rows.contains_key(k) ==> self.employees.rows[k].id == Some(k)
        &&& forall|k: i32| #[trigger]
            self.requests.rows.contains_key(k) ==> self.requests.rows[k].id == Some(k)
        &&& forall|k: i32| #[trigger]
            self.notifications.rows.contains_key(k) ==> self.notifications.rows[k].id == Some(k)
    }

    pub open spec fn employee_added(self, e: EmployeeView) -> Datastore {
        Datastore {
            employees: self.employees.appended(e.with_id(self.employees.next_id())),
            ..self
        }
    }

    /// The row `id` takes the fields that `update` sets.
    pub open spec fn employee_updated(self, id: i32, update: EmployeeView) -> Datastore {
        Datastore {
            employees: self.employees.with_rows(
                self.employees.rows.insert(id, self.employees.rows[id].applied(update)),
            ),
            ..self
        }
    }

    pub open spec fn employee_removed(self, id: i32) -> Datastore {
        Datastore { employees: self.employees.with_rows(self.employees.rows.remove(id)), ..self }
    }

    pub open spec fn request_added(self, r: IdentityVerifyRequestView) -> Datastore {
        Datastore {
            requests: self.requests.appended(r.with_id(self.requests.next_id())),
            ..self
        }
    }

    /// No challenge of `employee_id` is active any more.
    pub open spec fn requests_deactivated(self, employee_id: i32) -> Datastore {
        Datastore {
            requests: self.requests.with_rows(
                self.requests.rows.map_values(
                    |r: IdentityVerifyRequestView| deactivated_for(r, employee_id),
                ),
            ),
            ..self
        }
    }

    /// The challenge `id` has been answered at `now`.
    pub open spec fn request_verified(self, id: i32, now: i64) -> Datastore {
        Datastore {
            requests: self.requests.with_rows(
                self.requests.rows.insert(id, consumed(self.requests.rows[id], now)),
            ),
            ..self
        }
    }

    pub open spec fn notification_added(self, n: NotifyRequestView) -> Datastore {
        Datastore {
            notifications: self.notifications.appended(n.with_id(self.notifications.next_id())),
            ..self
        }
    }

    /// The message `id`, if there is one, has been sent at `now`.
    pub open spec fn notification_sent(self, id: i32, now: i64) -> Datastore {
        if self.notifications.rows.contains_key(id) {
            Datastore {
                notifications: self.notifications.with_rows(
                    self.notifications.rows.insert(id, sent(self.notifications.rows[id], now)),
                ),
                ..self
            }
        } else {
            self
        }
    }
}

/// `found` are all the rows of `rows`, each once, the row under `ids[i]` at
/// place `i`.
pub open spec fn lists_all<V>(rows: Map<i32, V>, ids: Seq<i32>, found: Seq<V>) -> bool {
    listing(rows, |v: V| true, ids, found)
}

/// `found` are the messages of `rows` that can be delivered at `now`, each
/// once, the row under `ids[i]` at place `i`.
pub open spec fn lists_deliverable(
    rows: Map<i32, NotifyRequestView>,
    now: i64,
    ids: Seq<i32>,
    found: Seq<NotifyRequestView>,
) -> bool {
    listing(rows, |n: NotifyRequestView| deliverable(n, now), ids, found)
}

/// What each of `models` holds.
pub open spec fn employee_views(models: Seq<EmployeeModel>) -> Seq<EmployeeView> {
    models.map_values(|m: EmployeeModel| m@)
}

/// What each of `models` holds.
pub open spec fn notify_views(models: Seq<NotifyRequestModel>) -> Seq<NotifyRequestView> {
    models.map_values(|m: NotifyRequestModel| m@)
}

/// Why a store operation failed, as far as the service tells failures apart.
#[derive(Debug, Clone, Copy, PartialEq, Eq, Structural)]
pub enum FailureKind {
    /// Nothing matched what was asked for.
    NotFound,
    /// More than one row matched where one was asked for.
    MoreThanOne,
    /// A row would have repeated what has to be unique.
    Conflict,
    /// Anything else.
    Other,
}

/// The one row of `rows`, or why there is not one: none was found, or more
/// than one.
pub fn single<T>(rows: Vec<T>) -> (r: Result<T, FailureKind>)
    ensures
        match r {
            Ok(row) => rows@.len() == 1 && row == rows@[0],
            Err(kind) => kind == if rows@.len() == 0 {
                FailureKind::NotFound
            } else {
                FailureKind::MoreThanOne
            } && rows@.len() != 1,
        },
{
    let mut rows = rows;
    if rows.len() > 1 {
        return Err(FailureKind::MoreThanOne);
    }
    match rows.pop() {
        Some(row) => Ok(row),
        None => Err(FailureKind::NotFound),
    }
}

/// An error of a store.
pub trait Failure {
    /// The kind of the error.
    open spec fn spec_kind(&self) -> FailureKind {
        arbitrary()
    }

    fn kind(&self) -> (r: FailureKind)
        ensures
            r == self.spec_kind(),
    ;
}

/// One atomic unit of work on the datastore.
pub trait TransactionContext: Sized {
    type ErrorType;

    /// The context stands for a datastore.
    open spec fn modelled(&self) -> bool {
        false
    }

    /// What readers outside this unit of work see.
    open spec fn durable(&self) -> Datastore {
        arbitrary()
    }

    /// What this unit of work sees.
    open spec fn working(&self) -> Datastore {
        arbitrary()
    }

    /// Contexts of this type fail only where their contracts name a reason.
    open spec fn dependable() -> bool {
        false
    }

    /// Starts the unit of work on the durable state.
    fn begin(&mut self) -> (r: DaoResult<(), Self::ErrorType>)
        requires
            old(self).modelled(),
            old(self).durable().wf(),
            old(self).working().wf(),
        ensures
            final(self).modelled(),
            final(self).durable().wf(),
            final(self).working().wf(),
            final(self).durable() == old(self).durable(),
            r is Ok ==> final(self).working() == old(self).durable(),
            Self::dependable() ==> r is Ok,
    ;

    /// Makes the working state durable, all of it or nothing.
    fn commit(&mut self) -> (r: DaoResult<(), Self::ErrorType>)
        requires
            old(self).modelled(),
            old(self).durable().wf(),
            old(self).working().wf(),
        ensures
            final(self).modelled(),
            final(self).durable().wf(),
            final(self).working().wf(),
            r is Ok ==> final(self).durable() == old(self).working() && final(self).working()
                == old(self).working(),
            r is Err ==> final(self).durable() == old(self).durable(),
            Self::dependable() ==> r is Ok,
    ;

    /// Drops every write since `begin`.
    fn rollback(&mut self) -> (r: DaoResult<(), Self::ErrorType>)
        requires
            old(self).modelled(),
            old(self).durable().wf(),
            old(self).working().wf(),
        ensures
            final(self).modelled(),
            final(self).durable().wf(),
            final(self).working().wf(),
            final(self).durable() == old(self).durable(),
            r is Ok ==> final(self).working() == old(self).durable(),
            Self::dependable() ==> r is Ok,
    ;
}

/// The context stands for a datastore whose two states are well-formed.
pub open spec fn sound<T: TransactionContext>(transaction_context: T) -> bool {
    &&& transaction_context.modelled()
    &&& transaction_context.durable().wf()
    &&& transaction_context.working().wf()
}

/// The handle to the datastore: it lends out one context per unit of work
/// and takes it back when the unit of work is over.
pub trait TransactionContextBuilder<TransactionContextType: TransactionContext> {
    /// A context can be had.
    open spec fn idle(&self) -> bool {
        false
    }

    /// The durable state of the datastore while no context is out.
    open spec fn datastore(&self) -> Datastore {
        arbitrary()
    }

    /// Builders of this type fail only where their contracts name a reason.
    open spec fn dependable() -> bool {
        false
    }

    /// Lends out a context on the datastore.
    fn build(&mut self) -> (r: DaoResult<
        TransactionContextType,
        TransactionContextType::ErrorType,
    >)
        requires
            old(self).idle() ==> old(self).datastore().wf(),
        ensures
            match r {
                Ok(tc) => {
                    &&& old(self).idle()
                    &&& sound(tc)
                    &&& tc.durable() == old(self).datastore()
                    &&& tc.working() == old(self).datastore()
                },
                Err(_) => {
                    &&& final(self).idle() == old(self).idle()
                    &&& final(self).datastore() == old(self).datastore()
                },
            },
            Self::dependable() && old(self).idle() ==> r is Ok,
    ;

    /// Takes a context back. What it made durable is the datastore now.
    fn release(&mut self, transaction_context: TransactionContextType)
        requires
            sound(transaction_context),
        ensures
            final(self).idle(),
            final(self).datastore() == transaction_context.durable(),
    ;
}

/// The employee directory.
pub trait EmployeeDao {
    type ErrorType: Failure;

    type TransactionContextType: TransactionContext;

    /// Stores of this type fail only where their contracts name a reason.
    open spec fn dependable() -> bool {
        false
    }

    /// Adds an employee, who gets the next identifier. The model must not
    /// carry one.
    fn insert_into(
        &mut self,
        transaction_context: &mut Self::TransactionContextType,
        employee_model: EmployeeModel,
    ) -> (r: DaoResult<(), Self::ErrorType>)
        requires
            sound(*old(transaction_context)),
        ensures
            sound(*final(transaction_context)),
            final(transaction_context).durable() == old(transaction_context).durable(),
            r is Ok ==> {
                &&& employee_model.id is None
                &&& old(transaction_context).working().employees.has_room()
                &&& final(transaction_context).working() == old(
                    transaction_context,
                ).working().employee_added(employee_model@)
            },
            Self::dependable() ==> (r is Ok <==> employee_model.id is None && old(
                transaction_context,
            ).working().employees.has_room()),
            Self::dependable() && r is Err ==> r->Err_0.spec_kind() != FailureKind::NotFound
                && r->Err_0.spec_kind() != FailureKind::MoreThanOne,
    ;

    /// Writes the fields that the model sets into the employee whose
    /// identifier it carries.
    fn update(
        &mut self,
        transaction_context: &mut Self::TransactionContextType,
        employee_model: EmployeeModel,
    ) -> (r: DaoResult<(), Self::ErrorType>)
        requires
            sound(*old(transaction_context)),
        ensures
            sound(*final(transaction_context)),
            final(transaction_context).durable() == old(transaction_context).durable(),
            r is Ok ==> {
                &&& employee_model.id matches Some(id)
                &&& old(transaction_context).working().employees.rows.contains_key(id)
                &&& final(transaction_context).working() == old(
                    transaction_context,
                ).working().employee_updated(id, employee_model@)
            },
            Self::dependable() ==> (r is Ok <==> employee_model.id is Some && old(
                transaction_context,
            ).working().employees.rows.contains_key(employee_model.id->Some_0)),
            Self::dependable() && r is Err && employee_model.id is Some ==> r->Err_0.spec_kind()
                == FailureKind::NotFound,
            Self::dependable() && r is Err && employee_model.id is None ==> r->Err_0.spec_kind()
                != FailureKind::NotFound && r->Err_0.spec_kind() != FailureKind::MoreThanOne,
    ;

    /// Removes the employee `id`, if there is one.
    fn delete(&mut self, transaction_context: &mut Self::TransactionContextType, id: i32) -> (r:
        DaoResult<(), Self::ErrorType>)
        requires
            sound(*old(transaction_context)),
        ensures
            sound(*final(transaction_context)),
            final(transaction_context).durable() == old(transaction_context).durable(),
            r is Ok ==> final(transaction_context).working() == old(
                transaction_context,
            ).working().employee_removed(id),
            Self::dependable() ==> r is Ok,
    ;

    /// The one employee who goes by `username`.
    fn get_by_username(
        &self,
        transaction_context: &mut Self::TransactionContextType,
        username: String,
    ) -> (r: DaoResult<EmployeeModel, Self::ErrorType>)
        requires
            sound(*old(transaction_context)),
        ensures
            sound(*final(transaction_context)),
            final(transaction_context).durable() == old(transaction_context).durable(),
            match r {
                Ok(employee) => {
                    &&& final(transaction_context).working() == old(transaction_context).working()
                    &&& exists|k: i32| #[trigger]
                        sole_named(old(transaction_context).working().employees.rows, username@, k)
                            && employee@ == old(transaction_context).working().employees.rows[k]
                },
                Err(e) => {
                    &&& e.spec_kind() == FailureKind::NotFound ==> none_named(
                        old(transaction_context).working().employees.rows,
                        username@,
                    )
                    &&& e.spec_kind() == FailureKind::MoreThanOne ==> several_named(
                        old(transaction_context).working().employees.rows,
                        username@,
                    )
                    &&& Self::dependable() ==> e.spec_kind() == FailureKind::NotFound || e.spec_kind()
                        == FailureKind::MoreThanOne
                },
            },
    ;

    /// The employee `id`.
    fn get_one(&self, transaction_context: &mut Self::TransactionContextType, id: i32) -> (r:
        DaoResult<EmployeeModel, Self::ErrorType>)
        requires
            sound(*old(transaction_context)),
        ensures
            sound(*final(transaction_context)),
            final(transaction_context).durable() == old(transaction_context).durable(),
            match r {
                Ok(employee) => {
                    &&& final(transaction_context).working() == old(transaction_context).working()
                    &&& old(transaction_context).working().employees.rows.contains_key(id)
                    &&& employee@ == old(transaction_context).working().employees.rows[id]
                },
                Err(e) => {
                    &&& e.spec_kind() == FailureKind::NotFound ==> !old(
                        transaction_context,
                    ).working().employees.rows.contains_key(id)
                    &&& Self::dependable() ==> e.spec_kind() == FailureKind::NotFound
                },
            },
    ;

    /// All employees.
    fn get_all(&self, transaction_context: &mut Self::TransactionContextType) -> (r: DaoResult<
        Vec<EmployeeModel>,
        Self::ErrorType,
    >)
        requires
            sound(*old(transaction_context)),
        ensures
            sound(*final(transaction_context)),
            final(transaction_context).durable() == old(transaction_context).durable(),
            r matches Ok(employees) ==> {
                &&& final(transaction_context).working() == old(transaction_context).working()
                &&& exists|ids: Seq<i32>| #[trigger]
                    lists_all(
                        old(transaction_context).working().employees.rows,
                        ids,
                        employee_views(employees@),
                    )
            },
            Self::dependable() ==> r is Ok,
    ;
}

/// The store of verification challenges.
pub trait IdentityVerifyRequestDao {
    type ErrorType: Failure;

    type TransactionContextType: TransactionContext;

    /// Stores of this type fail only where their contracts name a reason.
    open spec fn dependable() -> bool {
        false
    }

    /// Adds a challenge, which gets the next identifier. The model must not
    /// carry one.
    fn insert_into(
        &mut self,
        transaction_context: &mut Self::TransactionContextType,
        id_verify_req_model: IdentityVerifyRequestModel,
    ) -> (r: DaoResult<(), Self::ErrorType>)
        requires
            sound(*old(transaction_context)),
        ensures
            sound(*final(transaction_context)),
            final(transaction_context).durable() == old(transaction_context).durable(),
            r is Ok ==> {
                &&& id_verify_req_model.id is None
                &&& old(transaction_context).working().requests.has_room()
                &&& final(transaction_context).working() == old(
                    transaction_context,
                ).working().request_added(id_verify_req_model@)
            },
            Self::dependable() ==> (r is Ok <==> id_verify_req_model.id is None && old(
                transaction_context,
            ).working().requests.has_room()),
    ;

    /// Clears the `active` flag of every challenge of `employee_id`.
    fn deactivate_all_requests(
        &mut self,
        transaction_context: &mut Self::TransactionContextType,
        employee_id: i32,
    ) -> (r: DaoResult<(), Self::ErrorType>)
        requires
            sound(*old(transaction_context)),
        ensures
            sound(*final(transaction_context)),
            final(transaction_context).durable() == old(transaction_context).durable(),
            r is Ok ==> final(transaction_context).working() == old(
                transaction_context,
            ).working().requests_deactivated(employee_id),
            Self::dependable() ==> r is Ok,
    ;

    /// Marks the challenge `id` as answered at `now`: it is no longer
    /// active.
    fn verify_request(
        &mut self,
        transaction_context: &mut Self::TransactionContextType,
        id: i32,
        now: i64,
    ) -> (r: DaoResult<(), Self::ErrorType>)
        requires
            sound(*old(transaction_context)),
        ensures
            sound(*final(transaction_context)),
            final(transaction_context).durable() == old(transaction_context).durable(),
            r is Ok ==> {
                &&& old(transaction_context).working().requests.rows.contains_key(id)
                &&& final(transaction_context).working() == old(
                    transaction_context,
                ).working().request_verified(id, now)
            },
            Self::dependable() ==> (r is Ok <==> old(
                transaction_context,
            ).working().requests.rows.contains_key(id)),
    ;

    /// The one challenge that `reference` names and that can still be
    /// answered at `now`.
    fn get_active_request_by_reference(
        &self,
        transaction_context: &mut Self::TransactionContextType,
        reference: String,
        now: i64,
    ) -> (r: DaoResult<IdentityVerifyRequestModel, Self::ErrorType>)
        requires
            sound(*old(transaction_context)),
        ensures
            sound(*final(transaction_context)),
            final(transaction_context).durable() == old(transaction_context).durable(),
            match r {
                Ok(request) => {
                    &&& final(transaction_context).working() == old(transaction_context).working()
                    &&& exists|k: i32| #[trigger]
                        sole_answering(
                            old(transaction_context).working().requests.rows,
                            reference@,
                            now,
                            k,
                        ) && request@ == old(transaction_context).working().requests.rows[k]
                },
                Err(e) => {
                    &&& e.spec_kind() == FailureKind::NotFound ==> none_answering(
                        old(transaction_context).working().requests.rows,
                        reference@,
                        now,
                    )
                    &&& e.spec_kind() == FailureKind::MoreThanOne ==> several_answering(
                        old(transaction_context).working().requests.rows,
                        reference@,
                        now,
                    )
                    &&& Self::dependable() ==> e.spec_kind() == FailureKind::NotFound || e.spec_kind()
                        == FailureKind::MoreThanOne
                },
            },
    ;
}

/// The store of messages waiting to be delivered.
pub trait NotifyRequestDao {
    type ErrorType: Failure;

    type TransactionContextType: TransactionContext;

    /// Stores of this type fail only where their contracts name a reason.
    open spec fn dependable() -> bool {
        false
    }

    /// Adds a message, which gets the next identifier. The model must not
    /// carry one.
    fn insert_into(
        &mut self,
        transaction_context: &mut Self::TransactionContextType,
        notify_req_model: NotifyRequestModel,
    ) -> (r: DaoResult<(), Self::ErrorType>)
        requires
            sound(*old(transaction_context)),
        ensures
            sound(*final(transaction_context)),
            final(transaction_context).durable() == old(transaction_context).durable(),
            r is Ok ==> {
                &&& notify_req_model.id is None
                &&& old(transaction_context).working().notifications.has_room()
                &&& final(transaction_context).working() == old(
                    transaction_context,
                ).working().notification_added(notify_req_model@)
            },
            Self::dependable() ==> (r is Ok <==> notify_req_model.id is None && old(
                transaction_context,
            ).working().notifications.has_room()),
    ;

    /// Marks the message `id`, if there is one, as sent at `now`.
    fn mark_as_sent(
        &mut self,
        transaction_context: &mut Self::TransactionContextType,
        id: i32,
        now: i64,
    ) -> (r: DaoResult<(), Self::ErrorType>)
        requires
            sound(*old(transaction_context)),
        ensures
            sound(*final(transaction_context)),
            final(transaction_context).durable() == old(transaction_context).durable(),
            r is Ok ==> final(transaction_context).working() == old(
                transaction_context,
            ).working().notification_sent(id, now),
            Self::dependable() ==> r is Ok,
    ;

    /// The messages that have not been sent and have not expired at `now`.
    fn get_not_sent_requests(
        &self,
        transaction_context: &mut Self::TransactionContextType,
        now: i64,
    ) -> (r: DaoResult<Vec<NotifyRequestModel>, Self::ErrorType>)
        requires
            sound(*old(transaction_context)),
        ensures
            sound(*final(transaction_context)),
            final(transaction_context).durable() == old(transaction_context).durable(),
            r matches Ok(messages) ==> {
                &&& final(transaction_context).working() == old(transaction_context).working()
                &&& exists|ids: Seq<i32>| #[trigger]
                    lists_deliverable(
                        old(transaction_context).working().notifications.rows,
                        now,
                        ids,
                        notify_views(messages@),
                    )
            },
            Self::dependable() ==> r is Ok,
    ;
}

} // verus!
