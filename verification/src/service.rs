//! The service: each call is one unit of work on the datastore, committed
//! as a whole or not at all.

use crate::clock::{in_calendar, utc_now};
use crate::dao::{
    answers, employee_views, lists_all, lists_deliverable, named, notify_views, sound,
    Datastore, EmployeeDao, Failure, FailureKind, IdentityVerifyRequestDao, NotifyRequestDao,
    TransactionContext, TransactionContextBuilder,
};
use crate::lifecycle::{
    challenge_answering, check_keeps_one_active_each, check_keeps_verified_inactive,
    check_verdict, checked, clock_skewed, employee_called, issue_keeps_one_active_each,
    issue_keeps_verified_inactive, issue_verdict, issued, none_sole_or_several, one_active_each,
    verified_are_inactive, Verdict, CHALLENGE_LIFETIME, CLOCK_TOLERANCE, NOTIFICATION_LIFETIME,
};
use crate::models::{
    CheckIdentityVerifyRequestModel, EmployeeModel, IdentityVerifyRequestModel,
    NewIdentityVerifyRequestModel, NewIdentityVerifyResponseModel, NotifyRequestModel,
};
use crate::secrets::{constant_time_eq, gen_rand_string, is_token};
use vstd::prelude::*;
use vstd::string::StringExecFns;

verus! {

/// Why a call of the service failed.
#[derive(Debug)]
pub enum ServiceError<DaoErrorType> {
    /// No employee goes by the name, or no challenge goes by the reference
    /// and can still be answered. The two cases of a challenge, never
    /// issued and no longer usable, are not told apart.
    NotFound,
    /// The secret is not the one of the challenge.
    VerificationFailed,
    /// The caller's clock is too far from the server's.
    ClockSkew,
    /// The datastore failed.
    StorageError(DaoErrorType),
    /// The datastore holds two rows where it may hold one.
    InvariantViolation,
}

pub type ServiceResult<R, E> = Result<R, E>;

impl<DaoErrorType> ServiceError<DaoErrorType> {
    /// The kind of the error.
    pub open spec fn verdict(self) -> Verdict {
        match self {
            ServiceError::NotFound => Verdict::NotFound,
            ServiceError::VerificationFailed => Verdict::VerificationFailed,
            ServiceError::ClockSkew => Verdict::ClockSkew,
            ServiceError::StorageError(_) => Verdict::StorageFailure,
            ServiceError::InvariantViolation => Verdict::InvariantViolation,
        }
    }

    /// The error of the service for a failed lookup in a store.
    pub fn from(error: DaoErrorType) -> (r: Self) where DaoErrorType: Failure
        ensures
            r == match error.spec_kind() {
                FailureKind::NotFound => ServiceError::NotFound,
                FailureKind::MoreThanOne => ServiceError::InvariantViolation,
                FailureKind::Conflict => ServiceError::StorageError(error),
                FailureKind::Other => ServiceError::StorageError(error),
            },
    {
        match error.kind() {
            FailureKind::NotFound => ServiceError::NotFound,
            FailureKind::MoreThanOne => ServiceError::InvariantViolation,
            FailureKind::Conflict => ServiceError::StorageError(error),
            FailureKind::Other => ServiceError::StorageError(error),
        }
    }

    /// What the caller is told of the error. The text gives away no more
    /// than the kind of the error: it names no row and no secret.
    pub open spec fn spec_message(self) -> Seq<char> {
        match self {
            ServiceError::NotFound => "not found"@,
            ServiceError::VerificationFailed => "identity verification error"@,
            ServiceError::ClockSkew => "clock skew"@,
            ServiceError::StorageError(_) => "storage error"@,
            ServiceError::InvariantViolation => "invariant violation"@,
        }
    }

    /// What the caller is told of the error.
    pub fn message(&self) -> (r: String)
        ensures
            r@ == self.spec_message(),
    {
        match self {
            ServiceError::NotFound => "not found".to_owned(),
            ServiceError::VerificationFailed => "identity verification error".to_owned(),
            ServiceError::ClockSkew => "clock skew".to_owned(),
            ServiceError::StorageError(_) => "storage error".to_owned(),
            ServiceError::InvariantViolation => "invariant violation".to_owned(),
        }
    }
}

/// How a call that returned `r` ended.
pub open spec fn verdict_of<R, E>(r: ServiceResult<R, ServiceError<E>>) -> Verdict {
    match r {
        Ok(_) => Verdict::Done,
        Err(e) => e.verdict(),
    }
}

/// The two clocks are within the tolerance of each other.
pub fn clocks_agree(client_utc_dt: i64, server_utc_dt: i64) -> (r: bool)
    ensures
        r == !clock_skewed(client_utc_dt, server_utc_dt),
{
    let difference: i128 = client_utc_dt as i128 - server_utc_dt as i128;
    -(CLOCK_TOLERANCE as i128) <= difference && difference <= CLOCK_TOLERANCE as i128
}

/// What issuing a challenge leaves behind: the datastore `after`, and the
/// answer `r` to the caller.
///
/// The call ends as `issue_verdict` says; on a datastore that is not
/// dependable it may also end in a storage failure, once the clocks have
/// been found to agree. Where it succeeds the challenge has been issued and
/// the caller has the reference, not the secret. Where it fails the
/// datastore is what it was.
pub open spec fn issue_post<E>(
    before: Datastore,
    after: Datastore,
    username: Seq<char>,
    client: i64,
    now: i64,
    secret: Seq<char>,
    reference: Seq<char>,
    r: ServiceResult<NewIdentityVerifyResponseModel, ServiceError<E>>,
    dependable: bool,
) -> bool {
    &&& verdict_of(r) == issue_verdict(before, username, client, now) || (verdict_of(r)
        == Verdict::StorageFailure && !clock_skewed(client, now) && !dependable)
    &&& r matches Ok(response) ==> {
        &&& after == issued(before, employee_called(before, username), now, secret, reference)
        &&& response.reference@ == reference
        &&& response.server_utc_dt == now
    }
    &&& r is Err ==> after == before
}

/// What answering a challenge leaves behind: the datastore `after`, and the
/// answer `r` to the caller.
///
/// The call ends as `check_verdict` says; on a datastore that is not
/// dependable it may also end in a storage failure, once the clocks have
/// been found to agree. Where it succeeds the challenge has been consumed.
/// Where it fails the datastore is what it was: a wrong secret does not use
/// the challenge up.
pub open spec fn check_post<E>(
    before: Datastore,
    after: Datastore,
    reference: Seq<char>,
    secret: Seq<char>,
    client: i64,
    now: i64,
    r: ServiceResult<(), ServiceError<E>>,
    dependable: bool,
) -> bool {
    &&& verdict_of(r) == check_verdict(before, reference, secret, client, now) || (verdict_of(r)
        == Verdict::StorageFailure && !clock_skewed(client, now) && !dependable)
    &&& r is Ok ==> after == checked(before, reference, now)
    &&& r is Err ==> after == before
}

/// The verification service over a datastore and its three stores.
pub struct Service<Builder, Employees, Requests, Notifications> {
    transaction_context_builder: Builder,
    employee_dao: Employees,
    id_verify_req_dao: Requests,
    notify_req_dao: Notifications,
}

impl<Builder, Employees, Requests, Notifications> Service<
    Builder,
    Employees,
    Requests,
    Notifications,
> where
    Employees: EmployeeDao,
    Employees::TransactionContextType: TransactionContext<ErrorType = Employees::ErrorType>,
    Builder: TransactionContextBuilder<Employees::TransactionContextType>,
    Requests: IdentityVerifyRequestDao<
        ErrorType = Employees::ErrorType,
        TransactionContextType = Employees::TransactionContextType,
    >,
    Notifications: NotifyRequestDao<
        ErrorType = Employees::ErrorType,
        TransactionContextType = Employees::TransactionContextType,
    >,
 {
    /// The service is between two calls: no unit of work is open.
    pub closed spec fn wf(&self) -> bool {
        self.transaction_context_builder.idle()
            && self.transaction_context_builder.datastore().wf()
    }

    /// The durable state of the datastore.
    pub closed spec fn datastore(&self) -> Datastore {
        self.transaction_context_builder.datastore()
    }

    /// The datastore and the stores fail only where their contracts name a
    /// reason.
    pub open spec fn dependable() -> bool {
        &&& Builder::dependable()
        &&& <Employees::TransactionContextType as TransactionContext>::dependable()
        &&& Employees::dependable()
        &&& Requests::dependable()
        &&& Notifications::dependable()
    }

    /// The service over the datastore that `transaction_context_builder`
    /// gives access to.
    pub fn new(
        transaction_context_builder: Builder,
        employee_dao: Employees,
        id_verify_req_dao: Requests,
        notify_req_dao: Notifications,
    ) -> (r: Self)
        requires
            transaction_context_builder.idle(),
            transaction_context_builder.datastore().wf(),
        ensures
            r.wf(),
            r.datastore() == transaction_context_builder.datastore(),
    {
        Self { transaction_context_builder, employee_dao, id_verify_req_dao, notify_req_dao }
    }

    /// Opens a unit of work: takes a context from the datastore and begins.
    fn open(&mut self) -> (r: ServiceResult<
        Employees::TransactionContextType,
        ServiceError<Employees::ErrorType>,
    >)
        requires
            old(self).wf(),
        ensures
            match r {
                Ok(transaction_context) => {
                    &&& sound(transaction_context)
                    &&& transaction_context.durable() == old(self).datastore()
                    &&& transaction_context.working() == old(self).datastore()
                },
                Err(e) => {
                    &&& final(self).wf()
                    &&& final(self).datastore() == old(self).datastore()
                    &&& e is StorageError
                    &&& !Self::dependable()
                },
            },
    {
        let mut transaction_context = match self.transaction_context_builder.build() {
            Ok(transaction_context) => transaction_context,
            Err(e) => {
                return Err(ServiceError::StorageError(e));
            },
        };
        match transaction_context.begin() {
            Ok(_) => Ok(transaction_context),
            Err(e) => {
                self.abandon(transaction_context);
                Err(ServiceError::StorageError(e))
            },
        }
    }

    /// Closes the unit of work: commits, and hands the context back. Where
    /// the commit fails nothing of the unit of work becomes durable.
    fn close(&mut self, transaction_context: Employees::TransactionContextType) -> (r:
        ServiceResult<(), ServiceError<Employees::ErrorType>>)
        requires
            sound(transaction_context),
        ensures
            final(self).wf(),
            match r {
                Ok(_) => final(self).datastore() == transaction_context.working(),
                Err(e) => {
                    &&& final(self).datastore() == transaction_context.durable()
                    &&& e is StorageError
                    &&& !Self::dependable()
                },
            },
    {
        let mut transaction_context = transaction_context;
        match transaction_context.commit() {
            Ok(_) => {
                self.transaction_context_builder.release(transaction_context);
                Ok(())
            },
            Err(e) => {
                self.abandon(transaction_context);
                Err(ServiceError::StorageError(e))
            },
        }
    }

    /// Gives up the unit of work: nothing of it becomes durable.
    fn abandon(&mut self, transaction_context: Employees::TransactionContextType)
        requires
            sound(transaction_context),
        ensures
            final(self).wf(),
            final(self).datastore() == transaction_context.durable(),
    {
        let mut transaction_context = transaction_context;
        let _ = transaction_context.rollback();
        self.transaction_context_builder.release(transaction_context);
    }

    /// Issues a challenge to the employee `id_verify_req.username` at the
    /// server time `now`, with the given secret and reference.
    pub fn issue(
        &mut self,
        id_verify_req: NewIdentityVerifyRequestModel,
        now: i64,
        secret: String,
        reference: String,
    ) -> (r: ServiceResult<NewIdentityVerifyResponseModel, ServiceError<Employees::ErrorType>>)
        requires
            old(self).wf(),
            now + NOTIFICATION_LIFETIME <= i64::MAX,
        ensures
            final(self).wf(),
            issue_post(
                old(self).datastore(),
                final(self).datastore(),
                id_verify_req.username@,
                id_verify_req.client_utc_dt,
                now,
                secret@,
                reference@,
                r,
                Self::dependable(),
            ),
            clock_skewed(id_verify_req.client_utc_dt, now) <==> r matches Err(
                ServiceError::ClockSkew,
            ),
            r is Err ==> final(self).datastore() == old(self).datastore(),
            one_active_each(old(self).datastore()) ==> one_active_each(final(self).datastore()),
            verified_are_inactive(old(self).datastore()) ==> verified_are_inactive(
                final(self).datastore(),
            ),
    {
        let ghost before = self.datastore();
        let ghost username = id_verify_req.username@;
        if !clocks_agree(id_verify_req.client_utc_dt, now) {
            return Err(ServiceError::ClockSkew);
        }
        let mut transaction_context = self.open()?;
        proof {
            none_sole_or_several(before.employees.rows, |e| named(e, username));
        }
        let employee = match self.employee_dao.get_by_username(
            &mut transaction_context,
            id_verify_req.username,
        ) {
            Ok(employee) => employee,
            Err(e) => {
                self.abandon(transaction_context);
                return Err(ServiceError::from(e));
            },
        };
        let employee_id: i32 = match employee.id {
            Some(id) => id,
            None => {
                self.abandon(transaction_context);
                return Err(ServiceError::InvariantViolation);
            },
        };
        assert(employee_id == employee_called(before, username));
        match self.id_verify_req_dao.deactivate_all_requests(&mut transaction_context, employee_id) {
            Ok(_) => {},
            Err(e) => {
                self.abandon(transaction_context);
                return Err(ServiceError::StorageError(e));
            },
        }
        let response_reference = reference.clone();
        let mut new_id_verify_req = IdentityVerifyRequestModel::empty();
        new_id_verify_req.reference = Some(reference);
        new_id_verify_req.secret = Some(secret.clone());
        new_id_verify_req.active = Some(true);
        new_id_verify_req.create_utc_dt = Some(now);
        new_id_verify_req.expire_utc_dt = Some(now + CHALLENGE_LIFETIME);
        new_id_verify_req.employee_id = Some(employee_id);
        match self.id_verify_req_dao.insert_into(&mut transaction_context, new_id_verify_req) {
            Ok(_) => {},
            Err(e) => {
                self.abandon(transaction_context);
                return Err(ServiceError::StorageError(e));
            },
        }
        let mut new_notify_req = NotifyRequestModel::empty();
        new_notify_req.title = Some("Simurgh Identity Verification System".to_owned());
        new_notify_req.body = Some("Verification code: ".to_owned().concat(secret.as_str()));
        new_notify_req.create_utc_dt = Some(now);
        new_notify_req.expire_utc_dt = Some(now + NOTIFICATION_LIFETIME);
        new_notify_req.employee_id = Some(employee_id);
        match self.notify_req_dao.insert_into(&mut transaction_context, new_notify_req) {
            Ok(_) => {},
            Err(e) => {
                self.abandon(transaction_context);
                return Err(ServiceError::StorageError(e));
            },
        }
        self.close(transaction_context)?;
        proof {
            if one_active_each(before) {
                issue_keeps_one_active_each(before, employee_id, now, secret@, reference@);
            }
            if verified_are_inactive(before) {
                issue_keeps_verified_inactive(before, employee_id, now, secret@, reference@);
            }
        }
        Ok(NewIdentityVerifyResponseModel { reference: response_reference, server_utc_dt: now })
    }

    /// Answers the challenge `check_id_verify_req.reference` with
    /// `check_id_verify_req.client_secret` at the server time `now`.
    pub fn check(&mut self, check_id_verify_req: CheckIdentityVerifyRequestModel, now: i64) -> (r:
        ServiceResult<(), ServiceError<Employees::ErrorType>>)
        requires
            old(self).wf(),
        ensures
            final(self).wf(),
            check_post(
                old(self).datastore(),
                final(self).datastore(),
                check_id_verify_req.reference@,
                check_id_verify_req.client_secret@,
                check_id_verify_req.client_utc_dt,
                now,
                r,
                Self::dependable(),
            ),
            clock_skewed(check_id_verify_req.client_utc_dt, now) <==> r matches Err(
                ServiceError::ClockSkew,
            ),
            r is Err ==> final(self).datastore() == old(self).datastore(),
            one_active_each(old(self).datastore()) ==> one_active_each(final(self).datastore()),
            verified_are_inactive(old(self).datastore()) ==> verified_are_inactive(
                final(self).datastore(),
            ),
    {
        let ghost before = self.datastore();
        let ghost reference = check_id_verify_req.reference@;
        if !clocks_agree(check_id_verify_req.client_utc_dt, now) {
            return Err(ServiceError::ClockSkew);
        }
        let mut transaction_context = self.open()?;
        proof {
            none_sole_or_several(before.requests.rows, |q| answers(q, reference, now));
        }
        let request = match self.id_verify_req_dao.get_active_request_by_reference(
            &mut transaction_context,
            check_id_verify_req.reference,
            now,
        ) {
            Ok(request) => request,
            Err(e) => {
                self.abandon(transaction_context);
                return Err(ServiceError::from(e));
            },
        };
        let id: i32 = match request.id {
            Some(id) => id,
            None => {
                self.abandon(transaction_context);
                return Err(ServiceError::InvariantViolation);
            },
        };
        assert(id == challenge_answering(before, reference, now));
        let secret_matches = match &request.secret {
            Some(secret) => constant_time_eq(
                secret.as_str(),
                check_id_verify_req.client_secret.as_str(),
            ),
            None => false,
        };
        if !secret_matches {
            self.abandon(transaction_context);
            return Err(ServiceError::VerificationFailed);
        }
        match self.id_verify_req_dao.verify_request(&mut transaction_context, id, now) {
            Ok(_) => {},
            Err(e) => {
                self.abandon(transaction_context);
                return Err(ServiceError::StorageError(e));
            },
        }
        self.close(transaction_context)?;
        proof {
            if one_active_each(before) {
                check_keeps_one_active_each(before, reference, now);
            }
            if verified_are_inactive(before) {
                check_keeps_verified_inactive(before, reference, now);
            }
        }
        Ok(())
    }

    /// Issues a challenge to the employee `id_verify_req.username`, at the
    /// time of the server's clock, with a fresh secret of 8 characters and a
    /// fresh reference of 16.
    pub fn new_id_verify_req(&mut self, id_verify_req: NewIdentityVerifyRequestModel) -> (r:
        ServiceResult<NewIdentityVerifyResponseModel, ServiceError<Employees::ErrorType>>)
        requires
            old(self).wf(),
        ensures
            final(self).wf(),
            exists|now: i64, secret: Seq<char>, reference: Seq<char>|
                {
                    &&& in_calendar(now)
                    &&& is_token(secret, 8)
                    &&& is_token(reference, 16)
                    &&& #[trigger] issue_post(
                        old(self).datastore(),
                        final(self).datastore(),
                        id_verify_req.username@,
                        id_verify_req.client_utc_dt,
                        now,
                        secret,
                        reference,
                        r,
                        Self::dependable(),
                    )
                },
            r is Err ==> final(self).datastore() == old(self).datastore(),
            one_active_each(old(self).datastore()) ==> one_active_each(final(self).datastore()),
            verified_are_inactive(old(self).datastore()) ==> verified_are_inactive(
                final(self).datastore(),
            ),
    {
        let now = utc_now();
        let secret = gen_rand_string(8);
        let reference = gen_rand_string(16);
        let ghost username = id_verify_req.username@;
        let ghost client = id_verify_req.client_utc_dt;
        let ghost secret_text = secret@;
        let ghost reference_text = reference@;
        let r = self.issue(id_verify_req, now, secret, reference);
        assert(issue_post(
            old(self).datastore(),
            self.datastore(),
            username,
            client,
            now,
            secret_text,
            reference_text,
            r,
            Self::dependable(),
        ));
        r
    }

    /// Answers the challenge `check_id_verify_req.reference` with
    /// `check_id_verify_req.client_secret`, at the time of the server's
    /// clock.
    pub fn check_id_verify_req(&mut self, check_id_verify_req: CheckIdentityVerifyRequestModel) -> (r:
        ServiceResult<(), ServiceError<Employees::ErrorType>>)
        requires
            old(self).wf(),
        ensures
            final(self).wf(),
            exists|now: i64|
                in_calendar(now) && #[trigger] check_post(
                    old(self).datastore(),
                    final(self).datastore(),
                    check_id_verify_req.reference@,
                    check_id_verify_req.client_secret@,
                    check_id_verify_req.client_utc_dt,
                    now,
                    r,
                    Self::dependable(),
                ),
            r is Err ==> final(self).datastore() == old(self).datastore(),
            one_active_each(old(self).datastore()) ==> one_active_each(final(self).datastore()),
            verified_are_inactive(old(self).datastore()) ==> verified_are_inactive(
                final(self).datastore(),
            ),
    {
        let now = utc_now();
        let ghost reference = check_id_verify_req.reference@;
        let ghost secret = check_id_verify_req.client_secret@;
        let ghost client = check_id_verify_req.client_utc_dt;
        let r = self.check(check_id_verify_req, now);
        assert(check_post(
            old(self).datastore(),
            self.datastore(),
            reference,
            secret,
            client,
            now,
            r,
            Self::dependable(),
        ));
        r
    }

    /// Adds an employee to the directory.
    pub fn add_employee(&mut self, employee_model: EmployeeModel) -> (r: ServiceResult<
        (),
        ServiceError<Employees::ErrorType>,
    >)
        requires
            old(self).wf(),
        ensures
            final(self).wf(),
            r is Ok ==> {
                &&& employee_model.id is None
                &&& old(self).datastore().employees.has_room()
                &&& final(self).datastore() == old(self).datastore().employee_added(employee_model@)
            },
            r is Err ==> final(self).datastore() == old(self).datastore(),
            Self::dependable() ==> (r is Ok <==> employee_model.id is None && old(
                self,
            ).datastore().employees.has_room()),
            Self::dependable() && r is Err ==> r->Err_0 is StorageError,
    {
        let mut transaction_context = self.open()?;
        match self.employee_dao.insert_into(&mut transaction_context, employee_model) {
            Ok(_) => {},
            Err(e) => {
                self.abandon(transaction_context);
                return Err(ServiceError::from(e));
            },
        }
        self.close(transaction_context)?;
        Ok(())
    }

    /// Writes the fields that the model sets into the employee whose
    /// identifier it carries.
    pub fn update_employee(&mut self, employee_model: EmployeeModel) -> (r: ServiceResult<
        (),
        ServiceError<Employees::ErrorType>,
    >)
        requires
            old(self).wf(),
        ensures
            final(self).wf(),
            r is Ok ==> {
                &&& employee_model.id matches Some(id)
                &&& old(self).datastore().employees.rows.contains_key(id)
                &&& final(self).datastore() == old(self).datastore().employee_updated(
                    id,
                    employee_model@,
                )
            },
            r is Err ==> final(self).datastore() == old(self).datastore(),
            Self::dependable() ==> (r is Ok <==> employee_model.id is Some && old(
                self,
            ).datastore().employees.rows.contains_key(employee_model.id->Some_0)),
            Self::dependable() && r is Err && employee_model.id is Some ==> r->Err_0
                == ServiceError::<Employees::ErrorType>::NotFound,
            Self::dependable() && r is Err && employee_model.id is None ==> r->Err_0
                is StorageError,
    {
        let mut transaction_context = self.open()?;
        match self.employee_dao.update(&mut transaction_context, employee_model) {
            Ok(_) => {},
            Err(e) => {
                self.abandon(transaction_context);
                return Err(ServiceError::from(e));
            },
        }
        self.close(transaction_context)?;
        Ok(())
    }

    /// Removes the employee `employee_id`, if there is one.
    pub fn delete_employee(&mut self, employee_id: i32) -> (r: ServiceResult<
        (),
        ServiceError<Employees::ErrorType>,
    >)
        requires
            old(self).wf(),
        ensures
            final(self).wf(),
            r is Ok ==> final(self).datastore() == old(self).datastore().employee_removed(
                employee_id,
            ),
            r is Err ==> final(self).datastore() == old(self).datastore(),
            Self::dependable() ==> r is Ok,
    {
        let mut transaction_context = self.open()?;
        match self.employee_dao.delete(&mut transaction_context, employee_id) {
            Ok(_) => {},
            Err(e) => {
                self.abandon(transaction_context);
                return Err(ServiceError::from(e));
            },
        }
        self.close(transaction_context)?;
        Ok(())
    }

    /// The employee `employee_id`.
    pub fn get_employee(&mut self, employee_id: i32) -> (r: ServiceResult<
        EmployeeModel,
        ServiceError<Employees::ErrorType>,
    >)
        requires
            old(self).wf(),
        ensures
            final(self).wf(),
            final(self).datastore() == old(self).datastore(),
            match r {
                Ok(employee) => {
                    &&& old(self).datastore().employees.rows.contains_key(employee_id)
                    &&& employee@ == old(self).datastore().employees.rows[employee_id]
                },
                Err(e) => {
                    &&& e.verdict() == Verdict::NotFound ==> !old(
                        self,
                    ).datastore().employees.rows.contains_key(employee_id)
                    &&& Self::dependable() ==> e.verdict() == Verdict::NotFound
                },
            },
    {
        let mut transaction_context = self.open()?;
        let employee = match self.employee_dao.get_one(&mut transaction_context, employee_id) {
            Ok(employee) => employee,
            Err(e) => {
                self.abandon(transaction_context);
                return Err(ServiceError::from(e));
            },
        };
        self.close(transaction_context)?;
        Ok(employee)
    }

    /// All employees.
    pub fn get_all_employees(&mut self) -> (r: ServiceResult<
        Vec<EmployeeModel>,
        ServiceError<Employees::ErrorType>,
    >)
        requires
            old(self).wf(),
        ensures
            final(self).wf(),
            final(self).datastore() == old(self).datastore(),
            r matches Ok(employees) ==> exists|ids: Seq<i32>| #[trigger]
                lists_all(old(self).datastore().employees.rows, ids, employee_views(employees@)),
            Self::dependable() ==> r is Ok,
    {
        let mut transaction_context = self.open()?;
        let employees = match self.employee_dao.get_all(&mut transaction_context) {
            Ok(employees) => employees,
            Err(e) => {
                self.abandon(transaction_context);
                return Err(ServiceError::from(e));
            },
        };
        let ghost ids = choose|ids: Seq<i32>|
            lists_all(old(self).datastore().employees.rows, ids, employee_views(employees@));
        self.close(transaction_context)?;
        let r: ServiceResult<Vec<EmployeeModel>, ServiceError<Employees::ErrorType>> = Ok(
            employees,
        );
        assert(lists_all(old(self).datastore().employees.rows, ids, employee_views(r->Ok_0@)));
        r
    }

    /// The messages that have not been sent and have not expired at `now`:
    /// what a dispatcher has to deliver.
    pub fn get_not_sent_requests(&mut self, now: i64) -> (r: ServiceResult<
        Vec<NotifyRequestModel>,
        ServiceError<Employees::ErrorType>,
    >)
        requires
            old(self).wf(),
        ensures
            final(self).wf(),
            final(self).datastore() == old(self).datastore(),
            r matches Ok(messages) ==> exists|ids: Seq<i32>| #[trigger]
                lists_deliverable(
                    old(self).datastore().notifications.rows,
                    now,
                    ids,
                    notify_views(messages@),
                ),
            Self::dependable() ==> r is Ok,
    {
        let mut transaction_context = self.open()?;
        let messages = match self.notify_req_dao.get_not_sent_requests(
            &mut transaction_context,
            now,
        ) {
            Ok(messages) => messages,
            Err(e) => {
                self.abandon(transaction_context);
                return Err(ServiceError::StorageError(e));
            },
        };
        let ghost ids = choose|ids: Seq<i32>|
            lists_deliverable(
                old(self).datastore().notifications.rows,
                now,
                ids,
                notify_views(messages@),
            );
        self.close(transaction_context)?;
        let r: ServiceResult<Vec<NotifyRequestModel>, ServiceError<Employees::ErrorType>> = Ok(
            messages,
        );
        assert(lists_deliverable(
            old(self).datastore().notifications.rows,
            now,
            ids,
            notify_views(r->Ok_0@),
        ));
        r
    }

    /// Records that the message `id` has been delivered at `now`.
    pub fn mark_as_sent(&mut self, id: i32, now: i64) -> (r: ServiceResult<
        (),
        ServiceError<Employees::ErrorType>,
    >)
        requires
            old(self).wf(),
        ensures
            final(self).wf(),
            r is Ok ==> final(self).datastore() == old(self).datastore().notification_sent(id, now),
            r is Err ==> final(self).datastore() == old(self).datastore(),
            Self::dependable() ==> r is Ok,
    {
        let mut transaction_context = self.open()?;
        match self.notify_req_dao.mark_as_sent(&mut transaction_context, id, now) {
            Ok(_) => {},
            Err(e) => {
                self.abandon(transaction_context);
                return Err(ServiceError::StorageError(e));
            },
        }
        self.close(transaction_context)?;
        Ok(())
    }
}

} // verus!
