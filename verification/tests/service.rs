use std::cell::Cell;
use std::rc::Rc;

use web_service::dao::{DaoResult, NotifyRequestDao};
use web_service::in_memory_dao::{
    InMemoryDaoError, InMemoryEmployeeDao, InMemoryIdentityVerifyRequestDao,
    InMemoryNotifyRequestDao, InMemoryTransactionContext, InMemoryTransactionContextBuilder,
};
use web_service::models::{
    CheckIdentityVerifyRequestModel, EmployeeModel, NewIdentityVerifyRequestModel,
    NotifyRequestModel,
};
use web_service::service::{clocks_agree, Service, ServiceError};

type InMemoryService = Service<
    InMemoryTransactionContextBuilder,
    InMemoryEmployeeDao,
    InMemoryIdentityVerifyRequestDao,
    InMemoryNotifyRequestDao,
>;

const NOW: i64 = 1_700_000_000;

fn employee(username: &str) -> EmployeeModel {
    let mut model = EmployeeModel::empty();
    model.employee_nr = Some(format!("nr-{}", username));
    model.first_name = Some("First".to_string());
    model.second_name = Some("Second".to_string());
    model.username = Some(username.to_string());
    model.office_email = Some(format!("{}@example.org", username));
    model.mobile = Some("0000".to_string());
    model
}

fn service_with(usernames: &[&str]) -> InMemoryService {
    let mut service = Service::new(
        InMemoryTransactionContextBuilder::new(),
        InMemoryEmployeeDao::new(),
        InMemoryIdentityVerifyRequestDao::new(),
        InMemoryNotifyRequestDao::new(),
    );
    for username in usernames {
        service.add_employee(employee(username)).unwrap();
    }
    service
}

fn issue_request(username: &str, client_utc_dt: i64) -> NewIdentityVerifyRequestModel {
    NewIdentityVerifyRequestModel { username: username.to_string(), client_utc_dt }
}

fn check_request(reference: &str, secret: &str, client_utc_dt: i64) -> CheckIdentityVerifyRequestModel {
    CheckIdentityVerifyRequestModel {
        reference: reference.to_string(),
        client_secret: secret.to_string(),
        client_utc_dt,
    }
}

fn is_alphanumeric(text: &str) -> bool {
    text.chars().all(|c| c.is_ascii_alphanumeric())
}

#[test]
fn issue_returns_the_reference_and_the_server_time() {
    let mut service = service_with(&["alice"]);
    let response = service
        .issue(issue_request("alice", NOW), NOW, "S1S1S1S1".to_string(), "R1R1R1R1R1R1R1R1".to_string())
        .unwrap();
    assert_eq!(response.reference, "R1R1R1R1R1R1R1R1");
    assert_eq!(response.server_utc_dt, NOW);
}

#[test]
fn issue_leaves_one_notification_with_the_secret() {
    let mut service = service_with(&["alice", "bob"]);
    service
        .issue(issue_request("bob", NOW), NOW, "S1S1S1S1".to_string(), "R1R1R1R1R1R1R1R1".to_string())
        .unwrap();
    let messages = service.get_not_sent_requests(NOW).unwrap();
    assert_eq!(messages.len(), 1);
    let message = &messages[0];
    assert_eq!(message.id, Some(1));
    assert_eq!(message.title, Some("Simurgh Identity Verification System".to_string()));
    assert_eq!(message.body, Some("Verification code: S1S1S1S1".to_string()));
    assert_eq!(message.create_utc_dt, Some(NOW));
    assert_eq!(message.expire_utc_dt, Some(NOW + 900));
    assert_eq!(message.send_utc_dt, None);
    assert_eq!(message.employee_id, Some(2));
    assert!(!message.body.as_ref().unwrap().contains("R1R1R1R1R1R1R1R1"));
}

#[test]
fn example_scenario_issue_check_repeat() {
    let mut service = service_with(&["alice"]);
    let response = service
        .issue(issue_request("alice", NOW), NOW, "S1S1S1S1".to_string(), "R1".to_string())
        .unwrap();
    assert_eq!(response.reference, "R1");
    assert_eq!(response.server_utc_dt, NOW);
    assert!(service.check(check_request("R1", "S1S1S1S1", NOW), NOW).is_ok());
    assert!(matches!(
        service.check(check_request("R1", "S1S1S1S1", NOW), NOW),
        Err(ServiceError::NotFound)
    ));
}

#[test]
fn second_issue_deactivates_the_first() {
    let mut service = service_with(&["alice"]);
    service
        .issue(issue_request("alice", NOW), NOW, "S1S1S1S1".to_string(), "R1".to_string())
        .unwrap();
    service
        .issue(issue_request("alice", NOW + 1), NOW + 1, "S2S2S2S2".to_string(), "R2".to_string())
        .unwrap();
    assert!(matches!(
        service.check(check_request("R1", "S1S1S1S1", NOW + 2), NOW + 2),
        Err(ServiceError::NotFound)
    ));
    assert!(service.check(check_request("R2", "S2S2S2S2", NOW + 2), NOW + 2).is_ok());
}

#[test]
fn issue_for_one_employee_leaves_the_challenge_of_another() {
    let mut service = service_with(&["alice", "bob"]);
    service
        .issue(issue_request("alice", NOW), NOW, "S1S1S1S1".to_string(), "R1".to_string())
        .unwrap();
    service
        .issue(issue_request("bob", NOW), NOW, "S2S2S2S2".to_string(), "R2".to_string())
        .unwrap();
    assert!(service.check(check_request("R1", "S1S1S1S1", NOW), NOW).is_ok());
    assert!(service.check(check_request("R2", "S2S2S2S2", NOW), NOW).is_ok());
}

#[test]
fn only_the_last_of_many_challenges_is_active() {
    let mut service = service_with(&["alice"]);
    for i in 0..10 {
        service
            .issue(issue_request("alice", NOW), NOW, format!("SECRET{:02}", i), format!("REF{:02}", i))
            .unwrap();
    }
    for i in 0..9 {
        assert!(matches!(
            service.check(check_request(&format!("REF{:02}", i), &format!("SECRET{:02}", i), NOW), NOW),
            Err(ServiceError::NotFound)
        ));
    }
    assert!(service.check(check_request("REF09", "SECRET09", NOW), NOW).is_ok());
}

#[test]
fn successful_check_is_single_use() {
    let mut service = service_with(&["alice"]);
    service
        .issue(issue_request("alice", NOW), NOW, "S1S1S1S1".to_string(), "R1".to_string())
        .unwrap();
    assert!(service.check(check_request("R1", "S1S1S1S1", NOW + 10), NOW + 10).is_ok());
    assert!(matches!(
        service.check(check_request("R1", "S1S1S1S1", NOW + 20), NOW + 20),
        Err(ServiceError::NotFound)
    ));
}

#[test]
fn check_after_expiry_is_not_found() {
    let mut service = service_with(&["alice"]);
    service
        .issue(issue_request("alice", NOW), NOW, "S1S1S1S1".to_string(), "R1".to_string())
        .unwrap();
    assert!(matches!(
        service.check(check_request("R1", "S1S1S1S1", NOW + 300), NOW + 300),
        Err(ServiceError::NotFound)
    ));
    assert!(matches!(
        service.check(check_request("R1", "S1S1S1S1", NOW + 301), NOW + 301),
        Err(ServiceError::NotFound)
    ));
}

#[test]
fn check_in_the_last_second_is_accepted() {
    let mut service = service_with(&["alice"]);
    service
        .issue(issue_request("alice", NOW), NOW, "S1S1S1S1".to_string(), "R1".to_string())
        .unwrap();
    assert!(service.check(check_request("R1", "S1S1S1S1", NOW + 299), NOW + 299).is_ok());
}

#[test]
fn wrong_secret_fails_and_does_not_use_the_challenge_up() {
    let mut service = service_with(&["alice"]);
    service
        .issue(issue_request("alice", NOW), NOW, "S1S1S1S1".to_string(), "R1".to_string())
        .unwrap();
    assert!(matches!(
        service.check(check_request("R1", "S1S1S1S2", NOW), NOW),
        Err(ServiceError::VerificationFailed)
    ));
    assert!(matches!(
        service.check(check_request("R1", "", NOW), NOW),
        Err(ServiceError::VerificationFailed)
    ));
    assert!(service.check(check_request("R1", "S1S1S1S1", NOW), NOW).is_ok());
}

#[test]
fn unknown_reference_is_not_found() {
    let mut service = service_with(&["alice"]);
    assert!(matches!(
        service.check(check_request("R1", "S1S1S1S1", NOW), NOW),
        Err(ServiceError::NotFound)
    ));
}

#[test]
fn issue_for_unknown_employee_is_not_found_and_writes_nothing() {
    let mut service = service_with(&["alice"]);
    assert!(matches!(
        service.issue(issue_request("carol", NOW), NOW, "S1S1S1S1".to_string(), "R1".to_string()),
        Err(ServiceError::NotFound)
    ));
    assert_eq!(service.get_not_sent_requests(NOW).unwrap().len(), 0);
    assert!(matches!(
        service.check(check_request("R1", "S1S1S1S1", NOW), NOW),
        Err(ServiceError::NotFound)
    ));
}

#[test]
fn issue_for_a_name_that_two_employees_share_is_an_invariant_violation() {
    let mut service = service_with(&["alice", "alice"]);
    assert!(matches!(
        service.issue(issue_request("alice", NOW), NOW, "S1S1S1S1".to_string(), "R1".to_string()),
        Err(ServiceError::InvariantViolation)
    ));
    assert_eq!(service.get_not_sent_requests(NOW).unwrap().len(), 0);
}

#[test]
fn check_of_a_reference_that_two_challenges_share_is_an_invariant_violation() {
    let mut service = service_with(&["alice", "bob"]);
    service
        .issue(issue_request("alice", NOW), NOW, "S1S1S1S1".to_string(), "R1".to_string())
        .unwrap();
    service
        .issue(issue_request("bob", NOW), NOW, "S1S1S1S1".to_string(), "R1".to_string())
        .unwrap();
    assert!(matches!(
        service.check(check_request("R1", "S1S1S1S1", NOW), NOW),
        Err(ServiceError::InvariantViolation)
    ));
}

#[test]
fn issue_rejects_a_skewed_clock_without_writing() {
    let mut service = service_with(&["alice"]);
    assert!(matches!(
        service.issue(issue_request("alice", NOW + 301), NOW, "S1S1S1S1".to_string(), "R1".to_string()),
        Err(ServiceError::ClockSkew)
    ));
    assert!(matches!(
        service.issue(issue_request("alice", NOW - 301), NOW, "S1S1S1S1".to_string(), "R1".to_string()),
        Err(ServiceError::ClockSkew)
    ));
    assert_eq!(service.get_not_sent_requests(NOW).unwrap().len(), 0);
    assert!(matches!(
        service.check(check_request("R1", "S1S1S1S1", NOW), NOW),
        Err(ServiceError::NotFound)
    ));
}

#[test]
fn issue_rejects_a_skewed_clock_before_it_looks_for_the_employee() {
    let mut service = service_with(&[]);
    assert!(matches!(
        service.issue(issue_request("nobody", NOW + 301), NOW, "S1S1S1S1".to_string(), "R1".to_string()),
        Err(ServiceError::ClockSkew)
    ));
}

#[test]
fn issue_accepts_a_clock_at_the_edge_of_the_tolerance() {
    let mut service = service_with(&["alice"]);
    assert!(service
        .issue(issue_request("alice", NOW + 300), NOW, "S1S1S1S1".to_string(), "R1".to_string())
        .is_ok());
    assert!(service
        .issue(issue_request("alice", NOW - 300), NOW, "S2S2S2S2".to_string(), "R2".to_string())
        .is_ok());
}

#[test]
fn check_rejects_a_skewed_clock_without_using_the_challenge_up() {
    let mut service = service_with(&["alice"]);
    service
        .issue(issue_request("alice", NOW), NOW, "S1S1S1S1".to_string(), "R1".to_string())
        .unwrap();
    assert!(matches!(
        service.check(check_request("R1", "S1S1S1S1", NOW + 301), NOW),
        Err(ServiceError::ClockSkew)
    ));
    assert!(matches!(
        service.check(check_request("R1", "S1S1S1S1", NOW - 301), NOW),
        Err(ServiceError::ClockSkew)
    ));
    assert_eq!(service.get_not_sent_requests(NOW).unwrap().len(), 1);
    assert!(service.check(check_request("R1", "S1S1S1S1", NOW + 300), NOW).is_ok());
}

#[test]
fn clocks_agree_within_five_minutes() {
    assert!(clocks_agree(NOW, NOW));
    assert!(clocks_agree(NOW + 300, NOW));
    assert!(clocks_agree(NOW - 300, NOW));
    assert!(!clocks_agree(NOW + 301, NOW));
    assert!(!clocks_agree(NOW - 301, NOW));
    assert!(!clocks_agree(i64::MAX, i64::MIN));
    assert!(!clocks_agree(i64::MIN, i64::MAX));
    assert!(clocks_agree(i64::MAX, i64::MAX - 300));
    assert!(clocks_agree(i64::MIN, i64::MIN + 300));
    assert!(!clocks_agree(i64::MIN, i64::MIN + 301));
}

struct FlakyNotifyDao {
    inner: InMemoryNotifyRequestDao,
    failing: Rc<Cell<bool>>,
}

impl NotifyRequestDao for FlakyNotifyDao {
    type ErrorType = InMemoryDaoError;
    type TransactionContextType = InMemoryTransactionContext;

    fn insert_into(
        &mut self,
        transaction_context: &mut InMemoryTransactionContext,
        notify_req_model: NotifyRequestModel,
    ) -> DaoResult<(), InMemoryDaoError> {
        if self.failing.get() {
            return Err(InMemoryDaoError::id_sequence_exhausted());
        }
        self.inner.insert_into(transaction_context, notify_req_model)
    }

    fn mark_as_sent(
        &mut self,
        transaction_context: &mut InMemoryTransactionContext,
        id: i32,
        now: i64,
    ) -> DaoResult<(), InMemoryDaoError> {
        self.inner.mark_as_sent(transaction_context, id, now)
    }

    fn get_not_sent_requests(
        &self,
        transaction_context: &mut InMemoryTransactionContext,
        now: i64,
    ) -> DaoResult<Vec<NotifyRequestModel>, InMemoryDaoError> {
        self.inner.get_not_sent_requests(transaction_context, now)
    }
}

#[test]
fn failure_after_the_challenge_is_stored_commits_nothing() {
    let failing = Rc::new(Cell::new(false));
    let mut service = Service::new(
        InMemoryTransactionContextBuilder::new(),
        InMemoryEmployeeDao::new(),
        InMemoryIdentityVerifyRequestDao::new(),
        FlakyNotifyDao { inner: InMemoryNotifyRequestDao::new(), failing: failing.clone() },
    );
    service.add_employee(employee("alice")).unwrap();
    service
        .issue(issue_request("alice", NOW), NOW, "S1S1S1S1".to_string(), "R1".to_string())
        .unwrap();

    failing.set(true);
    match service.issue(issue_request("alice", NOW), NOW, "S2S2S2S2".to_string(), "R2".to_string()) {
        Err(ServiceError::StorageError(e)) => assert_eq!(e.get_code(), 5000),
        _ => panic!("the failure of the store must reach the caller"),
    }
    failing.set(false);

    let messages = service.get_not_sent_requests(NOW).unwrap();
    assert_eq!(messages.len(), 1);
    assert_eq!(messages[0].body, Some("Verification code: S1S1S1S1".to_string()));
    assert!(matches!(
        service.check(check_request("R2", "S2S2S2S2", NOW), NOW),
        Err(ServiceError::NotFound)
    ));
    assert!(service.check(check_request("R1", "S1S1S1S1", NOW), NOW).is_ok());
}

#[test]
fn failure_of_the_first_issue_leaves_the_datastore_empty() {
    let failing = Rc::new(Cell::new(true));
    let mut service = Service::new(
        InMemoryTransactionContextBuilder::new(),
        InMemoryEmployeeDao::new(),
        InMemoryIdentityVerifyRequestDao::new(),
        FlakyNotifyDao { inner: InMemoryNotifyRequestDao::new(), failing: failing.clone() },
    );
    service.add_employee(employee("alice")).unwrap();
    assert!(matches!(
        service.issue(issue_request("alice", NOW), NOW, "S1S1S1S1".to_string(), "R1".to_string()),
        Err(ServiceError::StorageError(_))
    ));
    failing.set(false);
    assert_eq!(service.get_not_sent_requests(NOW).unwrap().len(), 0);
    assert!(matches!(
        service.check(check_request("R1", "S1S1S1S1", NOW), NOW),
        Err(ServiceError::NotFound)
    ));
    service
        .issue(issue_request("alice", NOW), NOW, "S2S2S2S2".to_string(), "R2".to_string())
        .unwrap();
    let messages = service.get_not_sent_requests(NOW).unwrap();
    assert_eq!(messages.len(), 1);
    assert_eq!(messages[0].id, Some(1));
}

#[test]
fn new_id_verify_req_draws_a_reference_of_sixteen_and_a_secret_of_eight() {
    let mut service = service_with(&["alice"]);
    let before = chrono::Utc::now().timestamp();
    let response = service.new_id_verify_req(issue_request("alice", before)).unwrap();
    let after = chrono::Utc::now().timestamp();
    assert_eq!(response.reference.chars().count(), 16);
    assert!(is_alphanumeric(&response.reference));
    assert!(before <= response.server_utc_dt && response.server_utc_dt <= after);

    let messages = service.get_not_sent_requests(after).unwrap();
    assert_eq!(messages.len(), 1);
    let body = messages[0].body.clone().unwrap();
    let secret = body.strip_prefix("Verification code: ").unwrap().to_string();
    assert_eq!(secret.chars().count(), 8);
    assert!(is_alphanumeric(&secret));
    assert_eq!(messages[0].create_utc_dt, Some(response.server_utc_dt));
    assert_eq!(messages[0].expire_utc_dt, Some(response.server_utc_dt + 900));

    let client = chrono::Utc::now().timestamp();
    assert!(service
        .check_id_verify_req(check_request(&response.reference, &secret, client))
        .is_ok());
    let client = chrono::Utc::now().timestamp();
    assert!(matches!(
        service.check_id_verify_req(check_request(&response.reference, &secret, client)),
        Err(ServiceError::NotFound)
    ));
}

#[test]
fn new_id_verify_req_draws_fresh_tokens_each_time() {
    let mut service = service_with(&["alice"]);
    let now = chrono::Utc::now().timestamp();
    let first = service.new_id_verify_req(issue_request("alice", now)).unwrap();
    let second = service.new_id_verify_req(issue_request("alice", now)).unwrap();
    assert_ne!(first.reference, second.reference);
    let messages = service.get_not_sent_requests(now).unwrap();
    assert_eq!(messages.len(), 2);
    assert_ne!(messages[0].body, messages[1].body);
}

#[test]
fn new_id_verify_req_rejects_a_skewed_clock() {
    let mut service = service_with(&["alice"]);
    let now = chrono::Utc::now().timestamp();
    assert!(matches!(
        service.new_id_verify_req(issue_request("alice", now + 1000)),
        Err(ServiceError::ClockSkew)
    ));
    assert!(matches!(
        service.check_id_verify_req(check_request("R1", "S1S1S1S1", now - 1000)),
        Err(ServiceError::ClockSkew)
    ));
    assert_eq!(service.get_not_sent_requests(now).unwrap().len(), 0);
}

#[test]
fn notifications_are_listed_until_sent_or_expired() {
    let mut service = service_with(&["alice", "bob"]);
    service
        .issue(issue_request("alice", NOW), NOW, "S1S1S1S1".to_string(), "R1".to_string())
        .unwrap();
    service
        .issue(issue_request("bob", NOW + 100), NOW + 100, "S2S2S2S2".to_string(), "R2".to_string())
        .unwrap();
    let messages = service.get_not_sent_requests(NOW + 100).unwrap();
    assert_eq!(messages.len(), 2);
    assert_eq!(messages[0].id, Some(1));
    assert_eq!(messages[1].id, Some(2));

    service.mark_as_sent(1, NOW + 150).unwrap();
    let messages = service.get_not_sent_requests(NOW + 150).unwrap();
    assert_eq!(messages.len(), 1);
    assert_eq!(messages[0].id, Some(2));

    assert_eq!(service.get_not_sent_requests(NOW + 999).unwrap().len(), 1);
    assert_eq!(service.get_not_sent_requests(NOW + 1000).unwrap().len(), 0);
}

#[test]
fn notification_outlives_the_challenge() {
    let mut service = service_with(&["alice"]);
    service
        .issue(issue_request("alice", NOW), NOW, "S1S1S1S1".to_string(), "R1".to_string())
        .unwrap();
    assert!(matches!(
        service.check(check_request("R1", "S1S1S1S1", NOW + 600), NOW + 600),
        Err(ServiceError::NotFound)
    ));
    assert_eq!(service.get_not_sent_requests(NOW + 600).unwrap().len(), 1);
    assert_eq!(service.get_not_sent_requests(NOW + 899).unwrap().len(), 1);
    assert_eq!(service.get_not_sent_requests(NOW + 900).unwrap().len(), 0);
}

#[test]
fn mark_as_sent_of_an_unknown_message_changes_nothing() {
    let mut service = service_with(&["alice"]);
    service
        .issue(issue_request("alice", NOW), NOW, "S1S1S1S1".to_string(), "R1".to_string())
        .unwrap();
    service.mark_as_sent(7, NOW).unwrap();
    assert_eq!(service.get_not_sent_requests(NOW).unwrap().len(), 1);
}

#[test]
fn employees_are_added_read_updated_and_deleted() {
    let mut service = service_with(&["alice", "bob"]);
    let all = service.get_all_employees().unwrap();
    assert_eq!(all.len(), 2);
    assert_eq!(all[0].id, Some(1));
    assert_eq!(all[0].username, Some("alice".to_string()));
    assert_eq!(all[1].id, Some(2));
    assert_eq!(all[1].username, Some("bob".to_string()));

    let bob = service.get_employee(2).unwrap();
    assert_eq!(bob.username, Some("bob".to_string()));
    assert_eq!(bob.office_email, Some("bob@example.org".to_string()));

    let mut update = EmployeeModel::empty();
    update.id = Some(2);
    update.mobile = Some("1234".to_string());
    service.update_employee(update).unwrap();
    let bob = service.get_employee(2).unwrap();
    assert_eq!(bob.mobile, Some("1234".to_string()));
    assert_eq!(bob.username, Some("bob".to_string()));
    assert_eq!(bob.id, Some(2));

    service.delete_employee(1).unwrap();
    assert!(matches!(service.get_employee(1), Err(ServiceError::NotFound)));
    let all = service.get_all_employees().unwrap();
    assert_eq!(all.len(), 1);
    assert_eq!(all[0].id, Some(2));
}

#[test]
fn add_employee_refuses_a_model_with_an_id() {
    let mut service = service_with(&[]);
    let mut model = employee("alice");
    model.id = Some(5);
    match service.add_employee(model) {
        Err(ServiceError::StorageError(e)) => assert_eq!(e.get_code(), 2000),
        _ => panic!("a model that carries an id must be refused"),
    }
    assert_eq!(service.get_all_employees().unwrap().len(), 0);
}

#[test]
fn update_employee_needs_an_id_of_an_employee() {
    let mut service = service_with(&["alice"]);
    let mut update = EmployeeModel::empty();
    update.mobile = Some("1234".to_string());
    match service.update_employee(update) {
        Err(ServiceError::StorageError(e)) => assert_eq!(e.get_code(), 3000),
        _ => panic!("an update without an id must be refused"),
    }
    let mut update = EmployeeModel::empty();
    update.id = Some(9);
    update.mobile = Some("1234".to_string());
    assert!(matches!(service.update_employee(update), Err(ServiceError::NotFound)));
    assert_eq!(service.get_employee(1).unwrap().mobile, Some("0000".to_string()));
}

#[test]
fn error_messages_tell_the_kinds_apart_and_no_more() {
    let not_found: ServiceError<InMemoryDaoError> = ServiceError::NotFound;
    let failed: ServiceError<InMemoryDaoError> = ServiceError::VerificationFailed;
    let skew: ServiceError<InMemoryDaoError> = ServiceError::ClockSkew;
    let storage = ServiceError::StorageError(InMemoryDaoError::id_sequence_exhausted());
    let violation: ServiceError<InMemoryDaoError> = ServiceError::InvariantViolation;
    assert_eq!(not_found.message(), "not found");
    assert_eq!(failed.message(), "identity verification error");
    assert_eq!(skew.message(), "clock skew");
    assert_eq!(storage.message(), "storage error");
    assert_eq!(violation.message(), "invariant violation");
}

#[test]
fn service_error_from_a_store_error_goes_by_its_kind() {
    assert!(matches!(
        ServiceError::from(InMemoryDaoError::entity_not_found()),
        ServiceError::NotFound
    ));
    assert!(matches!(
        ServiceError::from(InMemoryDaoError::more_than_one_entity_found()),
        ServiceError::InvariantViolation
    ));
    match ServiceError::from(InMemoryDaoError::id_field_must_be_none()) {
        ServiceError::StorageError(e) => assert_eq!(e.get_code(), 2000),
        _ => panic!("any other store error is a storage error"),
    }
}
