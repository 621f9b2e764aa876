use web_service::dao::{
    EmployeeDao, Failure, FailureKind, IdentityVerifyRequestDao, NotifyRequestDao,
    TransactionContext, TransactionContextBuilder,
};
use web_service::in_memory_dao::{
    InMemoryDaoError, InMemoryEmployeeDao, InMemoryIdentityVerifyRequestDao,
    InMemoryNotifyRequestDao, InMemoryTransactionContextBuilder,
};
use web_service::models::{EmployeeModel, IdentityVerifyRequestModel, NotifyRequestModel};

fn employee(username: &str) -> EmployeeModel {
    let mut model = EmployeeModel::empty();
    model.username = Some(username.to_string());
    model
}

fn challenge(reference: &str, employee_id: i32, expire_utc_dt: i64) -> IdentityVerifyRequestModel {
    let mut model = IdentityVerifyRequestModel::empty();
    model.reference = Some(reference.to_string());
    model.secret = Some("secret".to_string());
    model.active = Some(true);
    model.create_utc_dt = Some(0);
    model.expire_utc_dt = Some(expire_utc_dt);
    model.employee_id = Some(employee_id);
    model
}

fn message(employee_id: i32, expire_utc_dt: i64) -> NotifyRequestModel {
    let mut model = NotifyRequestModel::empty();
    model.title = Some("title".to_string());
    model.body = Some("body".to_string());
    model.create_utc_dt = Some(0);
    model.expire_utc_dt = Some(expire_utc_dt);
    model.employee_id = Some(employee_id);
    model
}

#[test]
fn error_kinds_go_by_the_code() {
    assert_eq!(InMemoryDaoError::entity_not_found().kind(), FailureKind::NotFound);
    assert_eq!(InMemoryDaoError::more_than_one_entity_found().kind(), FailureKind::MoreThanOne);
    assert_eq!(InMemoryDaoError::id_field_must_be_none().kind(), FailureKind::Other);
    assert_eq!(InMemoryDaoError::id_field_must_not_be_none().kind(), FailureKind::Other);
    assert_eq!(InMemoryDaoError::id_sequence_exhausted().kind(), FailureKind::Other);
    assert_eq!(InMemoryDaoError::datastore_in_use().kind(), FailureKind::Other);
}

#[test]
fn the_datastore_lends_one_context_at_a_time() {
    let mut builder = InMemoryTransactionContextBuilder::new();
    let first = builder.build().unwrap();
    match builder.build() {
        Err(e) => assert_eq!(e.get_code(), 6000),
        Ok(_) => panic!("the one context is out"),
    }
    builder.release(first);
    assert!(builder.build().is_ok());
}

#[test]
fn commit_makes_writes_durable() {
    let mut builder = InMemoryTransactionContextBuilder::new();
    let mut employees = InMemoryEmployeeDao::new();

    let mut tc = builder.build().unwrap();
    tc.begin().unwrap();
    employees.insert_into(&mut tc, employee("alice")).unwrap();
    tc.commit().unwrap();
    builder.release(tc);

    let mut tc = builder.build().unwrap();
    tc.begin().unwrap();
    let all = employees.get_all(&mut tc).unwrap();
    assert_eq!(all.len(), 1);
    assert_eq!(all[0].id, Some(1));
    assert_eq!(all[0].username, Some("alice".to_string()));
}

#[test]
fn rollback_drops_writes() {
    let mut builder = InMemoryTransactionContextBuilder::new();
    let mut employees = InMemoryEmployeeDao::new();

    let mut tc = builder.build().unwrap();
    tc.begin().unwrap();
    employees.insert_into(&mut tc, employee("alice")).unwrap();
    assert_eq!(employees.get_all(&mut tc).unwrap().len(), 1);
    tc.rollback().unwrap();
    assert_eq!(employees.get_all(&mut tc).unwrap().len(), 0);
    builder.release(tc);

    let mut tc = builder.build().unwrap();
    tc.begin().unwrap();
    assert_eq!(employees.get_all(&mut tc).unwrap().len(), 0);
    employees.insert_into(&mut tc, employee("bob")).unwrap();
    assert_eq!(employees.get_one(&mut tc, 1).unwrap().username, Some("bob".to_string()));
}

#[test]
fn writes_that_are_not_committed_are_lost_with_the_context() {
    let mut builder = InMemoryTransactionContextBuilder::new();
    let mut employees = InMemoryEmployeeDao::new();
    let mut tc = builder.build().unwrap();
    tc.begin().unwrap();
    employees.insert_into(&mut tc, employee("alice")).unwrap();
    builder.release(tc);

    let mut tc = builder.build().unwrap();
    tc.begin().unwrap();
    assert_eq!(employees.get_all(&mut tc).unwrap().len(), 0);
}

#[test]
fn employee_lookup_by_username() {
    let mut builder = InMemoryTransactionContextBuilder::new();
    let mut employees = InMemoryEmployeeDao::new();
    let mut tc = builder.build().unwrap();
    tc.begin().unwrap();
    employees.insert_into(&mut tc, employee("alice")).unwrap();
    employees.insert_into(&mut tc, employee("bob")).unwrap();
    employees.insert_into(&mut tc, employee("bob")).unwrap();

    let alice = employees.get_by_username(&mut tc, "alice".to_string()).unwrap();
    assert_eq!(alice.id, Some(1));
    let none = employees.get_by_username(&mut tc, "carol".to_string()).unwrap_err();
    assert_eq!(none.get_code(), 1000);
    let many = employees.get_by_username(&mut tc, "bob".to_string()).unwrap_err();
    assert_eq!(many.get_code(), 4000);

    employees.delete(&mut tc, 3).unwrap();
    assert_eq!(employees.get_by_username(&mut tc, "bob".to_string()).unwrap().id, Some(2));
    assert_eq!(employees.get_one(&mut tc, 3).unwrap_err().get_code(), 1000);

    let mut update = EmployeeModel::empty();
    update.id = Some(2);
    update.username = Some("robert".to_string());
    employees.update(&mut tc, update).unwrap();
    assert_eq!(employees.get_by_username(&mut tc, "robert".to_string()).unwrap().id, Some(2));
}

#[test]
fn active_challenge_by_reference() {
    let mut builder = InMemoryTransactionContextBuilder::new();
    let mut requests = InMemoryIdentityVerifyRequestDao::new();
    let mut tc = builder.build().unwrap();
    tc.begin().unwrap();
    requests.insert_into(&mut tc, challenge("R1", 1, 100)).unwrap();
    requests.insert_into(&mut tc, challenge("R2", 2, 100)).unwrap();

    let found = requests.get_active_request_by_reference(&mut tc, "R1".to_string(), 50).unwrap();
    assert_eq!(found.id, Some(1));
    assert_eq!(found.employee_id, Some(1));
    assert_eq!(found.secret, Some("secret".to_string()));

    let found = requests.get_active_request_by_reference(&mut tc, "R1".to_string(), 99);
    assert!(found.is_ok());
    let expired = requests.get_active_request_by_reference(&mut tc, "R1".to_string(), 100);
    assert_eq!(expired.unwrap_err().get_code(), 1000);
    let unknown = requests.get_active_request_by_reference(&mut tc, "R3".to_string(), 50);
    assert_eq!(unknown.unwrap_err().get_code(), 1000);

    requests.insert_into(&mut tc, challenge("R2", 3, 100)).unwrap();
    let many = requests.get_active_request_by_reference(&mut tc, "R2".to_string(), 50);
    assert_eq!(many.unwrap_err().get_code(), 4000);
}

#[test]
fn deactivate_all_requests_of_one_employee() {
    let mut builder = InMemoryTransactionContextBuilder::new();
    let mut requests = InMemoryIdentityVerifyRequestDao::new();
    let mut tc = builder.build().unwrap();
    tc.begin().unwrap();
    requests.insert_into(&mut tc, challenge("R1", 1, 100)).unwrap();
    requests.insert_into(&mut tc, challenge("R2", 2, 100)).unwrap();
    requests.insert_into(&mut tc, challenge("R3", 1, 100)).unwrap();

    requests.deactivate_all_requests(&mut tc, 1).unwrap();
    assert_eq!(
        requests.get_active_request_by_reference(&mut tc, "R1".to_string(), 50).unwrap_err().get_code(),
        1000
    );
    assert_eq!(
        requests.get_active_request_by_reference(&mut tc, "R3".to_string(), 50).unwrap_err().get_code(),
        1000
    );
    let other = requests.get_active_request_by_reference(&mut tc, "R2".to_string(), 50).unwrap();
    assert_eq!(other.id, Some(2));
    assert_eq!(other.active, Some(true));
    assert_eq!(other.verified_utc_dt, None);
}

#[test]
fn verify_request_consumes_the_challenge() {
    let mut builder = InMemoryTransactionContextBuilder::new();
    let mut requests = InMemoryIdentityVerifyRequestDao::new();
    let mut tc = builder.build().unwrap();
    tc.begin().unwrap();
    requests.insert_into(&mut tc, challenge("R1", 1, 100)).unwrap();
    requests.verify_request(&mut tc, 1, 60).unwrap();
    assert_eq!(
        requests.get_active_request_by_reference(&mut tc, "R1".to_string(), 50).unwrap_err().get_code(),
        1000
    );
    assert_eq!(requests.verify_request(&mut tc, 2, 60).unwrap_err().get_code(), 1000);
}

#[test]
fn insert_refuses_models_with_an_id() {
    let mut builder = InMemoryTransactionContextBuilder::new();
    let mut employees = InMemoryEmployeeDao::new();
    let mut requests = InMemoryIdentityVerifyRequestDao::new();
    let mut notifications = InMemoryNotifyRequestDao::new();
    let mut tc = builder.build().unwrap();
    tc.begin().unwrap();
    let mut e = employee("alice");
    e.id = Some(1);
    assert_eq!(employees.insert_into(&mut tc, e).unwrap_err().get_code(), 2000);
    let mut c = challenge("R1", 1, 100);
    c.id = Some(1);
    assert_eq!(requests.insert_into(&mut tc, c).unwrap_err().get_code(), 2000);
    let mut m = message(1, 100);
    m.id = Some(1);
    assert_eq!(notifications.insert_into(&mut tc, m).unwrap_err().get_code(), 2000);
}

#[test]
fn messages_not_sent_and_not_expired() {
    let mut builder = InMemoryTransactionContextBuilder::new();
    let mut notifications = InMemoryNotifyRequestDao::new();
    let mut tc = builder.build().unwrap();
    tc.begin().unwrap();
    notifications.insert_into(&mut tc, message(1, 100)).unwrap();
    notifications.insert_into(&mut tc, message(2, 200)).unwrap();
    let mut without_expiry = message(3, 0);
    without_expiry.expire_utc_dt = None;
    notifications.insert_into(&mut tc, without_expiry).unwrap();

    let waiting = notifications.get_not_sent_requests(&mut tc, 50).unwrap();
    assert_eq!(waiting.len(), 2);
    assert_eq!(waiting[0].id, Some(1));
    assert_eq!(waiting[1].id, Some(2));

    let waiting = notifications.get_not_sent_requests(&mut tc, 100).unwrap();
    assert_eq!(waiting.len(), 1);
    assert_eq!(waiting[0].id, Some(2));

    notifications.mark_as_sent(&mut tc, 2, 120).unwrap();
    assert_eq!(notifications.get_not_sent_requests(&mut tc, 120).unwrap().len(), 0);
    let waiting = notifications.get_not_sent_requests(&mut tc, 50).unwrap();
    assert_eq!(waiting.len(), 1);
    assert_eq!(waiting[0].id, Some(1));
}
