use web_service::dao::{single, FailureKind};
use web_service::domain::{employee_models, Employee, IdentityVerifyRequest, NotifyRequest};
use web_service::in_memory_dao::InMemoryDaoError;
use web_service::models::{EmployeeModel, IdentityVerifyRequestModel, NotifyRequestModel};
use web_service::responses::{error_status, status};
use web_service::secrets::constant_time_eq;
use web_service::service::ServiceError;
use web_service::traits::{Appliable, Identifiable};

#[test]
fn constant_time_eq_compares_texts() {
    assert!(constant_time_eq("", ""));
    assert!(constant_time_eq("aB3dE6gH", "aB3dE6gH"));
    assert!(!constant_time_eq("aB3dE6gH", "aB3dE6gh"));
    assert!(!constant_time_eq("aB3dE6gH", "AB3dE6gH"));
    assert!(!constant_time_eq("aB3dE6gH", "aB3dE6g"));
    assert!(!constant_time_eq("aB3dE6g", "aB3dE6gH"));
    assert!(!constant_time_eq("", "a"));
    assert!(constant_time_eq("pässwörd", "pässwörd"));
    assert!(!constant_time_eq("pässwörd", "passwörd"));
    assert!(!constant_time_eq("é", "e\u{301}"));
}

#[test]
fn status_goes_by_the_kind_of_the_error() {
    let ok: Result<(), ServiceError<InMemoryDaoError>> = Ok(());
    assert_eq!(status(&ok), 200);
    let not_found: Result<(), ServiceError<InMemoryDaoError>> = Err(ServiceError::NotFound);
    assert_eq!(status(&not_found), 404);
    assert_eq!(error_status::<InMemoryDaoError>(&ServiceError::VerificationFailed), 401);
    assert_eq!(error_status::<InMemoryDaoError>(&ServiceError::ClockSkew), 400);
    assert_eq!(error_status::<InMemoryDaoError>(&ServiceError::InvariantViolation), 500);
    assert_eq!(error_status(&ServiceError::StorageError(InMemoryDaoError::entity_not_found())), 404);
    assert_eq!(
        error_status(&ServiceError::StorageError(InMemoryDaoError::more_than_one_entity_found())),
        500
    );
    assert_eq!(
        error_status(&ServiceError::StorageError(InMemoryDaoError::id_sequence_exhausted())),
        500
    );
}

#[test]
fn employee_apply_takes_set_fields_and_keeps_the_id() {
    let mut stored = EmployeeModel::empty();
    stored.id = Some(4);
    stored.first_name = Some("A".to_string());
    stored.username = Some("alice".to_string());
    let mut update = EmployeeModel::empty();
    update.id = Some(9);
    update.first_name = Some("B".to_string());
    update.mobile = Some("1".to_string());
    stored.apply(&update);
    assert_eq!(stored.id, Some(4));
    assert_eq!(stored.first_name, Some("B".to_string()));
    assert_eq!(stored.username, Some("alice".to_string()));
    assert_eq!(stored.mobile, Some("1".to_string()));
    assert_eq!(stored.second_name, None);
}

#[test]
fn challenge_apply_takes_set_fields_and_keeps_the_id() {
    let mut stored = IdentityVerifyRequestModel::empty();
    stored.id = Some(1);
    stored.reference = Some("R".to_string());
    stored.secret = Some("S".to_string());
    stored.active = Some(true);
    stored.create_utc_dt = Some(10);
    stored.expire_utc_dt = Some(310);
    stored.employee_id = Some(3);
    let mut update = IdentityVerifyRequestModel::empty();
    update.active = Some(false);
    update.verified_utc_dt = Some(20);
    stored.apply(&update);
    assert_eq!(stored.id, Some(1));
    assert_eq!(stored.reference, Some("R".to_string()));
    assert_eq!(stored.secret, Some("S".to_string()));
    assert_eq!(stored.active, Some(false));
    assert_eq!(stored.create_utc_dt, Some(10));
    assert_eq!(stored.expire_utc_dt, Some(310));
    assert_eq!(stored.verified_utc_dt, Some(20));
    assert_eq!(stored.employee_id, Some(3));
}

#[test]
fn message_apply_takes_set_fields() {
    let mut stored = NotifyRequestModel::empty();
    stored.id = Some(1);
    stored.title = Some("T".to_string());
    stored.body = Some("B".to_string());
    stored.expire_utc_dt = Some(900);
    let mut update = NotifyRequestModel::empty();
    update.send_utc_dt = Some(5);
    stored.apply(&update);
    assert_eq!(stored.id, Some(1));
    assert_eq!(stored.title, Some("T".to_string()));
    assert_eq!(stored.body, Some("B".to_string()));
    assert_eq!(stored.expire_utc_dt, Some(900));
    assert_eq!(stored.send_utc_dt, Some(5));
}

#[test]
fn models_take_and_give_their_id() {
    let mut e = EmployeeModel::empty();
    assert_eq!(e.id(), None);
    e.set_id(3);
    assert_eq!(e.id(), Some(3));
    let mut c = IdentityVerifyRequestModel::empty();
    c.set_id(4);
    assert_eq!(c.id(), Some(4));
    let mut n = NotifyRequestModel::empty();
    n.set_id(5);
    assert_eq!(n.id(), Some(5));
    let copy = e.clone();
    assert_eq!(copy.id, Some(3));
}

#[test]
fn rows_become_models_with_every_field_set() {
    let rows = vec![
        Employee {
            id: 1,
            employee_nr: "n1".to_string(),
            first_name: "A".to_string(),
            second_name: "B".to_string(),
            username: "alice".to_string(),
            office_email: "a@example.org".to_string(),
            mobile: "1".to_string(),
        },
        Employee {
            id: 2,
            employee_nr: "n2".to_string(),
            first_name: "C".to_string(),
            second_name: "D".to_string(),
            username: "bob".to_string(),
            office_email: "b@example.org".to_string(),
            mobile: "2".to_string(),
        },
    ];
    let models = employee_models(&rows);
    assert_eq!(models.len(), 2);
    assert_eq!(models[0].id, Some(1));
    assert_eq!(models[0].employee_nr, Some("n1".to_string()));
    assert_eq!(models[0].first_name, Some("A".to_string()));
    assert_eq!(models[0].second_name, Some("B".to_string()));
    assert_eq!(models[0].username, Some("alice".to_string()));
    assert_eq!(models[0].office_email, Some("a@example.org".to_string()));
    assert_eq!(models[0].mobile, Some("1".to_string()));
    assert_eq!(models[1].id, Some(2));
    assert_eq!(models[1].username, Some("bob".to_string()));
    assert_eq!(employee_models(&Vec::new()).len(), 0);

    let challenge = IdentityVerifyRequest {
        id: 7,
        reference: "R".to_string(),
        secret: "S".to_string(),
        active: true,
        create_utc_dt: 10,
        expire_utc_dt: 310,
        verified_utc_dt: None,
        employee_id: 1,
    }
    .to_model();
    assert_eq!(challenge.id, Some(7));
    assert_eq!(challenge.reference, Some("R".to_string()));
    assert_eq!(challenge.secret, Some("S".to_string()));
    assert_eq!(challenge.active, Some(true));
    assert_eq!(challenge.create_utc_dt, Some(10));
    assert_eq!(challenge.expire_utc_dt, Some(310));
    assert_eq!(challenge.verified_utc_dt, None);
    assert_eq!(challenge.employee_id, Some(1));

    let message = NotifyRequest {
        id: 8,
        title: "T".to_string(),
        body: "B".to_string(),
        create_utc_dt: 10,
        expire_utc_dt: 910,
        send_utc_dt: Some(20),
        employee_id: 1,
    }
    .to_model();
    assert_eq!(message.id, Some(8));
    assert_eq!(message.title, Some("T".to_string()));
    assert_eq!(message.body, Some("B".to_string()));
    assert_eq!(message.create_utc_dt, Some(10));
    assert_eq!(message.expire_utc_dt, Some(910));
    assert_eq!(message.send_utc_dt, Some(20));
    assert_eq!(message.employee_id, Some(1));
}

#[test]
fn single_wants_exactly_one_row() {
    assert_eq!(single(vec![7]), Ok(7));
    assert_eq!(single(Vec::<i32>::new()), Err(FailureKind::NotFound));
    assert_eq!(single(vec![7, 8]), Err(FailureKind::MoreThanOne));
    assert_eq!(single(vec![7, 7, 7]), Err(FailureKind::MoreThanOne));
}
