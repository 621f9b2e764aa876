use web_service::daos::InMemoryDao;
use web_service::in_memory_dao::{InMemoryDaoError, InMemoryDb};
use web_service::models::EmployeeModel;
use web_service::traits::Dao;

fn employee(username: &str, mobile: &str) -> EmployeeModel {
    let mut model = EmployeeModel::empty();
    model.username = Some(username.to_string());
    model.mobile = Some(mobile.to_string());
    model
}

fn table() -> InMemoryDb<EmployeeModel> {
    let mut db = InMemoryDb::new();
    db.insert_into(employee("alice", "1")).unwrap();
    db.insert_into(employee("bob", "2")).unwrap();
    db.insert_into(employee("carol", "2")).unwrap();
    db
}

#[test]
fn error_constructors_carry_code_and_message() {
    let e = InMemoryDaoError::entity_not_found();
    assert_eq!(e.get_code(), 1000);
    assert_eq!(e.get_msg(), "Entity not found");
    let e = InMemoryDaoError::id_field_must_be_none();
    assert_eq!(e.get_code(), 2000);
    assert_eq!(e.get_msg(), "The field 'id' must be none");
    let e = InMemoryDaoError::id_field_must_not_be_none();
    assert_eq!(e.get_code(), 3000);
    assert_eq!(e.get_msg(), "The field 'id' must not be none");
    let e = InMemoryDaoError::more_than_one_entity_found();
    assert_eq!(e.get_code(), 4000);
    assert_eq!(e.get_msg(), "More than one entity found");
    let e = InMemoryDaoError::id_sequence_exhausted();
    assert_eq!(e.get_code(), 5000);
    assert_eq!(e.get_msg(), "No identifier is left");
    let e = InMemoryDaoError::datastore_in_use();
    assert_eq!(e.get_code(), 6000);
    assert_eq!(e.get_msg(), "The datastore is in use");
}

#[test]
fn new_table_is_empty() {
    let db = InMemoryDb::<EmployeeModel>::new();
    assert_eq!(db.count(), 0);
    assert_eq!(db.get_all().unwrap().len(), 0);
}

#[test]
fn insert_hands_out_ids_from_one() {
    let db = table();
    assert_eq!(db.count(), 3);
    let all = db.get_all().unwrap();
    assert_eq!(all.len(), 3);
    assert_eq!(all[0].id, Some(1));
    assert_eq!(all[0].username, Some("alice".to_string()));
    assert_eq!(all[1].id, Some(2));
    assert_eq!(all[1].username, Some("bob".to_string()));
    assert_eq!(all[2].id, Some(3));
    assert_eq!(all[2].username, Some("carol".to_string()));
}

#[test]
fn insert_refuses_an_entity_with_an_id() {
    let mut db = table();
    let mut model = employee("dave", "4");
    model.id = Some(1);
    assert_eq!(db.insert_into(model).unwrap_err().get_code(), 2000);
    assert_eq!(db.count(), 3);
}

#[test]
fn ids_are_not_handed_out_twice_after_a_delete() {
    let mut db = table();
    db.delete(3).unwrap();
    db.insert_into(employee("dave", "4")).unwrap();
    let all = db.get_all().unwrap();
    assert_eq!(all.len(), 3);
    assert_eq!(all[2].id, Some(4));
    assert_eq!(all[2].username, Some("dave".to_string()));
}

#[test]
fn get_one_by_id_finds_the_entity_or_reports_not_found() {
    let db = table();
    let bob = db.get_one_by_id(2).unwrap();
    assert_eq!(bob.id, Some(2));
    assert_eq!(bob.username, Some("bob".to_string()));
    assert_eq!(db.get_one_by_id(4).unwrap_err().get_code(), 1000);
    assert_eq!(db.get_one_by_id(0).unwrap_err().get_code(), 1000);
    assert_eq!(db.get_one_by_id(-1).unwrap_err().get_code(), 1000);
}

#[test]
fn get_selects_by_predicate_in_id_order() {
    let db = table();
    let found = db.get(|e: &EmployeeModel| e.mobile == Some("2".to_string())).unwrap();
    assert_eq!(found.len(), 2);
    assert_eq!(found[0].id, Some(2));
    assert_eq!(found[1].id, Some(3));
    let found = db.get(|_e: &EmployeeModel| false).unwrap();
    assert_eq!(found.len(), 0);
}

#[test]
fn get_one_wants_exactly_one_match() {
    let db = table();
    let alice = db.get_one(|e: &EmployeeModel| e.username == Some("alice".to_string())).unwrap();
    assert_eq!(alice.id, Some(1));
    let none = db.get_one(|e: &EmployeeModel| e.username == Some("dave".to_string()));
    assert_eq!(none.unwrap_err().get_code(), 1000);
    let many = db.get_one(|e: &EmployeeModel| e.mobile == Some("2".to_string()));
    assert_eq!(many.unwrap_err().get_code(), 4000);
}

#[test]
fn update_applies_set_fields_to_the_matches_only() {
    let mut db = table();
    let mut update = EmployeeModel::empty();
    update.office_email = Some("x@example.org".to_string());
    db.update(update, |e: &EmployeeModel| e.mobile == Some("2".to_string())).unwrap();
    let all = db.get_all().unwrap();
    assert_eq!(all[0].office_email, None);
    assert_eq!(all[1].office_email, Some("x@example.org".to_string()));
    assert_eq!(all[2].office_email, Some("x@example.org".to_string()));
    assert_eq!(all[1].username, Some("bob".to_string()));
    assert_eq!(all[1].id, Some(2));
    assert_eq!(db.count(), 3);
}

#[test]
fn update_one_goes_by_the_id_of_the_values() {
    let mut db = table();
    let mut update = EmployeeModel::empty();
    update.id = Some(2);
    update.first_name = Some("Robert".to_string());
    db.update_one(update).unwrap();
    let bob = db.get_one_by_id(2).unwrap();
    assert_eq!(bob.first_name, Some("Robert".to_string()));
    assert_eq!(bob.username, Some("bob".to_string()));
    assert_eq!(db.get_one_by_id(1).unwrap().first_name, None);

    let mut update = EmployeeModel::empty();
    update.first_name = Some("Nobody".to_string());
    assert_eq!(db.update_one(update).unwrap_err().get_code(), 3000);

    let mut update = EmployeeModel::empty();
    update.id = Some(9);
    assert_eq!(db.update_one(update).unwrap_err().get_code(), 1000);
}

#[test]
fn delete_removes_the_entity_and_ignores_unknown_ids() {
    let mut db = table();
    db.delete(2).unwrap();
    assert_eq!(db.count(), 2);
    assert_eq!(db.get_one_by_id(2).unwrap_err().get_code(), 1000);
    db.delete(2).unwrap();
    db.delete(77).unwrap();
    assert_eq!(db.count(), 2);
}

#[test]
fn clone_of_a_table_is_independent() {
    let mut db = table();
    let copy = db.clone();
    db.delete(1).unwrap();
    assert_eq!(db.count(), 2);
    assert_eq!(copy.count(), 3);
    assert_eq!(copy.get_one_by_id(1).unwrap().username, Some("alice".to_string()));
}

fn store() -> InMemoryDao<EmployeeModel> {
    let mut dao = InMemoryDao::new();
    dao.insert_into(employee("alice", "1")).unwrap();
    dao.insert_into(employee("bob", "2")).unwrap();
    dao.insert_into(employee("carol", "2")).unwrap();
    dao
}

#[test]
fn dao_update_refuses_values_with_an_id() {
    let mut dao = store();
    let mut update = EmployeeModel::empty();
    update.id = Some(1);
    update.mobile = Some("9".to_string());
    assert_eq!(dao.update(update, |_e: &EmployeeModel| true).unwrap_err().get_code(), 2000);
    assert_eq!(dao.get_one(1).unwrap().mobile, Some("1".to_string()));
}

#[test]
fn dao_update_applies_to_the_matches() {
    let mut dao = store();
    let mut update = EmployeeModel::empty();
    update.mobile = Some("9".to_string());
    dao.update(update, |e: &EmployeeModel| e.username == Some("bob".to_string())).unwrap();
    assert_eq!(dao.get_one(1).unwrap().mobile, Some("1".to_string()));
    assert_eq!(dao.get_one(2).unwrap().mobile, Some("9".to_string()));
    assert_eq!(dao.get_one(3).unwrap().mobile, Some("2".to_string()));
}

#[test]
fn dao_update_one_goes_by_the_given_id() {
    let mut dao = store();
    let mut update = EmployeeModel::empty();
    update.mobile = Some("9".to_string());
    dao.update_one(3, update).unwrap();
    assert_eq!(dao.get_one(3).unwrap().mobile, Some("9".to_string()));
    assert_eq!(dao.get_one(3).unwrap().id, Some(3));

    let mut update = EmployeeModel::empty();
    update.id = Some(3);
    assert_eq!(dao.update_one(3, update).unwrap_err().get_code(), 2000);
    assert_eq!(dao.update_one(4, EmployeeModel::empty()).unwrap_err().get_code(), 1000);
}

#[test]
fn dao_delete_removes_the_matches() {
    let mut dao = store();
    dao.delete(|e: &EmployeeModel| e.mobile == Some("2".to_string())).unwrap();
    assert_eq!(dao.count(), 1);
    let all = dao.get_all().unwrap();
    assert_eq!(all[0].username, Some("alice".to_string()));
    dao.delete(|_e: &EmployeeModel| false).unwrap();
    assert_eq!(dao.count(), 1);
}

#[test]
fn dao_delete_one_and_get() {
    let mut dao = store();
    dao.delete_one(1).unwrap();
    assert_eq!(dao.get_one(1).unwrap_err().get_code(), 1000);
    let found = dao.get(|e: &EmployeeModel| e.mobile == Some("2".to_string())).unwrap();
    assert_eq!(found.len(), 2);
    assert_eq!(found[0].id, Some(2));
    assert_eq!(found[1].id, Some(3));
}
