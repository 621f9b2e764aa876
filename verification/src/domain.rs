//! The rows of the datastore as a relational backend hands them out, every
//! column set, and what they are as models.

use crate::models::{
    text, EmployeeModel, EmployeeView, IdentityVerifyRequestModel, IdentityVerifyRequestView,
    NotifyRequestModel, NotifyRequestView,
};
use vstd::prelude::*;

verus! {

/// A row of the employee table.
#[derive(Debug)]
pub struct Employee {
    pub id: i32,
    pub employee_nr: String,
    pub first_name: String,
    pub second_name: String,
    pub username: String,
    pub office_email: String,
    pub mobile: String,
}

/// A row of the table of verification challenges. Times are seconds since
/// the Unix epoch, UTC.
#[derive(Debug)]
pub struct IdentityVerifyRequest {
    pub id: i32,
    pub reference: String,
    pub secret: String,
    pub active: bool,
    pub create_utc_dt: i64,
    pub expire_utc_dt: i64,
    pub verified_utc_dt: Option<i64>,
    pub employee_id: i32,
}

/// A row of the table of messages. Times are seconds since the Unix epoch,
/// UTC.
#[derive(Debug)]
pub struct NotifyRequest {
    pub id: i32,
    pub title: String,
    pub body: String,
    pub create_utc_dt: i64,
    pub expire_utc_dt: i64,
    pub send_utc_dt: Option<i64>,
    pub employee_id: i32,
}

impl Employee {
    /// What the row is as a model.
    pub open spec fn as_view(&self) -> EmployeeView {
        EmployeeView {
            id: Some(self.id),
            employee_nr: Some(self.employee_nr@),
            first_name: Some(self.first_name@),
            second_name: Some(self.second_name@),
            username: Some(self.username@),
            office_email: Some(self.office_email@),
            mobile: Some(self.mobile@),
        }
    }

    /// The model of the row: every field set.
    pub fn to_model(&self) -> (r: EmployeeModel)
        ensures
            r@ == self.as_view(),
    {
        EmployeeModel {
            id: Some(self.id),
            employee_nr: Some(self.employee_nr.clone()),
            first_name: Some(self.first_name.clone()),
            second_name: Some(self.second_name.clone()),
            username: Some(self.username.clone()),
            office_email: Some(self.office_email.clone()),
            mobile: Some(self.mobile.clone()),
        }
    }
}

impl IdentityVerifyRequest {
    /// What the row is as a model.
    pub open spec fn as_view(&self) -> IdentityVerifyRequestView {
        IdentityVerifyRequestView {
            id: Some(self.id),
            reference: Some(self.reference@),
            secret: Some(self.secret@),
            active: Some(self.active),
            create_utc_dt: Some(self.create_utc_dt),
            expire_utc_dt: Some(self.expire_utc_dt),
            verified_utc_dt: self.verified_utc_dt,
            employee_id: Some(self.employee_id),
        }
    }

    /// The model of the row.
    pub fn to_model(&self) -> (r: IdentityVerifyRequestModel)
        ensures
            r@ == self.as_view(),
    {
        IdentityVerifyRequestModel {
            id: Some(self.id),
            reference: Some(self.reference.clone()),
            secret: Some(self.secret.clone()),
            active: Some(self.active),
            create_utc_dt: Some(self.create_utc_dt),
            expire_utc_dt: Some(self.expire_utc_dt),
            verified_utc_dt: self.verified_utc_dt,
            employee_id: Some(self.employee_id),
        }
    }
}

impl NotifyRequest {
    /// What the row is as a model.
    pub open spec fn as_view(&self) -> NotifyRequestView {
        NotifyRequestView {
            id: Some(self.id),
            title: Some(self.title@),
            body: Some(self.body@),
            create_utc_dt: Some(self.create_utc_dt),
            expire_utc_dt: Some(self.expire_utc_dt),
            send_utc_dt: self.send_utc_dt,
            employee_id: Some(self.employee_id),
        }
    }

    /// The model of the row.
    pub fn to_model(&self) -> (r: NotifyRequestModel)
        ensures
            r@ == self.as_view(),
    {
        NotifyRequestModel {
            id: Some(self.id),
            title: Some(self.title.clone()),
            body: Some(self.body.clone()),
            create_utc_dt: Some(self.create_utc_dt),
            expire_utc_dt: Some(self.expire_utc_dt),
            send_utc_dt: self.send_utc_dt,
            employee_id: Some(self.employee_id),
        }
    }
}

/// The models of `rows`, in their order.
pub fn employee_models(rows: &Vec<Employee>) -> (r: Vec<EmployeeModel>)
    ensures
        r@.len() == rows@.len(),
        forall|i: int| 0 <= i < rows@.len() ==> (#[trigger] r@[i])@ == rows@[i].as_view(),
{
    let mut models: Vec<EmployeeModel> = Vec::new();
    let mut i: usize = 0;
    while i < rows.len()
        invariant
            0 <= i <= rows@.len(),
            models@.len() == i,
            forall|j: int| 0 <= j < i ==> (#[trigger] models@[j])@ == rows@[j].as_view(),
        decreases rows@.len() - i,
    {
        models.push(rows[i].to_model());
        i = i + 1;
    }
    models
}

} // verus!
