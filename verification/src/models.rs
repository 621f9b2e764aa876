//! The records that travel between the service and its stores, and the
//! messages of the two verification calls.
//!
//! A model has every field optional: a stored row has them set, a value
//! handed to an update names only the fields to change.

use crate::traits::{Appliable, Identifiable};
use vstd::prelude::*;

verus! {

/// The text of an optional string.
pub open spec fn text(value: Option<String>) -> Option<Seq<char>> {
    match value {
        Some(s) => Some(s@),
        None => None,
    }
}

/// `update` where it is set, `current` where it is not.
pub open spec fn overlay<T>(current: Option<T>, update: Option<T>) -> Option<T> {
    if update is Some {
        update
    } else {
        current
    }
}

fn clone_text(value: &Option<String>) -> (r: Option<String>)
    ensures
        r == *value,
{
    match value {
        Some(s) => Some(s.clone()),
        None => None,
    }
}

/// An employee of the directory.
#[derive(Debug)]
pub struct EmployeeModel {
    pub id: Option<i32>,
    pub employee_nr: Option<String>,
    pub first_name: Option<String>,
    pub second_name: Option<String>,
    pub username: Option<String>,
    pub office_email: Option<String>,
    pub mobile: Option<String>,
}

/// What an `EmployeeModel` holds.
pub struct EmployeeView {
    pub id: Option<i32>,
    pub employee_nr: Option<Seq<char>>,
    pub first_name: Option<Seq<char>>,
    pub second_name: Option<Seq<char>>,
    pub username: Option<Seq<char>>,
    pub office_email: Option<Seq<char>>,
    pub mobile: Option<Seq<char>>,
}

impl EmployeeView {
    /// The row with the fields that `update` sets taken from it. The
    /// identifier stays.
    pub open spec fn applied(self, update: EmployeeView) -> EmployeeView {
        EmployeeView {
            id: self.id,
            employee_nr: overlay(self.employee_nr, update.employee_nr),
            first_name: overlay(self.first_name, update.first_name),
            second_name: overlay(self.second_name, update.second_name),
            username: overlay(self.username, update.username),
            office_email: overlay(self.office_email, update.office_email),
            mobile: overlay(self.mobile, update.mobile),
        }
    }

    pub open spec fn with_id(self, id: i32) -> EmployeeView {
        EmployeeView { id: Some(id), ..self }
    }
}

impl View for EmployeeModel {
    type V = EmployeeView;

    open spec fn view(&self) -> EmployeeView {
        EmployeeView {
            id: self.id,
            employee_nr: text(self.employee_nr),
            first_name: text(self.first_name),
            second_name: text(self.second_name),
            username: text(self.username),
            office_email: text(self.office_email),
            mobile: text(self.mobile),
        }
    }
}

impl EmployeeModel {
    /// A model with no field set.
    pub fn empty() -> (r: Self)
        ensures
            r == (EmployeeModel {
                id: None,
                employee_nr: None,
                first_name: None,
                second_name: None,
                username: None,
                office_email: None,
                mobile: None,
            }),
    {
        EmployeeModel {
            id: None,
            employee_nr: None,
            first_name: None,
            second_name: None,
            username: None,
            office_email: None,
            mobile: None,
        }
    }
}

impl Clone for EmployeeModel {
    fn clone(&self) -> (r: Self)
        ensures
            r == *self,
    {
        EmployeeModel {
            id: self.id,
            employee_nr: clone_text(&self.employee_nr),
            first_name: clone_text(&self.first_name),
            second_name: clone_text(&self.second_name),
            username: clone_text(&self.username),
            office_email: clone_text(&self.office_email),
            mobile: clone_text(&self.mobile),
        }
    }
}

impl Identifiable for EmployeeModel {
    open spec fn spec_id(&self) -> Option<i32> {
        self.id
    }

    open spec fn with_id(self, id: i32) -> Self {
        EmployeeModel { id: Some(id), ..self }
    }

    fn id(&self) -> (r: Option<i32>) {
        self.id
    }

    fn set_id(&mut self, id: i32) {
        self.id = Some(id);
    }
}

impl Appliable<EmployeeModel> for EmployeeModel {
    open spec fn applied(self, entity: EmployeeModel) -> Self {
        EmployeeModel {
            id: self.id,
            employee_nr: overlay(self.employee_nr, entity.employee_nr),
            first_name: overlay(self.first_name, entity.first_name),
            second_name: overlay(self.second_name, entity.second_name),
            username: overlay(self.username, entity.username),
            office_email: overlay(self.office_email, entity.office_email),
            mobile: overlay(self.mobile, entity.mobile),
        }
    }

    fn apply(&mut self, entity: &EmployeeModel) {
        if entity.first_name.is_some() {
            self.first_name = clone_text(&entity.first_name);
        }
        if entity.second_name.is_some() {
            self.second_name = clone_text(&entity.second_name);
        }
        if entity.employee_nr.is_some() {
            self.employee_nr = clone_text(&entity.employee_nr);
        }
        if entity.username.is_some() {
            self.username = clone_text(&entity.username);
        }
        if entity.office_email.is_some() {
            self.office_email = clone_text(&entity.office_email);
        }
        if entity.mobile.is_some() {
            self.mobile = clone_text(&entity.mobile);
        }
    }
}

/// A verification challenge: a public reference, a private one-time secret,
/// and the window in which the secret is accepted. Times are seconds since
/// the Unix epoch, UTC.
#[derive(Debug)]
pub struct IdentityVerifyRequestModel {
    pub id: Option<i32>,
    pub reference: Option<String>,
    pub secret: Option<String>,
    pub active: Option<bool>,
    pub create_utc_dt: Option<i64>,
    pub expire_utc_dt: Option<i64>,
    pub verified_utc_dt: Option<i64>,
    pub employee_id: Option<i32>,
}

/// What an `IdentityVerifyRequestModel` holds.
pub struct IdentityVerifyRequestView {
    pub id: Option<i32>,
    pub reference: Option<Seq<char>>,
    pub secret: Option<Seq<char>>,
    pub active: Option<bool>,
    pub create_utc_dt: Option<i64>,
    pub expire_utc_dt: Option<i64>,
    pub verified_utc_dt: Option<i64>,
    pub employee_id: Option<i32>,
}

impl IdentityVerifyRequestView {
    /// The row with the fields that `update` sets taken from it. The
    /// identifier stays.
    pub open spec fn applied(self, update: IdentityVerifyRequestView) -> IdentityVerifyRequestView {
        IdentityVerifyRequestView {
            id: self.id,
            reference: overlay(self.reference, update.reference),
            secret: overlay(self.secret, update.secret),
            active: overlay(self.active, update.active),
            create_utc_dt: overlay(self.create_utc_dt, update.create_utc_dt),
            expire_utc_dt: overlay(self.expire_utc_dt, update.expire_utc_dt),
            verified_utc_dt: overlay(self.verified_utc_dt, update.verified_utc_dt),
            employee_id: overlay(self.employee_id, update.employee_id),
        }
    }

    pub open spec fn with_id(self, id: i32) -> IdentityVerifyRequestView {
        IdentityVerifyRequestView { id: Some(id), ..self }
    }
}

impl View for IdentityVerifyRequestModel {
    type V = IdentityVerifyRequestView;

    open spec fn view(&self) -> IdentityVerifyRequestView {
        IdentityVerifyRequestView {
            id: self.id,
            reference: text(self.reference),
            secret: text(self.secret),
            active: self.active,
            create_utc_dt: self.create_utc_dt,
            expire_utc_dt: self.expire_utc_dt,
            verified_utc_dt: self.verified_utc_dt,
            employee_id: self.employee_id,
        }
    }
}

impl IdentityVerifyRequestModel {
    /// A model with no field set.
    pub fn empty() -> (r: Self)
        ensures
            r == (IdentityVerifyRequestModel {
                id: None,
                reference: None,
                secret: None,
                active: None,
                create_utc_dt: None,
                expire_utc_dt: None,
                verified_utc_dt: None,
                employee_id: None,
            }),
    {
        IdentityVerifyRequestModel {
            id: None,
            reference: None,
            secret: None,
            active: None,
            create_utc_dt: None,
            expire_utc_dt: None,
            verified_utc_dt: None,
            employee_id: None,
        }
    }
}

impl Clone for IdentityVerifyRequestModel {
    fn clone(&self) -> (r: Self)
        ensures
            r == *self,
    {
        IdentityVerifyRequestModel {
            id: self.id,
            reference: clone_text(&self.reference),
            secret: clone_text(&self.secret),
            active: self.active,
            create_utc_dt: self.create_utc_dt,
            expire_utc_dt: self.expire_utc_dt,
            verified_utc_dt: self.verified_utc_dt,
            employee_id: self.employee_id,
        }
    }
}

impl Identifiable for IdentityVerifyRequestModel {
    open spec fn spec_id(&self) -> Option<i32> {
        self.id
    }

    open spec fn with_id(self, id: i32) -> Self {
        IdentityVerifyRequestModel { id: Some(id), ..self }
    }

    fn id(&self) -> (r: Option<i32>) {
        self.id
    }

    fn set_id(&mut self, id: i32) {
        self.id = Some(id);
    }
}

impl Appliable<IdentityVerifyRequestModel> for IdentityVerifyRequestModel {
    open spec fn applied(self, entity: IdentityVerifyRequestModel) -> Self {
        IdentityVerifyRequestModel {
            id: self.id,
            reference: overlay(self.reference, entity.reference),
            secret: overlay(self.secret, entity.secret),
            active: overlay(self.active, entity.active),
            create_utc_dt: overlay(self.create_utc_dt, entity.create_utc_dt),
            expire_utc_dt: overlay(self.expire_utc_dt, entity.expire_utc_dt),
            verified_utc_dt: overlay(self.verified_utc_dt, entity.verified_utc_dt),
            employee_id: overlay(self.employee_id, entity.employee_id),
        }
    }

    fn apply(&mut self, entity: &IdentityVerifyRequestModel) {
        if entity.reference.is_some() {
            self.reference = clone_text(&entity.reference);
        }
        if entity.secret.is_some() {
            self.secret = clone_text(&entity.secret);
        }
        if entity.active.is_some() {
            self.active = entity.active;
        }
        if entity.create_utc_dt.is_some() {
            self.create_utc_dt = entity.create_utc_dt;
        }
        if entity.expire_utc_dt.is_some() {
            self.expire_utc_dt = entity.expire_utc_dt;
        }
        if entity.verified_utc_dt.is_some() {
            self.verified_utc_dt = entity.verified_utc_dt;
        }
        if entity.employee_id.is_some() {
            self.employee_id = entity.employee_id;
        }
    }
}

/// A message waiting to be delivered to an employee. Times are seconds
/// since the Unix epoch, UTC.
#[derive(Debug)]
pub struct NotifyRequestModel {
    pub id: Option<i32>,
    pub title: Option<String>,
    pub body: Option<String>,
    pub create_utc_dt: Option<i64>,
    pub expire_utc_dt: Option<i64>,
    pub send_utc_dt: Option<i64>,
    pub employee_id: Option<i32>,
}

/// What a `NotifyRequestModel` holds.
pub struct NotifyRequestView {
    pub id: Option<i32>,
    pub title: Option<Seq<char>>,
    pub body: Option<Seq<char>>,
    pub create_utc_dt: Option<i64>,
    pub expire_utc_dt: Option<i64>,
    pub send_utc_dt: Option<i64>,
    pub employee_id: Option<i32>,
}

impl NotifyRequestView {
    /// The row with the fields that `update` sets taken from it. The
    /// identifier stays.
    pub open spec fn applied(self, update: NotifyRequestView) -> NotifyRequestView {
        NotifyRequestView {
            id: self.id,
            title: overlay(self.title, update.title),
            body: overlay(self.body, update.body),
            create_utc_dt: overlay(self.create_utc_dt, update.create_utc_dt),
            expire_utc_dt: overlay(self.expire_utc_dt, update.expire_utc_dt),
            send_utc_dt: overlay(self.send_utc_dt, update.send_utc_dt),
            employee_id: overlay(self.employee_id, update.employee_id),
        }
    }

    pub open spec fn with_id(self, id: i32) -> NotifyRequestView {
        NotifyRequestView { id: Some(id), ..self }
    }
}

impl View for NotifyRequestModel {
    type V = NotifyRequestView;

    open spec fn view(&self) -> NotifyRequestView {
        NotifyRequestView {
            id: self.id,
            title: text(self.title),
            body: text(self.body),
            create_utc_dt: self.create_utc_dt,
            expire_utc_dt: self.expire_utc_dt,
            send_utc_dt: self.send_utc_dt,
            employee_id: self.employee_id,
        }
    }
}

impl NotifyRequestModel {
    /// A model with no field set.
    pub fn empty() -> (r: Self)
        ensures
            r == (NotifyRequestModel {
                id: None,
                title: None,
                body: None,
                create_utc_dt: None,
                expire_utc_dt: None,
                send_utc_dt: None,
                employee_id: None,
            }),
    {
        NotifyRequestModel {
            id: None,
            title: None,
            body: None,
            create_utc_dt: None,
            expire_utc_dt: None,
            send_utc_dt: None,
            employee_id: None,
        }
    }
}

impl Clone for NotifyRequestModel {
    fn clone(&self) -> (r: Self)
        ensures
            r == *self,
    {
        NotifyRequestModel {
            id: self.id,
            title: clone_text(&self.title),
            body: clone_text(&self.body),
            create_utc_dt: self.create_utc_dt,
            expire_utc_dt: self.expire_utc_dt,
            send_utc_dt: self.send_utc_dt,
            employee_id: self.employee_id,
        }
    }
}

impl Identifiable for NotifyRequestModel {
    open spec fn spec_id(&self) -> Option<i32> {
        self.id
    }

    open spec fn with_id(self, id: i32) -> Self {
        NotifyRequestModel { id: Some(id), ..self }
    }

    fn id(&self) -> (r: Option<i32>) {
        self.id
    }

    fn set_id(&mut self, id: i32) {
        self.id = Some(id);
    }
}

impl Appliable<NotifyRequestModel> for NotifyRequestModel {
    open spec fn applied(self, entity: NotifyRequestModel) -> Self {
        NotifyRequestModel {
            id: self.id,
            title: overlay(self.title, entity.title),
            body: overlay(self.body, entity.body),
            create_utc_dt: overlay(self.create_utc_dt, entity.create_utc_dt),
            expire_utc_dt: overlay(self.expire_utc_dt, entity.expire_utc_dt),
            send_utc_dt: overlay(self.send_utc_dt, entity.send_utc_dt),
            employee_id: overlay(self.employee_id, entity.employee_id),
        }
    }

    fn apply(&mut self, entity: &NotifyRequestModel) {
        if entity.title.is_some() {
            self.title = clone_text(&entity.title);
        }
        if entity.body.is_some() {
            self.body = clone_text(&entity.body);
        }
        if entity.create_utc_dt.is_some() {
            self.create_utc_dt = entity.create_utc_dt;
        }
        if entity.expire_utc_dt.is_some() {
            self.expire_utc_dt = entity.expire_utc_dt;
        }
        if entity.send_utc_dt.is_some() {
            self.send_utc_dt = entity.send_utc_dt;
        }
        if entity.employee_id.is_some() {
            self.employee_id = entity.employee_id;
        }
    }
}

/// A caller asks for a challenge for `username`.
#[derive(Debug)]
pub struct NewIdentityVerifyRequestModel {
    pub username: String,
    pub client_utc_dt: i64,
}

/// The answer to a `NewIdentityVerifyRequestModel`: the reference under
/// which the challenge can be answered. The secret is not in it.
#[derive(Debug)]
pub struct NewIdentityVerifyResponseModel {
    pub reference: String,
    pub server_utc_dt: i64,
}

/// A caller answers the challenge `reference` with `client_secret`.
#[derive(Debug)]
pub struct CheckIdentityVerifyRequestModel {
    pub reference: String,
    pub client_secret: String,
    pub client_utc_dt: i64,
}

impl Clone for CheckIdentityVerifyRequestModel {
    fn clone(&self) -> (r: Self)
        ensures
            r == *self,
    {
        CheckIdentityVerifyRequestModel {
            reference: self.reference.clone(),
            client_secret: self.client_secret.clone(),
            client_utc_dt: self.client_utc_dt,
        }
    }
}

} // verus!
