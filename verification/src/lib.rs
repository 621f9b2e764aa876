//! Short-lived, single-use identity-verification challenges for a directory
//! of employees.
//!
//! A challenge is issued to an employee by name. The caller gets a public
//! reference; the secret goes to the employee in a message that is stored
//! with the challenge, in one unit of work, for a dispatcher to deliver.
//! The challenge can be answered once, with the secret, before it expires,
//! and a newer challenge for the same employee puts it out of use.
//!
//! - [`models`] and [`domain`] hold the records.
//! - [`dao`] states the persistence contract: the tables of the datastore,
//!   the transaction context, and the three stores.
//! - [`lifecycle`] states what issuing and answering a challenge do to the
//!   tables, and proves what follows: one active challenge per employee,
//!   single use, expiry, supersession.
//! - [`service`] is the service over any datastore that meets the contract.
//! - [`in_memory_dao`] is a datastore in memory that meets it; [`traits`]
//!   and [`daos`] are its generic table and store.
//! - [`clock`] reads the time and [`secrets`] draws the tokens and compares
//!   secrets; [`responses`] maps the outcome of a call to an HTTP status.

pub mod clock;
pub mod dao;
pub mod daos;
pub mod domain;
pub mod in_memory_dao;
pub mod lifecycle;
pub mod models;
pub mod responses;
pub mod secrets;
pub mod service;
pub mod traits;
