//! Persistence core of the Rasopus backend: the user model and its storage
//! adapter, the statements of the entity persistence contract together with a
//! model of the table they act on, the migration drift detector, and the
//! decisions of the domain services.
use vstd::prelude::*;

pub mod adapter;
pub mod clock;
pub mod config;
pub mod controller;
pub mod entity;
pub mod identifier;
pub mod migration;
pub mod password;
pub mod payload;
pub mod service;
pub mod text;
pub mod user;

verus! {

} // verus!
