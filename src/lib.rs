//! Authentication, role-based authorization and the error taxonomy of a
//! class management service.

pub mod auth;
pub mod dto;
pub mod error;
pub mod ids;
pub mod membership;
pub mod models;
pub mod resolver;
pub mod roster;
pub mod token;
