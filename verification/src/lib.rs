//! Request validation, access-control decisions, identifier codecs, search
//! and AI-prompt logic of a multi-tenant bug tracker, with their contracts.
use vstd::prelude::*;

pub mod activity;
pub mod admin;
pub mod comment;
pub mod config;
pub mod ai;
pub mod auth;
pub mod errors;
pub mod group;
pub mod ids;
pub mod indexes;
pub mod jwt;
pub mod reaction;
pub mod reference;
pub mod refresh_token;
pub mod link;
pub mod rbac;
pub mod text;
pub mod ticket;
pub mod user;
pub mod utils;

verus! {

} // verus!
