use vstd::prelude::*;

pub mod audit;
pub mod auth;
pub mod broadcast;
pub mod chat;
pub mod content_filter;
pub mod content_filter_service;
pub mod db_config;
pub mod errors;
pub mod forums;
pub mod invites;
pub mod ids;
pub mod migrations;
pub mod model;
pub mod notifications;
pub mod paging;
pub mod patterns;
pub mod rate_limit;
pub mod records;
pub mod router;
pub mod servers;
pub mod text;
pub mod users;
pub mod util;

verus! {
} // verus!
