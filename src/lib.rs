//! Request handling of an agent gateway: a token store, a route table, the
//! message-delivery service and the standard health service.
pub mod auth;
pub mod config;
pub mod gateway;
pub mod health;
pub mod metrics;
pub mod router;
pub mod table;
