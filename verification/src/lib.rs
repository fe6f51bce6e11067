//! A bridge that turns Netdata webhooks into ntfy notifications: the
//! configuration rules, the payload model and the notification logic.

pub mod text;
pub mod url_check;
pub mod config;
pub mod cli;
pub mod netdata;
pub mod notification;
pub mod ntfy_client;
pub mod routes;
