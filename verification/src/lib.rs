//! A small content-publishing site, modelled and verified.
//!
//! The library is the verified core of the site: the storage tables, the
//! image-store bookkeeping, the session and login rules, the route table and
//! the per-collection content service. The surrounding program (HTTP server,
//! SQL database, template rendering, file system) lives outside the library
//! and acts on the decisions made here.

pub mod auth;
pub mod chars;
pub mod content;
pub mod error;
pub mod images;
pub mod models;
pub mod routes;
pub mod server;
pub mod session;
pub mod state;
pub mod store;
pub mod views;
