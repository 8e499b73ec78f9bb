//! Front end of a mutually authenticated service: the request routing, the
//! per-connection identity bookkeeping, the plugin call protocol and the
//! startup sequence, each stated as a contract over plain values.

mod text;
pub mod lifecycle;
pub mod connection;
pub mod service;
pub mod handler;
pub mod router;
pub mod download;
pub mod model;
pub mod trust;
