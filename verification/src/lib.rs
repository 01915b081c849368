//! The core of a Prometheus exporter for nasne network storage devices.
//!
//! A device reports its name and the size of its disk in two JSON documents.
//! This crate decodes them, maps them to three gauges, and renders the gauges
//! in the text exposition format. It also decides what an exporter does next,
//! for a single request as well as for a polling loop, but performs no
//! input or output itself: the caller fetches, waits and serves.

pub mod buffer;
pub mod config;
pub mod decode;
pub mod endpoint;
pub mod error;
pub mod exposition;
pub mod gateway;
pub mod json;
pub mod model;
pub mod observation;
pub mod poller;
pub mod probe;
pub mod registry;
pub mod response;
