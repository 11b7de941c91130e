//! A typed client for two read-only endpoints of the Docker Engine HTTP API
//! (engine version, container listing) and the page handlers of a small
//! dashboard built on it.
//!
//! The library performs no I/O and renders no template. A caller sends the
//! GET that a route names and hands back what came of it as a
//! [`client::Reply`]; it renders the [`pages::Job`] that the handler makes of
//! the reply and hands back the text. The client and the handlers decide
//! everything else.
pub mod client;
pub mod error;
pub mod json;
pub mod model;
pub mod pages;
