//! A small library for an always-available task overlay: it builds the
//! status-equals filter for a remote task database, extracts the title of the
//! first matching record from a loosely-typed query response, normalizes
//! every failure into a single `{ message }` shape, and computes the overlay
//! window's size and position from the active display's dimensions.
//!
//! The remote call itself, credential loading and the windowing toolkit are
//! collaborators outside this library; it consumes plain values they supply
//! and hands plain values back.

pub mod config;
pub mod error;
pub mod extract;
pub mod geometry;
pub mod model;
pub mod query;
