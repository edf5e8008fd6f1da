//! Locale-aware message resolution for a host application.
//!
//! The crate turns one translation resource for a configured locale into an
//! in-memory message bundle and resolves message keys plus optional named
//! arguments into display text. No failure is fatal: construction and
//! formatting always yield a usable result, degrading to the raw key where
//! needed, and report what went wrong as diagnostic values.

pub mod args;
pub mod bundle;
pub mod diag;
pub mod handler;
pub mod laws;
pub mod loader;
pub mod locale;
pub mod resource;
