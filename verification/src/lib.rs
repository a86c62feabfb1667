//! Derivative generation and object-store synchronisation for a photo gallery.
//!
//! A source image is turned into a fixed, ordered set of resized JPEG
//! derivatives; the set is published to a remote object store together with a
//! metadata record, and can later be listed or deleted as one photo.
//!
//! The library decides and computes; it performs no input or output. Each
//! coordinator is a small state machine: it hands out the next request for the
//! object store, and the caller reports what the store answered.

pub mod auth;
pub mod batch;
pub mod catalog;
pub mod database;
pub mod deletion;
pub mod drive;
pub mod error;
pub mod image_processor;
pub mod keys;
pub mod mint;
pub mod models;
pub mod oauth;
pub mod store;
pub mod text;
pub mod tier;
pub mod upload;
