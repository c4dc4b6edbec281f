//! Typed billing and streaming records with per-field codecs.
//!
//! A document is read into a format-neutral record tree, decoded into the
//! typed records of the schema, and encoded and written back. Every field that
//! is more than a plain scalar goes through a codec of its own: durations,
//! timestamps, identifiers and locators, and the tagged date of an event.
//!
//! The layers, from the leaves up:
//!
//! - the codecs: [`span`], [`instant`], [`ident`], [`locator`], [`transform`];
//! - the record tree and what can go wrong in it: [`tree`], [`fault`],
//!   [`fields`];
//! - the schema: [`user`], [`tariff`], [`stream`], [`gift`], [`debug`],
//!   [`request`], [`event`];
//! - the formats: [`hub`], [`transcode`];
//! - the pipeline: [`pipeline`].

pub mod debug;
pub mod event;
pub mod fault;
pub mod fields;
pub mod gift;
pub mod hub;
pub mod ident;
pub mod instant;
pub mod locator;
pub mod pipeline;
pub mod request;
pub mod span;
pub mod stream;
pub mod tariff;
pub mod text;
pub mod transcode;
pub mod transform;
pub mod tree;
pub mod user;
