//! Request-handling core of a URL-shortening service.
//!
//! A long URL is stored in a key-value store under a short key, with an
//! optional password that protects the entry against being overwritten, and
//! a short key is resolved to a redirect to its URL. The store and the HTTP
//! transport are outside this library: it decides, and its caller performs.
//!
//! - [`value_parser`], [`decoder`], [`big_endian`]: the stored record and its
//!   wire format; [`codec_laws`]: what holds of the format.
//! - [`short_key`], [`key_generator`]: short keys and their generation;
//!   [`key_laws`]: what holds of generation.
//! - [`policy`]: who may write under a key.
//! - [`shorten`], [`fetch`]: the write flow and the read flow, step by step;
//!   [`flow_laws`]: what holds of the flows against a store.
//! - [`store`], [`http`]: the store's answers, requests and responses as
//!   plain values.
//! - [`string_specs`]: what is assumed of the standard library.

pub mod big_endian;
pub mod codec_laws;
pub mod decoder;
pub mod fetch;
pub mod flow_laws;
pub mod http;
pub mod key_generator;
pub mod key_laws;
pub mod policy;
pub mod short_key;
pub mod shorten;
pub mod store;
pub mod string_specs;
pub mod value_parser;
