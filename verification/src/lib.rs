//! A memory-hard hash service core: deterministic construction of a large
//! read-only dataset (a ROM) from a seed, a data-dependent hash over that
//! dataset, a registry that atomically replaces the current ROM while
//! readers keep their handles, and an order-preserving batch dispatcher.
#![verifier::loop_isolation(false)]

pub mod batch;
pub mod engine;
pub mod errors;
pub mod hexcode;
pub mod mix;
pub mod params;
pub mod registry;
pub mod rom;
pub mod service;
