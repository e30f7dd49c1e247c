//! Change detection and deduplication for a watched collection of shared URLs.
//!
//! Records arrive one at a time from a push subscription or from a poll of the
//! latest row. The engine decides which of them are new and asks for one action
//! per new record; the surrounding program performs it.

pub mod engine;
pub mod decode;
pub mod laws;
pub mod percent;
pub mod writeback;
