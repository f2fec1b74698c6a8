//! Import of speedsolving timer exports: typed parsing of exported rows and
//! the bookkeeping of a batched, deduplicating load into a relational store.

pub mod text;
pub mod calendar;
pub mod error;
pub mod models;
pub mod record;
pub mod loader;
pub mod table;
pub mod twistytimer;
