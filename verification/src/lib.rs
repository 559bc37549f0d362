//! A small backend library: an integer-multiplication operation and a health
//! report, each returning a plain response record with a verified contract.

pub mod decimal;
pub mod handlers;
pub mod models;
pub mod timestamp;
