//! Helpers for strings and results.

pub mod result_utils;
pub mod string_utils;
