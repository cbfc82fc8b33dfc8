//! Execution layer over an ODBC style driver interface.
//!
//! The driver itself is never called from here. Each protocol is written as a
//! set of decisions: the caller performs the driver call that a decision asks
//! for and hands back what the driver answered.

pub mod cli;
pub mod cursor;
pub mod execute;
pub mod metadata;
pub mod outcome;
pub mod parameter;
pub mod statement;
pub mod text;
pub mod trace;
