//! Cardinality estimation with HyperLogLog: a precision type, a bank of
//! small saturating-max registers, and the register-level side of the
//! estimator (hash splitting, rank extraction, checked and unchecked merges,
//! and the exact integer quantities from which the estimate is computed).
pub mod error;
pub mod precision;
pub mod hyperloglog;
pub mod laws;
pub mod registers;

pub use crate::error::{TryFromIntError, TryMergeError, TryMergeErrorKind};
pub use crate::hyperloglog::HyperLogLog;
pub use crate::precision::Precision;
