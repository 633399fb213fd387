//! Declarative reconciliation of installed application packages against a
//! set of desired entries and a persisted record of what was installed.
pub mod entry;
pub mod set;
pub mod diff;
pub mod error;
pub mod source;
pub mod codec;
pub mod run;
