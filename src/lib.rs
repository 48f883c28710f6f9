//! Index facts for groupware entities, and a full-text store dispatcher.
//!
//! Every entity (identity, calendar, calendar event, scheduling message)
//! yields a finite list of index facts: ACL grants, quota deltas, secondary
//! index keys and change-log markers. Both the live and the archived form of
//! an entity yield the same facts for the same logical content.
pub mod bitmap;
pub mod collection;
pub mod fact;
pub mod size;
pub mod calendar;
pub mod identity;
pub mod laws;
pub mod error;
pub mod fts;
pub mod bayes;
pub mod hex;
