//! The observer pattern: a subject holds a piece of state and an ordered
//! list of observers, and tells every attached observer, in attachment
//! order, whenever that state changes.
//!
//! The library computes; it never prints. Every reaction is handed back as
//! the line of text the observer emits, so a caller decides where it goes.
//!
//! - [`observers`]: the [`observers::Observer`] capability and its variants;
//! - [`subject`]: the [`subject::Subject`] with attach, detach and notify;
//! - [`model`]: the mathematical model that the contracts speak of;
//! - [`laws`]: what is proved of every subject;
//! - [`decimal`]: the decimal text of the state in the subject's message.

pub mod decimal;
pub mod laws;
pub mod model;
pub mod observers;
pub mod subject;
