//! Reactive state core for a form-input widget library.
//!
//! The crate provides an observable-value store, a dependency-tracked
//! watch scheduler, a per-field validation state machine, and a theme
//! token derivation engine, together with the widget style options the
//! rendering layer consumes.

pub mod field;
pub mod form;
pub mod observable;
pub mod theme;
pub mod validate;
pub mod watch;
pub mod widgets;
