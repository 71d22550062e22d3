//!
//! The selection models.
//!
pub mod no_selection;
pub mod range_selection;
pub mod single_selection;
