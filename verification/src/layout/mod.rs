//!
//! Layout calculations.
//!
pub mod generic_layout;
pub mod layout_edit;
pub mod shrink;
pub mod solver;
pub mod layout_form;
pub mod layout_middle;
pub mod layout_dialog;
pub mod layout_grid;
pub mod layout_outer;
