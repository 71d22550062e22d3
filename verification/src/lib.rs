//!
//! Layout, selection and navigation logic of a terminal widget library.
//!
pub mod geometry;
pub mod range_op;
pub mod event;
pub mod choice;
pub mod splitter;
pub mod layout;
pub mod calendar;
pub mod checkbox;
pub mod clipper;
pub mod text;
pub mod caption;
pub mod combobox;
pub mod dialog_frame;
pub mod file_dialog;
pub mod form;
pub mod msgdialog;
pub mod pager;
pub mod hover;
pub mod shadow;
pub mod paired;
pub mod list;
