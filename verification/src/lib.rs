//! Core of a viewer for delimited text files.
//!
//! [`parser`] turns the text of a file into a [`table::Table`], with
//! [`quoting`] telling whether its quotes are closed. [`pagination`] holds
//! how many rows to skip and to show and derives the visible window and the
//! labels from it, with [`decimal`] writing the numbers. [`controller`] is
//! the state machine of the open-file flow and the paging actions,
//! [`dialog`] what it asks the file picker for, and [`screen`] what the view
//! shows in each state.

pub mod controller;
pub mod decimal;
pub mod dialog;
pub mod pagination;
pub mod parser;
pub mod quoting;
pub mod screen;
pub mod table;
