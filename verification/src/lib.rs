//! Generation of the interaction methods of page objects.
//!
//! A page object is a type whose fields hold the locators of the elements of a page. For
//! every field this library generates a base operation that locates the element, and one
//! more operation for each action that the field requests by name: click, type text, read
//! a state, select an option, wait, take a screenshot. The names come from a closed
//! vocabulary, the [`catalog`]; a name outside it, a malformed request or a type that is
//! not a plain record of named fields fails generation for the whole type, with a
//! diagnostic that names the type, the field and the action.
//!
//! Generation is a function of the declaration alone. [`extract`] draws from a declared
//! type what generation needs of it, [`syntax`] reads the lists of requested actions,
//! [`synthesize`] generates the operations, and [`impl_thirtyfour_actions`] does all of it
//! in one pass. [`render`] writes the operations as the source text of asynchronous
//! methods, and [`behavior`] says what such a method does with each reply of the driver.
//! [`laws`] holds what is proved of everything that is generated.

pub mod behavior;
pub mod catalog;
pub mod error;
pub mod expand;
pub mod extract;
pub mod laws;
pub mod model;
pub mod render;
pub mod syntax;
pub mod synthesize;
pub mod text;

pub use crate::expand::impl_thirtyfour_actions;
