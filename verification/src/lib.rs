//! Craters: the state and decision logic of a terminal dashboard for browsing
//! the crates.io registry.
//!
//! The library holds everything the dashboard decides: which section is
//! selected, how list selections move, which keys map to which actions, how
//! actions change the application state, which crate to fetch for the info
//! popup, what text each panel shows and how the screen is split. Talking to the
//! terminal and to the network is left to the program that drives it.

pub mod action;
pub mod app;
pub mod assoc;
pub mod dashboard;
pub mod info_popup;
pub mod layout;
pub mod registry;
pub mod section;
pub mod selection;
pub mod summary;
