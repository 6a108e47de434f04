//! Seeable: the decisions of a small web application (configuration,
//! sessions, login links, dataspace provisioning) as verified functions.
pub mod common;
pub mod modules;
pub mod ui;
