//! The configuration and redirect flow of a desktop shell that shows a remote
//! web application: the persisted server URL, its validation, and the small
//! decisions the shell takes around it.

pub mod config;
pub mod controller;
pub mod shell;
