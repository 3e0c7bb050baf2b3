//! The decisions of the family management window: each view is a state
//! machine that takes a message and gives its new state and the work that
//! the window has to do (ask the daemon, pass a profile on, emit output).
pub mod app_model;
pub mod approval_requests;
pub mod cards;
pub mod child_interface;
pub mod child_lockscreen;
pub mod content_filtering;
pub mod dashboard;
pub mod overview;
pub mod policy_config;
pub mod profile_editor;
pub mod reports;
