//! Checks whether a containerised service has a newer version across several
//! sources, and updates it in place with automatic rollback.
//!
//! The library holds the decisions: which sources to ask and how to judge
//! their answers, the check cache and the update locks, and the update
//! pipeline as a state machine that hands out one command at a time. Running
//! processes and HTTP requests is left to the caller.

pub mod checker;
pub mod clock;
pub mod command;
pub mod contracts;
pub mod custom_api;
pub mod deploy_utils;
pub mod docker_hub;
pub mod errors;
pub mod git_checker;
pub mod github;
pub mod health_check;
pub mod rollback;
pub mod state;
pub mod text;
pub mod types;
pub mod updater;
