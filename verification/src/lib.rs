//! Planning and text generation for a local Docker development environment
//! for PHP projects: configuration paths, project names and domains, the
//! files to write and the commands to run.

pub mod action;
pub mod cli;
pub mod cmd;
pub mod composer;
pub mod config;
pub mod docker;
pub mod msg;
pub mod projects;
pub mod ssl;
pub mod stubs;
pub mod text;
