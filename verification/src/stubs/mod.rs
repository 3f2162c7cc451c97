//! The texts of the files that make up the environment.

pub mod docker;
pub mod nginx;
pub mod php;
