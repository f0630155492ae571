//! Configuration, branch selection and project lookup for deploying a Roblox
//! experience from a `rocat.yml` project description.
//!
//! - `model`: the configuration models that the Roblox web API accepts.
//! - `config`: the project configuration and its translation into those models.
//! - `branch`: choosing the deployment whose branch patterns match the current branch.
//! - `project`: locating the project directory and its configuration file.
//! - `git`: reading the current branch from the output of `git symbolic-ref`.

pub mod model;
pub mod config;
pub mod branch;
pub mod git;
pub mod project;
