pub mod dependency;
pub mod registry;
pub mod steps;
pub mod engine;
pub mod cli;
pub mod install;
