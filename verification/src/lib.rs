//! Planning and validation logic for generating command-line project skeletons.

pub mod cli;
pub mod command;
pub mod config;
pub mod directory;
pub mod guarantees;
pub mod loading;
pub mod name;
pub mod pipeline;
pub mod protocol;
pub mod report;
pub mod request;
pub mod sample;
pub mod text;
pub mod transitions;
