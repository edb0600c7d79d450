//! A task runner for setting up a machine: namespaces hold tasks, tasks hold
//! actions, and a command line mirrors the tree.

pub mod text;
pub mod action;
pub mod effect;
pub mod run;
pub mod laws;
pub mod namespace;
pub mod app;
pub mod cli;
pub mod ts;
pub mod home;
pub mod mac;
pub mod mac_base;
pub mod catalog;
