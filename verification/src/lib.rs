//! The meerkly agent's library: the rules of its configuration, the layout
//! of its files, its device identity, the decisions of its daemon and of its
//! service managers, with contracts that Verus proves.

pub mod cli;
pub mod commands;
pub mod config;
pub mod device;
pub mod logging;
pub mod paths;
pub mod run;
pub mod service;
pub mod status;
pub mod text;
