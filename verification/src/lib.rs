//! Planning and bookkeeping for a build step that stages kernel-bytecode
//! artifacts: which mode to run in, which target to compile for, which
//! commands to run, how to judge their exit, and which files to place.
pub mod text;
pub mod config;
pub mod status;
pub mod objects;
pub mod commands;
pub mod events;
pub mod staging;
pub mod stream;
pub mod files;
pub mod sock_ops;
