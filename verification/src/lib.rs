//! Composes the description of a pull request from the commit history of a
//! branch and a fixed template, and plans the commands that publish it.
//!
//! Nothing here touches a process or a file. The caller runs each command the
//! library asks for and hands back what the command left behind; every
//! decision in between is taken here.

pub mod command;
pub mod commit_log;
pub mod config;
pub mod diagnostics;
pub mod error;
pub mod pipeline;
pub mod submit;
pub mod template;
pub mod text;
