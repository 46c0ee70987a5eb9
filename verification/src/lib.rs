//! A minimal package-script runner library.
//!
//! A package script is a small JSON document naming ordered shell command
//! sequences for installing (`install.cloning`, `install.building`) or
//! uninstalling (`uninstall`) a package. This crate loads and validates such
//! documents and turns them into an ordered plan of banner lines, commands to
//! run, and a final status line; the surrounding binary performs the file
//! reads, prints the lines and spawns the commands.

pub mod cli;
pub mod json_data;
pub mod plan;
pub mod script;
pub mod text;
