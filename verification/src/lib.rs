//! The decision core of a small interactive shell.
//!
//! A line of input is split into a command word and its argument text. The
//! word is a builtin (`exit`, `echo`, `type`, `pwd`, `cd`), a program found
//! in the file system, or nothing known; builtins come first, so a program
//! of the same name is never run in their place.
//!
//! The library reads no input, writes no output and touches no file. A host
//! program does that for it: it hands each event to [`shell::Shell::step`]
//! and carries out the request that comes back. What the shell does with
//! every event in every stage is stated once, in [`shell::react`], and each
//! function here is proved to do what its contract says.
//!
//! - [`text`]: whitespace, the parts of a line, decimal numbers.
//! - [`path`]: joining, `~`, the search path, normal forms of paths.
//! - [`command`]: builtins and the lookup of programs.
//! - [`host`]: what passes between the shell and its host.
//! - [`shell`]: the shell as a machine that takes one step per event.
//! - [`behaviour`]: what follows for whole commands.

pub mod behaviour;
pub mod command;
pub mod host;
pub mod path;
pub mod shell;
pub mod text;
