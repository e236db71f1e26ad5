//! Backups of configured locations to configured repositories, made by the engine `restic`.
//!
//! The library decides and plans; it starts no process and reads no file. A caller loads the
//! configuration, hands over the environment it runs in, and gets a plan: the processes to
//! launch, each with its arguments and its complete environment. It launches the process that
//! is due, hands back how the process ended, and is told what follows.
//!
//! - `name`, `command`, `options`, `config`, `cli`: the values that a configuration and a
//!   command line hold.
//! - `selection`: from `location[@repository]` tokens to locations with their repositories.
//! - `arguments`, `environment`, `envfile`, `restic_api`: the command line and the environment
//!   of one engine process, and the meaning of its exit code.
//! - `resolve`, `plan`, `workflow`: from a command to its processes, and from the end of one
//!   process to the next.
//! - `run`, `verbosity`: exit status, captured output, and what reaches the console.
//! - `collections`, `text`: sets and maps of names, and helpers on characters.

pub mod arguments;
pub mod cli;
pub mod collections;
pub mod command;
pub mod config;
pub mod envfile;
pub mod environment;
pub mod name;
pub mod options;
pub mod plan;
pub mod resolve;
pub mod restic_api;
pub mod run;
pub mod selection;
pub mod text;
pub mod verbosity;
pub mod workflow;
