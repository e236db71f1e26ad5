//! The arguments of the command line, as plain values.

use vstd::prelude::*;

verus! {

/// The arguments of `backup`.
#[derive(Debug)]
pub struct BackupArgs {
    /// Whether nothing is to be written.
    pub dry_run: bool,
}

impl BackupArgs {
    /// Whether nothing is to be written.
    pub fn dry_run(&self) -> (r: bool)
        ensures
            r == self.dry_run,
    {
        self.dry_run
    }
}

/// The arguments of `exec`.
#[derive(Debug)]
pub struct ExecArgs {
    /// The repositories to run the engine for; all where none is named.
    pub repos: Vec<String>,
    /// The arguments for the engine.
    pub args: Vec<String>,
}

impl ExecArgs {
    /// The repositories to run the engine for.
    pub fn repos(&self) -> (r: &[String])
        ensures
            r@ == self.repos@,
    {
        self.repos.as_slice()
    }

    /// The arguments for the engine.
    pub fn args(&self) -> (r: &[String])
        ensures
            r@ == self.args@,
    {
        self.args.as_slice()
    }
}

/// The arguments of `forget`.
#[derive(Debug)]
pub struct ForgetArgs {
    /// The locations to work on, as selection tokens; all where none is named.
    pub locations: Vec<String>,
    /// Whether nothing is to be removed.
    pub dry_run: bool,
}

impl ForgetArgs {
    /// The locations to work on, as selection tokens.
    pub fn locations(&self) -> (r: &Vec<String>)
        ensures
            r@ == self.locations@,
    {
        &self.locations
    }

    /// Whether nothing is to be removed.
    pub fn dry_run(&self) -> (r: bool)
        ensures
            r == self.dry_run,
    {
        self.dry_run
    }
}

/// The arguments of `verify`.
#[derive(Debug)]
pub struct VerifyArgs {
    /// Whether missing repositories are to be created.
    pub init: bool,
}

impl VerifyArgs {
    /// Whether missing repositories are to be created.
    pub fn init(&self) -> (r: bool)
        ensures
            r == self.init,
    {
        self.init
    }
}

/// What the tool is asked to do.
#[derive(Debug)]
pub enum Command {
    /// Back the locations up.
    Backup(BackupArgs),
    /// Run the engine itself for repositories of the configuration.
    Exec(ExecArgs),
    /// Remove old snapshots of the locations.
    Forget(ForgetArgs),
    /// Test the configuration and the access to the repositories.
    Verify(VerifyArgs),
    /// Show copyright and licenses.
    About,
}

/// All arguments of one call of the tool.
#[derive(Debug)]
pub struct Args {
    /// The configuration file.
    pub config_file: String,
    /// The directory to work in.
    pub working_dir: Option<String>,
    /// Whether the console stays silent.
    pub quiet: bool,
    /// How often more output was asked for.
    pub verbose: u8,
    /// Further files of environment variables, later ones first in precedence.
    pub env_files: Vec<String>,
    /// What to do.
    pub command: Command,
}

impl Args {
    /// The configuration file.
    pub fn config_file(&self) -> (r: &str)
        ensures
            r@ == self.config_file@,
    {
        self.config_file.as_str()
    }

    /// Whether the console stays silent.
    pub fn quiet(&self) -> (r: bool)
        ensures
            r == self.quiet,
    {
        self.quiet
    }

    /// How often more output was asked for.
    pub fn verbose(&self) -> (r: u8)
        ensures
            r == self.verbose,
    {
        self.verbose
    }

    /// The directory to work in.
    pub fn working_dir(&self) -> (r: Option<&str>)
        ensures
            match r {
                Some(s) => self.working_dir matches Some(dir) && dir@ == s@,
                None => self.working_dir is None,
            },
    {
        match &self.working_dir {
            Some(s) => Some(s.as_str()),
            None => None,
        }
    }

    /// Further files of environment variables.
    pub fn env_files(&self) -> (r: &[String])
        ensures
            r@ == self.env_files@,
    {
        self.env_files.as_slice()
    }

    /// What to do.
    pub fn command(&self) -> (r: &Command)
        ensures
            r == &self.command,
    {
        &self.command
    }
}

} // verus!
