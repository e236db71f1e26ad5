//! The configuration: repositories, locations and options as the tool works on them.

use crate::collections::{names, NameMap};
use crate::envfile::{file_assignments, read_env_file_to};
use crate::environment::{push_pairs, Assignments};
use crate::name::Name;
use crate::options::Options;
use crate::text::{pairs, texts};
use vstd::prelude::*;

verus! {

/// A file of environment variables, as it was found when the configuration was loaded.
#[derive(Debug)]
pub struct EnvFile {
    /// Where the file lies.
    pub path: String,
    /// The lines of the file, or `None` where it could not be read.
    pub lines: Option<Vec<String>>,
}

/// The assignments of a list of files, one file after the other. A file that could not be
/// read makes none.
pub open spec fn files_assignments(files: Seq<EnvFile>) -> Assignments
    decreases files.len(),
{
    if files.len() == 0 {
        Seq::empty()
    } else {
        files_assignments(files.drop_last()) + (match files.last().lines {
            Some(lines) => file_assignments(texts(lines@)),
            None => Seq::empty(),
        })
    }
}

/// Environment variables from files and from the configuration itself.
#[derive(Debug)]
pub struct Environment {
    /// Files of variables, read one after the other.
    pub env_files: Vec<EnvFile>,
    /// Variables that the configuration sets itself. They come after those of the files.
    pub vars: Vec<(String, String)>,
}

impl View for Environment {
    type V = Assignments;

    /// The assignments that the environment makes, in order.
    open spec fn view(&self) -> Assignments {
        files_assignments(self.env_files@) + pairs(self.vars@)
    }
}

impl Environment {
    /// Files of variables, read one after the other.
    pub fn env_files(&self) -> (r: &Vec<EnvFile>)
        ensures
            r@ == self.env_files@,
    {
        &self.env_files
    }

    /// Variables that the configuration sets itself.
    pub fn vars(&self) -> (r: &Vec<(String, String)>)
        ensures
            r@ == self.vars@,
    {
        &self.vars
    }
}

impl Default for Environment {
    fn default() -> (r: Self)
        ensures
            r@ == Seq::<(Seq<char>, Seq<char>)>::empty(),
    {
        let r = Environment { env_files: Vec::new(), vars: Vec::new() };
        assert(r@ =~= Seq::<(Seq<char>, Seq<char>)>::empty());
        r
    }
}

/// Appends to `vars` what `env` assigns: first the files, then its own variables.
pub fn append_env(env: &Environment, vars: &mut Vec<(String, String)>)
    ensures
        pairs(final(vars)@) == pairs(old(vars)@) + env@,
{
    let mut i: usize = 0;
    assert(pairs(vars@) =~= pairs(old(vars)@) + files_assignments(env.env_files@.take(0)));
    while i < env.env_files.len()
        invariant
            i <= env.env_files@.len(),
            pairs(vars@) == pairs(old(vars)@) + files_assignments(env.env_files@.take(i as int)),
        decreases env.env_files@.len() - i,
    {
        let ghost before = pairs(vars@);
        let ghost done = files_assignments(env.env_files@.take(i as int));
        assert(env.env_files@.take(i + 1).drop_last() =~= env.env_files@.take(i as int));
        match &env.env_files[i].lines {
            Some(lines) => {
                read_env_file_to(lines, vars);
                assert(before + file_assignments(texts(lines@)) =~= pairs(old(vars)@) + (done
                    + file_assignments(texts(lines@))));
            },
            None => {
                assert(before =~= pairs(old(vars)@) + (done + Seq::<
                    (Seq<char>, Seq<char>),
                >::empty()));
            },
        }
        i += 1;
    }
    assert(env.env_files@.take(env.env_files@.len() as int) =~= env.env_files@);
    let ghost before = pairs(vars@);
    push_pairs(vars, &env.vars);
    assert(before + pairs(env.vars@) =~= pairs(old(vars)@) + env@);
}

/// A repository as the configuration declares it.
#[derive(Debug)]
pub struct Repo {
    /// Where the repository lies.
    pub path: String,
    /// The password of the repository.
    pub key: String,
    /// A file that holds the password.
    pub password_file: Option<String>,
    /// A command that prints the password.
    pub password_command: String,
    /// How long to wait for a locked repository.
    pub retry_lock: String,
    /// Extended options for the engine.
    pub options: Vec<String>,
    /// Variables for the processes of this repository.
    pub environment: Environment,
}

impl Repo {
    /// Where the repository lies.
    pub fn path(&self) -> (r: &str)
        ensures
            r@ == self.path@,
    {
        self.path.as_str()
    }

    /// The password of the repository.
    pub fn key(&self) -> (r: &str)
        ensures
            r@ == self.key@,
    {
        self.key.as_str()
    }

    /// A file that holds the password.
    pub fn password_file(&self) -> (r: Option<&str>)
        ensures
            match r {
                Some(s) => self.password_file matches Some(file) && file@ == s@,
                None => self.password_file is None,
            },
    {
        match &self.password_file {
            Some(s) => Some(s.as_str()),
            None => None,
        }
    }

    /// A command that prints the password.
    pub fn password_command(&self) -> (r: &str)
        ensures
            r@ == self.password_command@,
    {
        self.password_command.as_str()
    }

    /// How long to wait for a locked repository.
    pub fn retry_lock(&self) -> (r: &str)
        ensures
            r@ == self.retry_lock@,
    {
        self.retry_lock.as_str()
    }

    /// Extended options for the engine.
    pub fn options(&self) -> (r: &Vec<String>)
        ensures
            r@ == self.options@,
    {
        &self.options
    }

    /// Variables for the processes of this repository.
    pub fn environment(&self) -> (r: &Environment)
        ensures
            r@ == self.environment@,
    {
        &self.environment
    }
}

/// A group of paths that are backed up together.
#[derive(Debug)]
pub struct Location {
    /// The paths to back up.
    pub paths: Vec<String>,
    /// The repositories that the location is backed up to.
    pub repos: Vec<Name>,
    /// Options for this location; where one is not set, that of the configuration holds.
    pub options: Options,
}

impl Location {
    /// The paths to back up.
    pub fn paths(&self) -> (r: &Vec<String>)
        ensures
            r@ == self.paths@,
    {
        &self.paths
    }

    /// The repositories that the location is backed up to.
    pub fn repos(&self) -> (r: &Vec<Name>)
        ensures
            r@ == self.repos@,
    {
        &self.repos
    }

    /// Options for this location.
    pub fn options(&self) -> (r: &Options)
        ensures
            r@ == self.options@,
    {
        &self.options
    }

    /// The set of the repositories that the location is backed up to.
    pub open spec fn declared(&self) -> Set<Seq<char>> {
        names(self.repos@).to_set()
    }
}

/// The name of the engine's executable where the configuration names none.
pub fn default_executable() -> (r: String)
    ensures
        r@ == "restic"@,
{
    "restic".to_owned()
}

/// The whole configuration.
#[derive(Debug)]
pub struct Config {
    /// The engine's executable.
    pub executable: String,
    /// Options for all locations.
    pub options: Options,
    /// Variables for the processes of all repositories.
    pub environment: Environment,
    /// The repositories by name.
    pub repos: NameMap<Repo>,
    /// The locations by name.
    pub locations: NameMap<Location>,
}

impl Config {
    /// A configuration of these parts.
    pub fn new(
        executable: String,
        options: Options,
        environment: Environment,
        repos: NameMap<Repo>,
        locations: NameMap<Location>,
    ) -> (r: Config)
        ensures
            r.executable == executable,
            r.options == options,
            r.environment == environment,
            r.repos == repos,
            r.locations == locations,
    {
        Config { executable, options, environment, repos, locations }
    }

    /// The engine's executable.
    pub fn executable(&self) -> (r: &str)
        ensures
            r@ == self.executable@,
    {
        self.executable.as_str()
    }

    /// Options for all locations.
    pub fn options(&self) -> (r: &Options)
        ensures
            r@ == self.options@,
    {
        &self.options
    }

    /// Variables for the processes of all repositories.
    pub fn environment(&self) -> (r: &Environment)
        ensures
            r@ == self.environment@,
    {
        &self.environment
    }

    /// The repositories by name.
    pub fn repos(&self) -> (r: &NameMap<Repo>)
        ensures
            r == &self.repos,
    {
        &self.repos
    }

    /// The locations by name.
    pub fn locations(&self) -> (r: &NameMap<Location>)
        ensures
            r == &self.locations,
    {
        &self.locations
    }
}

} // verus!
