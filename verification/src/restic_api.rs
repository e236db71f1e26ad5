//! The engine's command lines and the meaning of its exit codes.

use crate::arguments::{
    backup_arguments, backup_line, forget_arguments, forget_line, push_repeated, push_word,
    push_words, repeated,
};
use crate::environment::{compose_environment, composed_environment, Assignments};
use crate::name::Name;
use crate::options::{text_option, BackupOptions, ForgetOptions};
use crate::run::{
    ExecutionContext, ExecutionContextView, ExecutionResult, ExitStatus, Launch,
};
use crate::text::{decimal, decimal_text, pairs, texts};
use vstd::prelude::*;
use vstd::string::*;

verus! {

/// A repository as the engine is to reach it.
#[derive(Debug)]
pub struct Repository {
    /// The name of the repository in the configuration.
    pub name: Name,
    /// Where the repository lies; empty where the environment says it.
    pub path: String,
    /// The password; empty where there is none.
    pub password: String,
    /// A file that holds the password.
    pub password_file: Option<String>,
    /// A command that prints the password; empty where there is none.
    pub password_command: String,
    /// How long to wait for a locked repository; empty for no waiting.
    pub retry_lock: String,
    /// Extended options, handed on as they are.
    pub options: Vec<String>,
    /// Variables set for this repository only, assigned in order.
    pub environment: Vec<(String, String)>,
}

/// What a `Repository` holds.
pub struct RepositoryView {
    pub name: Seq<char>,
    pub path: Seq<char>,
    pub password: Seq<char>,
    pub password_file: Option<Seq<char>>,
    pub password_command: Seq<char>,
    pub retry_lock: Seq<char>,
    pub options: Seq<Seq<char>>,
    pub environment: Seq<(Seq<char>, Seq<char>)>,
}

impl View for Repository {
    type V = RepositoryView;

    open spec fn view(&self) -> RepositoryView {
        RepositoryView {
            name: self.name@,
            path: self.path@,
            password: self.password@,
            password_file: text_option(self.password_file),
            password_command: self.password_command@,
            retry_lock: self.retry_lock@,
            options: texts(self.options@),
            environment: pairs(self.environment@),
        }
    }
}

/// The exit code by which the engine says that a snapshot was made although some files could
/// not be read.
pub const BACKUP_READ_ERROR_CODE: i32 = 3;

/// What a probe finds of a repository.
#[derive(Clone, Copy, Debug, PartialEq, Eq, Structural)]
pub enum RepoStatus {
    /// The repository is there and the password opens it.
    Okay,
    /// There is no repository at the path.
    NoRepository,
    /// Another process holds the repository.
    Locked,
    /// The password does not open the repository.
    InvalidKey,
}

/// Why an operation of the engine failed.
#[derive(Debug)]
pub enum Error {
    /// The engine ran and reported a failure.
    CmdFailure {
        /// The program that ran.
        program: String,
        /// How it ended.
        status: ExitStatus,
        /// What it wrote to its standard output.
        stdout: Vec<u8>,
        /// What it wrote to its standard error.
        stderr: Vec<u8>,
    },
    /// The engine could not be run.
    IoError(String),
}

/// What an `Error` holds.
pub enum ErrorView {
    CmdFailure { program: Seq<char>, status: ExitStatus, stdout: Seq<u8>, stderr: Seq<u8> },
    IoError(Seq<char>),
}

impl View for Error {
    type V = ErrorView;

    open spec fn view(&self) -> ErrorView {
        match self {
            Error::CmdFailure { program, status, stdout, stderr } => ErrorView::CmdFailure {
                program: program@,
                status: *status,
                stdout: stdout@,
                stderr: stderr@,
            },
            Error::IoError(message) => ErrorView::IoError(message@),
        }
    }
}

/// The failure of `program` that ended as `result` says.
pub open spec fn command_failure(program: Seq<char>, result: ExecutionResult) -> ErrorView {
    ErrorView::CmdFailure {
        program,
        status: result.status,
        stdout: result.stdout@,
        stderr: result.stderr@,
    }
}

/// The outcome of an operation: success exactly where the process ran and returned 0.
pub open spec fn run_outcome(program: Seq<char>, launch: Launch) -> Result<(), ErrorView> {
    match launch {
        Launch::Failed(message) => Err(ErrorView::IoError(message@)),
        Launch::Finished(result) => if result.status.spec_success() {
            Ok(())
        } else {
            Err(command_failure(program, result))
        },
    }
}

/// The outcome of a backup: as that of any operation, but the exit code that tells of unread
/// files counts as success.
pub open spec fn backup_outcome(program: Seq<char>, launch: Launch) -> Result<(), ErrorView> {
    match launch {
        Launch::Finished(result) if result.status.code == Some(BACKUP_READ_ERROR_CODE) => Ok(()),
        _ => run_outcome(program, launch),
    }
}

/// The outcome of a probe: the exit codes 0, 10, 11 and 12 name a status, every other end is
/// a failure.
pub open spec fn status_outcome(program: Seq<char>, launch: Launch) -> Result<
    RepoStatus,
    ErrorView,
> {
    match launch {
        Launch::Failed(message) => Err(ErrorView::IoError(message@)),
        Launch::Finished(result) => if result.status.code == Some(0i32) {
            Ok(RepoStatus::Okay)
        } else if result.status.code == Some(10i32) {
            Ok(RepoStatus::NoRepository)
        } else if result.status.code == Some(11i32) {
            Ok(RepoStatus::Locked)
        } else if result.status.code == Some(12i32) {
            Ok(RepoStatus::InvalidKey)
        } else {
            Err(command_failure(program, result))
        },
    }
}

/// A backup that ends with the code for unread files is a success, though the status itself
/// is none and every other operation fails on it.
pub proof fn law_unread_files_fail_no_backup(program: Seq<char>, result: ExecutionResult)
    requires
        result.status.code == Some(BACKUP_READ_ERROR_CODE),
    ensures
        backup_outcome(program, Launch::Finished(result)) is Ok,
        !result.status.spec_success(),
        run_outcome(program, Launch::Finished(result)) == Err::<(), ErrorView>(
            command_failure(program, result),
        ),
{
}

/// A backup is judged like any other operation unless it ends with the code for unread files.
pub proof fn law_backup_is_judged_like_a_run(program: Seq<char>, launch: Launch)
    requires
        !(launch matches Launch::Finished(result) && result.status.code == Some(
            BACKUP_READ_ERROR_CODE,
        )),
    ensures
        backup_outcome(program, launch) == run_outcome(program, launch),
{
}

/// A probe names a status on the exit codes 0, 10, 11 and 12 only; a failure keeps the
/// program, the status and the output of the process.
pub proof fn law_probe_codes(program: Seq<char>, result: ExecutionResult)
    ensures
        status_outcome(program, Launch::Finished(result)) is Ok <==> (result.status.code == Some(
            0i32,
        ) || result.status.code == Some(10i32) || result.status.code == Some(11i32)
            || result.status.code == Some(12i32)),
        status_outcome(program, Launch::Finished(result)) matches Err(e) ==> e == command_failure(
            program,
            result,
        ),
{
}

/// Whether `status` is the engine's way to say that a snapshot was made although some files
/// could not be read.
pub fn is_backup_read_error(status: ExitStatus) -> (b: bool)
    ensures
        b == (status.code == Some(BACKUP_READ_ERROR_CODE)),
{
    match status.code() {
        Some(code) => code == BACKUP_READ_ERROR_CODE,
        None => false,
    }
}

fn failure_of(program: &str, result: &ExecutionResult) -> (e: Error)
    ensures
        e@ == command_failure(program@, *result),
{
    Error::CmdFailure {
        program: program.to_owned(),
        status: result.status,
        stdout: result.stdout.clone(),
        stderr: result.stderr.clone(),
    }
}

/// Judges the end of an operation other than a backup or a probe.
pub fn interpret_run(program: &str, launch: &Launch) -> (r: Result<(), Error>)
    ensures
        match r {
            Ok(_) => run_outcome(program@, *launch) is Ok,
            Err(e) => run_outcome(program@, *launch) == Err::<(), ErrorView>(e@),
        },
{
    match launch {
        Launch::Failed(message) => Err(Error::IoError(message.clone())),
        Launch::Finished(result) => {
            if result.status.success() {
                Ok(())
            } else {
                Err(failure_of(program, result))
            }
        },
    }
}

/// Judges the end of a backup. The process's own status stays in `launch` as it was.
pub fn interpret_backup(program: &str, launch: &Launch) -> (r: Result<(), Error>)
    ensures
        match r {
            Ok(_) => backup_outcome(program@, *launch) is Ok,
            Err(e) => backup_outcome(program@, *launch) == Err::<(), ErrorView>(e@),
        },
{
    match launch {
        Launch::Finished(result) => {
            if is_backup_read_error(result.status) {
                Ok(())
            } else {
                interpret_run(program, launch)
            }
        },
        Launch::Failed(_) => interpret_run(program, launch),
    }
}

/// Judges the end of a probe.
pub fn interpret_status(program: &str, launch: &Launch) -> (r: Result<RepoStatus, Error>)
    ensures
        match r {
            Ok(status) => status_outcome(program@, *launch) == Ok::<RepoStatus, ErrorView>(status),
            Err(e) => status_outcome(program@, *launch) == Err::<RepoStatus, ErrorView>(e@),
        },
{
    match launch {
        Launch::Failed(message) => Err(Error::IoError(message.clone())),
        Launch::Finished(result) => {
            match result.status.code() {
                Some(0) => Ok(RepoStatus::Okay),
                Some(10) => Ok(RepoStatus::NoRepository),
                Some(11) => Ok(RepoStatus::Locked),
                Some(12) => Ok(RepoStatus::InvalidKey),
                _ => Err(failure_of(program, result)),
            }
        },
    }
}

/// The flag that sets how much the engine says.
pub open spec fn verbosity_flag(verbosity: nat) -> Seq<Seq<char>> {
    if verbosity > 0 {
        seq!["--verbose="@ + decimal_text(verbosity)]
    } else {
        Seq::empty()
    }
}

/// The arguments that come before the operation: how much to say, how long to wait for a
/// lock, and the repository's extended options.
pub open spec fn base_line(verbosity: nat, repo: RepositoryView) -> Seq<Seq<char>> {
    verbosity_flag(verbosity) + (if repo.retry_lock.len() > 0 {
        seq!["--retry-lock"@, repo.retry_lock]
    } else {
        Seq::empty()
    }) + repeated("--option"@, repo.options)
}

/// Builds the engine's processes.
pub struct Api {
    exe: String,
    verbosity: usize,
    inherited: Vec<(String, String)>,
}

/// What an `Api` holds.
pub struct ApiView {
    /// The engine's executable.
    pub exe: Seq<char>,
    /// How much the engine is to say.
    pub verbosity: nat,
    /// The environment that the tool itself runs in.
    pub inherited: Assignments,
}

impl ApiView {
    /// The process that runs the operation `line` on `repo`.
    pub open spec fn invocation(self, repo: RepositoryView, line: Seq<Seq<char>>) -> ExecutionContextView {
        ExecutionContextView {
            program: self.exe,
            args: base_line(self.verbosity, repo) + line,
            env: composed_environment(self.inherited, repo),
        }
    }
}

impl View for Api {
    type V = ApiView;

    closed spec fn view(&self) -> ApiView {
        ApiView {
            exe: self.exe@,
            verbosity: self.verbosity as nat,
            inherited: pairs(self.inherited@),
        }
    }
}

impl Api {
    /// An `Api` for the executable `exe`, which is to say as much as `verbosity` asks for, in
    /// a tool that runs in the environment `inherited`.
    pub fn new(exe: String, verbosity: usize, inherited: Vec<(String, String)>) -> (r: Api)
        ensures
            r@ == (ApiView { exe: exe@, verbosity: verbosity as nat, inherited: pairs(inherited@) }),
    {
        Api { exe, verbosity, inherited }
    }

    /// The environment that the tool itself runs in.
    pub fn inherited(&self) -> (r: &Vec<(String, String)>)
        ensures
            pairs(r@) == self@.inherited,
    {
        &self.inherited
    }

    /// The process that backs `paths` up to `repo` under the tag `tag`.
    pub fn backup(
        &self,
        repo: &Repository,
        paths: &Vec<String>,
        tag: &str,
        options: &BackupOptions,
        dry_run: bool,
    ) -> (r: ExecutionContext)
        ensures
            r@ == self@.invocation(repo@, backup_line(options@, tag@, texts(paths@), dry_run)),
    {
        let mut cmd = self.command(repo);
        let line = backup_arguments(options, tag, paths, dry_run);
        push_words(&mut cmd.args, &line);
        cmd
    }

    /// The process that removes from `repo` the snapshots tagged `tag` that `options` does not
    /// keep.
    pub fn forget(&self, repo: &Repository, tag: &str, options: &ForgetOptions, dry_run: bool) -> (r:
        ExecutionContext)
        ensures
            r@ == self@.invocation(repo@, forget_line(options@, tag@, dry_run)),
    {
        let mut cmd = self.command(repo);
        let line = forget_arguments(options, tag, dry_run);
        push_words(&mut cmd.args, &line);
        cmd
    }

    /// The process that probes `repo`.
    pub fn status(&self, repo: &Repository) -> (r: ExecutionContext)
        ensures
            r@ == self@.invocation(repo@, seq!["cat"@, "config"@]),
    {
        let mut cmd = self.command(repo);
        let ghost before = texts(cmd.args@);
        push_word(&mut cmd.args, "cat");
        push_word(&mut cmd.args, "config");
        assert(texts(cmd.args@) =~= before + seq!["cat"@, "config"@]);
        cmd
    }

    /// The process that creates `repo`.
    pub fn init(&self, repo: &Repository) -> (r: ExecutionContext)
        ensures
            r@ == self@.invocation(repo@, seq!["init"@]),
    {
        let mut cmd = self.command(repo);
        let ghost before = texts(cmd.args@);
        push_word(&mut cmd.args, "init");
        assert(texts(cmd.args@) =~= before + seq!["init"@]);
        cmd
    }

    /// The process that runs the engine on `repo` with the arguments `args`.
    pub fn exec(&self, repo: &Repository, args: &Vec<String>) -> (r: ExecutionContext)
        ensures
            r@ == self@.invocation(repo@, texts(args@)),
    {
        let mut cmd = self.command(repo);
        push_words(&mut cmd.args, args);
        cmd
    }

    /// The process of `repo` before an operation is named.
    fn command(&self, repo: &Repository) -> (r: ExecutionContext)
        ensures
            r.program@ == self@.exe,
            texts(r.args@) == base_line(self@.verbosity, repo@),
            pairs(r.env@) == composed_environment(self@.inherited, repo@),
    {
        let env = compose_environment(&self.inherited, repo);
        let mut args: Vec<String> = Vec::new();
        assert(texts(args@) =~= Seq::<Seq<char>>::empty());
        if self.verbosity > 0 {
            let mut flag = "--verbose=".to_owned();
            let level = decimal(self.verbosity as u64);
            flag.append(level.as_str());
            push_word(&mut args, flag.as_str());
        }
        assert(texts(args@) =~= verbosity_flag(self.verbosity as nat));
        let ghost before = texts(args@);
        if !repo.retry_lock.as_str().is_empty() {
            push_word(&mut args, "--retry-lock");
            push_word(&mut args, repo.retry_lock.as_str());
            assert(texts(args@) =~= before + seq!["--retry-lock"@, repo.retry_lock@]);
        } else {
            assert(texts(args@) =~= before + Seq::<Seq<char>>::empty());
        }
        push_repeated(&mut args, "--option", &repo.options);
        ExecutionContext { program: self.exe.clone(), args, env }
    }
}

} // verus!
