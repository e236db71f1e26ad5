use aresticrat::cli::{Args, BackupArgs, Command, ExecArgs, ForgetArgs, VerifyArgs};
use aresticrat::collections::{NameMap, NameSet};
use aresticrat::command::CommandSeq;
use aresticrat::config::{default_executable, Config, Environment, Location, Repo};
use aresticrat::name::Name;
use aresticrat::options::{BackupOptions, ForgetOptions, HookOptions, Options};
use aresticrat::plan::{self, handle_command, CommandError, Plan};
use aresticrat::resolve::{get_backup_options, get_forget_options, get_tag};
use aresticrat::restic_api::{Api, Error, RepoStatus, Repository};
use aresticrat::run::{ExecutionContext, ExecutionResult, ExitStatus, Launch};
use aresticrat::selection::SelectionError;
use aresticrat::workflow::{advance, begin, current, is_due, Job, Operation, Position, Progress, Step, Verdict};

fn name(s: &str) -> Name {
    Name::parse(s).ok().unwrap()
}

fn words(v: &[&str]) -> Vec<String> {
    v.iter().map(|s| s.to_string()).collect()
}

fn env(v: &[(&str, &str)]) -> Vec<(String, String)> {
    v.iter().map(|(k, v)| (k.to_string(), v.to_string())).collect()
}

fn exit(code: i32) -> Launch {
    Launch::Finished(ExecutionResult {
        status: ExitStatus::from_code(Some(code)),
        stdout: vec![],
        stderr: vec![],
    })
}

fn process(program: &str) -> ExecutionContext {
    ExecutionContext { program: program.to_string(), args: vec![], env: vec![] }
}

fn guard(program: &str) -> Step {
    Step::Guard { context: process(program) }
}

fn operate(operation: Operation, program: &str) -> Step {
    Step::Operate { operation, repo: name("nas"), context: process(program) }
}

fn job(steps: Vec<Step>) -> Job {
    Job { location: Some(name("home")), steps }
}

fn due(jobs: &Vec<Job>, progress: &Progress) -> Option<String> {
    current(jobs, progress).map(|a| a.context.program.clone())
}

fn hook(line: &str) -> CommandSeq {
    CommandSeq::parse_shell_words(line).ok().unwrap()
}

fn repo(path: &str) -> Repo {
    Repo {
        path: path.to_string(),
        key: String::new(),
        password_file: None,
        password_command: String::new(),
        retry_lock: String::new(),
        options: vec![],
        environment: Environment::default(),
    }
}

fn sample_config() -> Config {
    let mut repos = NameMap::new();
    repos.insert(name("nas"), repo("/srv/nas"));
    repos.insert(name("usb"), repo("/mnt/usb"));
    let mut locations = NameMap::new();
    locations.insert(
        name("home"),
        Location {
            paths: words(&["/home"]),
            repos: vec![name("nas"), name("ghost"), name("usb")],
            options: Options {
                backup: Some(BackupOptions {
                    forget: true,
                    exclude: words(&["*.tmp"]),
                    hooks: HookOptions { if_hooks: vec![hook("test -d /home"), hook("true")] },
                    ..BackupOptions::default()
                }),
                forget: None,
            },
        },
    );
    locations.insert(
        name("etc"),
        Location { paths: words(&["/etc"]), repos: vec![name("nas")], options: Options::default() },
    );
    let options = Options {
        backup: None,
        forget: Some(ForgetOptions {
            keep_last: Some(5),
            hooks: HookOptions { if_hooks: vec![hook("mountpoint /srv")] },
            ..ForgetOptions::default()
        }),
    };
    Config::new(default_executable(), options, Environment::default(), repos, locations)
}

fn api() -> Api {
    Api::new("restic".to_string(), 0, env(&[("PATH", "/bin")]))
}

fn targets(v: &[(&str, &[&str])]) -> NameMap<NameSet> {
    let mut m = NameMap::new();
    for (l, repos) in v {
        let mut s = NameSet::new();
        for r in repos.iter() {
            s.insert(name(r));
        }
        m.insert(name(l), s);
    }
    m
}

/// The steps of a job, each as its kind, its program and its arguments.
fn outline(job: &Job) -> Vec<String> {
    job.steps
        .iter()
        .map(|s| match s {
            Step::Guard { context } => format!("guard {} {:?}", context.program, context.args),
            Step::Operate { operation, repo, context } => {
                format!("{:?} {} {} {:?}", operation, repo.as_str(), context.program, context.args)
            }
            Step::Probe { repo, context, init } => format!(
                "probe {} {} {:?} init={:?}",
                repo.as_str(),
                context.program,
                context.args,
                init.as_ref().map(|c| c.args.clone())
            ),
        })
        .collect()
}

#[test]
fn guards_run_in_order_until_one_fails() {
    let jobs = vec![job(vec![guard("A"), guard("B"), guard("C"), operate(Operation::Backup, "restic")])];
    let mut progress = begin(&jobs);
    assert_eq!(due(&jobs, &progress), Some("A".to_string()));
    match advance(&jobs, &mut progress, &exit(0)) {
        Some(Verdict::GuardPassed) => {}
        other => panic!("{other:?}"),
    }
    assert_eq!(due(&jobs, &progress), Some("B".to_string()));
    match advance(&jobs, &mut progress, &exit(5)) {
        Some(Verdict::GateClosed(status)) => assert_eq!(status.code(), Some(5)),
        other => panic!("{other:?}"),
    }
    assert_eq!(due(&jobs, &progress), None);
    assert!(!progress.failed);
    assert!(advance(&jobs, &mut progress, &exit(0)).is_none());
}

#[test]
fn guards_that_all_succeed_open_the_way() {
    let jobs = vec![job(vec![guard("A"), guard("B"), operate(Operation::Forget, "restic")])];
    let mut progress = begin(&jobs);
    advance(&jobs, &mut progress, &exit(0));
    advance(&jobs, &mut progress, &exit(0));
    assert_eq!(due(&jobs, &progress), Some("restic".to_string()));
    match advance(&jobs, &mut progress, &exit(0)) {
        Some(Verdict::Succeeded) => {}
        other => panic!("{other:?}"),
    }
    assert_eq!(due(&jobs, &progress), None);
    assert!(!progress.failed);
}

#[test]
fn a_closed_gate_skips_to_the_next_job() {
    let jobs = vec![
        job(vec![guard("A"), operate(Operation::Backup, "first")]),
        job(vec![]),
        job(vec![operate(Operation::Backup, "second")]),
    ];
    let mut progress = begin(&jobs);
    advance(&jobs, &mut progress, &exit(1));
    assert_eq!(progress.at, Position { job: 2, step: 0, initializing: false });
    assert_eq!(due(&jobs, &progress), Some("second".to_string()));
    assert!(!progress.failed);
}

#[test]
fn a_guard_that_cannot_run_skips_its_job_and_counts_as_failure() {
    let jobs = vec![
        job(vec![guard("A"), operate(Operation::Backup, "first")]),
        job(vec![operate(Operation::Backup, "second")]),
    ];
    let mut progress = begin(&jobs);
    match advance(&jobs, &mut progress, &Launch::Failed("not found".to_string())) {
        Some(Verdict::Failed(Error::IoError(message))) => assert_eq!(message, "not found"),
        other => panic!("{other:?}"),
    }
    assert!(progress.failed);
    assert_eq!(due(&jobs, &progress), Some("second".to_string()));
}

#[test]
fn a_failed_operation_is_counted_and_the_run_goes_on() {
    let jobs = vec![job(vec![
        operate(Operation::Backup, "one"),
        operate(Operation::Backup, "two"),
        operate(Operation::Backup, "three"),
    ])];
    let mut progress = begin(&jobs);
    match advance(&jobs, &mut progress, &exit(1)) {
        Some(Verdict::Failed(Error::CmdFailure { program, status, .. })) => {
            assert_eq!(program, "one");
            assert_eq!(status.code(), Some(1));
        }
        other => panic!("{other:?}"),
    }
    assert!(progress.failed);
    assert_eq!(due(&jobs, &progress), Some("two".to_string()));
    advance(&jobs, &mut progress, &exit(0));
    assert!(progress.failed);
    assert_eq!(due(&jobs, &progress), Some("three".to_string()));
    advance(&jobs, &mut progress, &exit(0));
    assert!(progress.failed);
    assert_eq!(due(&jobs, &progress), None);
}

#[test]
fn unread_files_fail_a_forget_run_but_no_backup() {
    let jobs = vec![job(vec![operate(Operation::Backup, "b"), operate(Operation::Forget, "f")])];
    let mut progress = begin(&jobs);
    match advance(&jobs, &mut progress, &exit(3)) {
        Some(Verdict::Succeeded) => {}
        other => panic!("{other:?}"),
    }
    assert!(!progress.failed);
    match advance(&jobs, &mut progress, &exit(3)) {
        Some(Verdict::Failed(Error::CmdFailure { status, .. })) => assert_eq!(status.code(), Some(3)),
        other => panic!("{other:?}"),
    }
    assert!(progress.failed);
}

#[test]
fn a_missing_repository_is_created_where_asked() {
    let probe = Step::Probe { repo: name("nas"), context: process("probe"), init: Some(process("create")) };
    let jobs = vec![Job { location: None, steps: vec![probe, operate(Operation::Exec, "after")] }];
    let mut progress = begin(&jobs);
    let action = current(&jobs, &progress).unwrap();
    assert_eq!(action.context.program, "probe");
    assert!(action.quiet);
    match advance(&jobs, &mut progress, &exit(10)) {
        Some(Verdict::Status(RepoStatus::NoRepository)) => {}
        other => panic!("{other:?}"),
    }
    assert_eq!(progress.at, Position { job: 0, step: 0, initializing: true });
    let action = current(&jobs, &progress).unwrap();
    assert_eq!(action.context.program, "create");
    assert!(!action.quiet);
    match advance(&jobs, &mut progress, &exit(0)) {
        Some(Verdict::Succeeded) => {}
        other => panic!("{other:?}"),
    }
    assert_eq!(due(&jobs, &progress), Some("after".to_string()));
    assert!(!progress.failed);
}

#[test]
fn a_missing_repository_is_reported_where_no_creation_is_asked() {
    let probe = Step::Probe { repo: name("nas"), context: process("probe"), init: None };
    let jobs = vec![Job { location: None, steps: vec![probe] }];
    let mut progress = begin(&jobs);
    match advance(&jobs, &mut progress, &exit(10)) {
        Some(Verdict::Status(RepoStatus::NoRepository)) => {}
        other => panic!("{other:?}"),
    }
    assert_eq!(due(&jobs, &progress), None);
    assert!(!progress.failed);
}

#[test]
fn probes_report_what_they_find() {
    for (code, expected) in [(0, RepoStatus::Okay), (11, RepoStatus::Locked), (12, RepoStatus::InvalidKey)] {
        let probe = Step::Probe { repo: name("nas"), context: process("probe"), init: Some(process("create")) };
        let jobs = vec![Job { location: None, steps: vec![probe] }];
        let mut progress = begin(&jobs);
        match advance(&jobs, &mut progress, &exit(code)) {
            Some(Verdict::Status(status)) => assert_eq!(status, expected),
            other => panic!("{other:?}"),
        }
        assert_eq!(due(&jobs, &progress), None);
        assert!(!progress.failed);
    }
    let probe = Step::Probe { repo: name("nas"), context: process("probe"), init: None };
    let jobs = vec![Job { location: None, steps: vec![probe] }];
    let mut progress = begin(&jobs);
    match advance(&jobs, &mut progress, &exit(42)) {
        Some(Verdict::Failed(Error::CmdFailure { status, .. })) => assert_eq!(status.code(), Some(42)),
        other => panic!("{other:?}"),
    }
    assert!(progress.failed);
}

#[test]
fn a_failed_creation_is_a_failure() {
    let probe = Step::Probe { repo: name("nas"), context: process("probe"), init: Some(process("create")) };
    let jobs = vec![Job { location: None, steps: vec![probe] }];
    let mut progress = begin(&jobs);
    advance(&jobs, &mut progress, &exit(10));
    match advance(&jobs, &mut progress, &exit(1)) {
        Some(Verdict::Failed(Error::CmdFailure { program, .. })) => assert_eq!(program, "create"),
        other => panic!("{other:?}"),
    }
    assert!(progress.failed);
    assert_eq!(due(&jobs, &progress), None);
}

#[test]
fn an_empty_plan_is_at_its_end_at_once() {
    let jobs: Vec<Job> = vec![];
    let mut progress = begin(&jobs);
    assert_eq!(progress.at, Position { job: 0, step: 0, initializing: false });
    assert!(current(&jobs, &progress).is_none());
    assert!(advance(&jobs, &mut progress, &exit(0)).is_none());
    let jobs = vec![job(vec![]), job(vec![])];
    let progress = begin(&jobs);
    assert_eq!(progress.at.job, 2);
    assert!(current(&jobs, &progress).is_none());
}

#[test]
fn nothing_is_due_at_a_place_that_is_no_step() {
    let jobs = vec![job(vec![guard("A")])];
    assert!(is_due(&jobs, Position { job: 0, step: 0, initializing: false }));
    assert!(!is_due(&jobs, Position { job: 0, step: 0, initializing: true }));
    assert!(!is_due(&jobs, Position { job: 0, step: 1, initializing: false }));
    assert!(!is_due(&jobs, Position { job: 1, step: 0, initializing: false }));
    let mut progress = Progress { at: Position { job: 7, step: 7, initializing: false }, failed: true };
    assert!(advance(&jobs, &mut progress, &exit(0)).is_none());
    assert_eq!(progress, Progress { at: Position { job: 7, step: 7, initializing: false }, failed: true });
}

#[test]
fn the_tag_names_the_location() {
    assert_eq!(get_tag(&name("home")), "_aresticrat_home");
    assert_eq!(get_tag(&name("a-b_c")), "_aresticrat_a-b_c");
}

#[test]
fn options_of_a_location_fall_back_to_those_of_the_configuration() {
    let config = sample_config();
    let own = get_backup_options(&name("home"), &config);
    assert!(own.forget());
    assert_eq!(own.exclude(), &words(&["*.tmp"]));
    let fallback = get_backup_options(&name("etc"), &config);
    assert!(!fallback.forget());
    assert!(fallback.exclude().is_empty());
    let unknown = get_backup_options(&name("nowhere"), &config);
    assert!(!unknown.forget());
    let global = get_forget_options(&name("home"), &config);
    assert_eq!(global.keep_last(), Some(5));
    assert_eq!(global.hooks().if_hooks().len(), 1);
    let unknown = get_forget_options(&name("nowhere"), &config);
    assert_eq!(unknown.keep_last(), Some(5));
}

#[test]
fn api_builds_the_command_line_of_the_engine() {
    let api = Api::new("/usr/bin/restic".to_string(), 2, env(&[("PATH", "/bin"), ("ARESTICRAT_R_X", "1")]));
    let repository = Repository {
        name: name("nas"),
        path: "/srv/nas".to_string(),
        password: "pw".to_string(),
        password_file: None,
        password_command: String::new(),
        retry_lock: "5m".to_string(),
        options: words(&["a=1", "b=2"]),
        environment: env(&[("K", "v")]),
    };
    let base = words(&["--verbose=2", "--retry-lock", "5m", "--option", "a=1", "--option", "b=2"]);
    let expected_env = env(&[
        ("PATH", "/bin"),
        ("K", "v"),
        ("RESTIC_REPOSITORY", "/srv/nas"),
        ("RESTIC_PASSWORD", "pw"),
        ("RESTIC_PROGRESS_FPS", "0.016666"),
    ]);

    let c = api.status(&repository);
    assert_eq!(c.program, "/usr/bin/restic");
    assert_eq!(c.args, [base.clone(), words(&["cat", "config"])].concat());
    assert_eq!(c.env, expected_env);

    let c = api.init(&repository);
    assert_eq!(c.args, [base.clone(), words(&["init"])].concat());
    assert_eq!(c.env, expected_env);

    let c = api.exec(&repository, &words(&["snapshots", "--json"]));
    assert_eq!(c.args, [base.clone(), words(&["snapshots", "--json"])].concat());

    let c = api.backup(&repository, &words(&["/home"]), "_aresticrat_home", &BackupOptions::default(), true);
    assert_eq!(
        c.args,
        [base.clone(), words(&["backup", "--dry-run", "--tag", "_aresticrat_home", "/home"])].concat()
    );
    assert_eq!(c.env, expected_env);

    let mut options = ForgetOptions::default();
    options.keep_daily = Some(7);
    let c = api.forget(&repository, "_aresticrat_home", &options, false);
    assert_eq!(
        c.args,
        [base, words(&["forget", "--keep-daily", "7", "--tag", "_aresticrat_home"])].concat()
    );
    assert_eq!(api.inherited(), &env(&[("PATH", "/bin"), ("ARESTICRAT_R_X", "1")]));
}

#[test]
fn api_leaves_out_what_is_not_set() {
    let api = Api::new("restic".to_string(), 0, vec![]);
    let repository = Repository {
        name: name("nas"),
        path: String::new(),
        password: String::new(),
        password_file: None,
        password_command: String::new(),
        retry_lock: String::new(),
        options: vec![],
        environment: vec![],
    };
    let c = api.init(&repository);
    assert_eq!(c.program, "restic");
    assert_eq!(c.args, words(&["init"]));
    assert_eq!(c.env, env(&[("RESTIC_PROGRESS_FPS", "0.016666")]));
    let api = Api::new("restic".to_string(), 12, vec![]);
    assert_eq!(api.init(&repository).args, words(&["--verbose=12", "init"]));
}

#[test]
fn backup_plan_has_guards_runs_and_cleanup_for_each_location() {
    let config = sample_config();
    let plan = plan::backup(&config, &api(), &targets(&[("home", &["nas", "ghost", "usb"]), ("etc", &["nas"])]), false);
    assert_eq!(plan.jobs.len(), 2);
    assert_eq!(plan.jobs[0].location.as_ref().unwrap().as_str(), "home");
    assert_eq!(
        outline(&plan.jobs[0]),
        vec![
            r#"guard test ["-d", "/home"]"#.to_string(),
            r#"guard true []"#.to_string(),
            r#"Backup nas restic ["backup", "--exclude", "*.tmp", "--tag", "_aresticrat_home", "/home"]"#.to_string(),
            r#"Backup usb restic ["backup", "--exclude", "*.tmp", "--tag", "_aresticrat_home", "/home"]"#.to_string(),
            r#"guard mountpoint ["/srv"]"#.to_string(),
            r#"Forget nas restic ["forget", "--keep-last", "5", "--tag", "_aresticrat_home"]"#.to_string(),
            r#"Forget usb restic ["forget", "--keep-last", "5", "--tag", "_aresticrat_home"]"#.to_string(),
        ]
    );
    assert_eq!(plan.jobs[1].location.as_ref().unwrap().as_str(), "etc");
    assert_eq!(
        outline(&plan.jobs[1]),
        vec![r#"Backup nas restic ["backup", "--tag", "_aresticrat_etc", "/etc"]"#.to_string()]
    );
    assert_eq!(plan.undefined.len(), 1);
    assert_eq!(plan.undefined[0].location.as_ref().unwrap().as_str(), "home");
    assert_eq!(plan.undefined[0].repo, "ghost");
    assert!(plan.rejected.is_empty());
    match &plan.jobs[0].steps[2] {
        Step::Operate { context, .. } => {
            assert_eq!(
                context.env,
                env(&[("PATH", "/bin"), ("RESTIC_REPOSITORY", "/srv/nas"), ("RESTIC_PROGRESS_FPS", "0.016666")])
            );
        }
        other => panic!("{other:?}"),
    }
    match &plan.jobs[0].steps[0] {
        Step::Guard { context } => assert_eq!(context.env, env(&[("PATH", "/bin")])),
        other => panic!("{other:?}"),
    }
}

#[test]
fn a_dry_run_backup_has_no_cleanup() {
    let config = sample_config();
    let plan = plan::backup(&config, &api(), &targets(&[("home", &["nas"])]), true);
    assert_eq!(
        outline(&plan.jobs[0]),
        vec![
            r#"guard test ["-d", "/home"]"#.to_string(),
            r#"guard true []"#.to_string(),
            r#"Backup nas restic ["backup", "--dry-run", "--exclude", "*.tmp", "--tag", "_aresticrat_home", "/home"]"#.to_string(),
        ]
    );
}

#[test]
fn forget_plan_has_guards_and_runs_for_each_location() {
    let config = sample_config();
    let plan = plan::forget(&config, &api(), &targets(&[("etc", &["nas"])]), true);
    assert_eq!(plan.jobs.len(), 1);
    assert_eq!(
        outline(&plan.jobs[0]),
        vec![
            r#"guard mountpoint ["/srv"]"#.to_string(),
            r#"Forget nas restic ["forget", "--dry-run", "--keep-last", "5", "--tag", "_aresticrat_etc"]"#.to_string(),
        ]
    );
    assert!(plan.undefined.is_empty());
}

#[test]
fn verify_plan_probes_every_repository() {
    let config = sample_config();
    let plan = plan::verify(&config, &api(), false);
    assert_eq!(plan.jobs.len(), 1);
    assert!(plan.jobs[0].location.is_none());
    assert_eq!(
        outline(&plan.jobs[0]),
        vec![
            r#"probe nas restic ["cat", "config"] init=None"#.to_string(),
            r#"probe usb restic ["cat", "config"] init=None"#.to_string(),
        ]
    );
    let plan = plan::verify(&config, &api(), true);
    assert_eq!(
        outline(&plan.jobs[0]),
        vec![
            r#"probe nas restic ["cat", "config"] init=Some(["init"])"#.to_string(),
            r#"probe usb restic ["cat", "config"] init=Some(["init"])"#.to_string(),
        ]
    );
}

#[test]
fn exec_plan_runs_the_engine_for_the_named_repositories() {
    let config = sample_config();
    let plan = plan::exec(&config, &api(), &words(&["usb", "ghost", "not a name"]), &words(&["snapshots"]));
    assert_eq!(plan.jobs.len(), 1);
    assert_eq!(outline(&plan.jobs[0]), vec![r#"Exec usb restic ["snapshots"]"#.to_string()]);
    assert_eq!(plan.undefined.len(), 2);
    assert!(plan.undefined[0].location.is_none());
    assert_eq!(plan.undefined[0].repo, "ghost");
    assert_eq!(plan.undefined[1].repo, "not a name");
}

#[test]
fn exec_plan_runs_the_engine_for_all_repositories_where_none_is_named() {
    let config = sample_config();
    let plan = plan::exec(&config, &api(), &vec![], &words(&["check"]));
    assert_eq!(
        outline(&plan.jobs[0]),
        vec![r#"Exec nas restic ["check"]"#.to_string(), r#"Exec usb restic ["check"]"#.to_string()]
    );
    assert!(plan.undefined.is_empty());
}

fn args(command: Command) -> Args {
    Args {
        config_file: "aresticrat.toml".to_string(),
        working_dir: None,
        quiet: false,
        verbose: 0,
        env_files: vec![],
        command,
    }
}

fn locations_of(plan: &Plan) -> Vec<String> {
    let mut v: Vec<String> =
        plan.jobs.iter().map(|j| j.location.as_ref().unwrap().as_str().to_string()).collect();
    v.sort();
    v
}

#[test]
fn the_backup_command_plans_every_location() {
    let config = sample_config();
    let plan = handle_command(&args(Command::Backup(BackupArgs { dry_run: true })), &config, &api()).ok().unwrap();
    assert_eq!(locations_of(&plan), words(&["etc", "home"]));
    assert_eq!(plan.undefined.len(), 1);
    assert!(plan.rejected.is_empty());
}

#[test]
fn the_forget_command_plans_its_selection() {
    let config = sample_config();
    let forget = ForgetArgs { locations: words(&["home@usb", "home@elsewhere"]), dry_run: false };
    let plan = handle_command(&args(Command::Forget(forget)), &config, &api()).ok().unwrap();
    assert_eq!(locations_of(&plan), words(&["home"]));
    assert_eq!(
        outline(&plan.jobs[0]),
        vec![
            r#"guard mountpoint ["/srv"]"#.to_string(),
            r#"Forget usb restic ["forget", "--keep-last", "5", "--tag", "_aresticrat_home"]"#.to_string(),
        ]
    );
    assert_eq!(plan.rejected.len(), 1);
    assert_eq!(plan.rejected[0].repo().unwrap().as_str(), "elsewhere");
}

#[test]
fn the_forget_command_fails_on_bad_words_and_unknown_locations() {
    let config = sample_config();
    let forget = ForgetArgs { locations: words(&["ho me"]), dry_run: false };
    match handle_command(&args(Command::Forget(forget)), &config, &api()) {
        Err(CommandError::Token(e)) => {
            assert_eq!(e.message(), "Invalid name (only [A-Za-z0-9_-] are allowed).")
        }
        other => panic!("{other:?}"),
    }
    let forget = ForgetArgs { locations: words(&["home", "nowhere"]), dry_run: false };
    match handle_command(&args(Command::Forget(forget)), &config, &api()) {
        Err(CommandError::Selection(SelectionError::UnknownLocation(n))) => {
            assert_eq!(n.as_str(), "nowhere")
        }
        other => panic!("{other:?}"),
    }
}

#[test]
fn the_other_commands_plan_repositories() {
    let config = sample_config();
    let plan = handle_command(&args(Command::Verify(VerifyArgs { init: true })), &config, &api()).ok().unwrap();
    assert_eq!(plan.jobs.len(), 1);
    assert_eq!(plan.jobs[0].steps.len(), 2);
    let exec = ExecArgs { repos: words(&["nas"]), args: words(&["stats"]) };
    let plan = handle_command(&args(Command::Exec(exec)), &config, &api()).ok().unwrap();
    assert_eq!(outline(&plan.jobs[0]), vec![r#"Exec nas restic ["stats"]"#.to_string()]);
    let plan = handle_command(&args(Command::About), &config, &api()).ok().unwrap();
    assert!(plan.jobs.is_empty() && plan.undefined.is_empty() && plan.rejected.is_empty());
}

#[test]
fn a_planned_backup_runs_to_its_end() {
    let config = sample_config();
    let plan = plan::backup(&config, &api(), &targets(&[("home", &["nas", "usb"]), ("etc", &["nas"])]), false);
    let mut progress = begin(&plan.jobs);
    let mut launched = Vec::new();
    while let Some(action) = current(&plan.jobs, &progress) {
        launched.push(format!("{} {}", action.context.program, action.context.args.join(" ")));
        let launch = if action.context.program == "mountpoint" { exit(32) } else { exit(0) };
        assert!(advance(&plan.jobs, &mut progress, &launch).is_some());
    }
    assert_eq!(
        launched,
        vec![
            "test -d /home".to_string(),
            "true ".to_string(),
            "restic backup --exclude *.tmp --tag _aresticrat_home /home".to_string(),
            "restic backup --exclude *.tmp --tag _aresticrat_home /home".to_string(),
            "mountpoint /srv".to_string(),
            "restic backup --tag _aresticrat_etc /etc".to_string(),
        ]
    );
    assert!(!progress.failed);
}

#[test]
fn cli_getters_give_the_fields() {
    let a = Args {
        config_file: "my.toml".to_string(),
        working_dir: Some("/work".to_string()),
        quiet: true,
        verbose: 2,
        env_files: words(&["a.env", "b.env"]),
        command: Command::Forget(ForgetArgs { locations: words(&["home"]), dry_run: true }),
    };
    assert_eq!(a.config_file(), "my.toml");
    assert_eq!(a.working_dir(), Some("/work"));
    assert!(a.quiet());
    assert_eq!(a.verbose(), 2);
    assert_eq!(a.env_files().to_vec(), words(&["a.env", "b.env"]));
    match a.command() {
        Command::Forget(f) => {
            assert_eq!(f.locations(), &words(&["home"]));
            assert!(f.dry_run());
        }
        other => panic!("{other:?}"),
    }
    assert!(args(Command::About).working_dir().is_none());
    assert!(!BackupArgs { dry_run: false }.dry_run());
    assert!(VerifyArgs { init: true }.init());
    let e = ExecArgs { repos: words(&["nas"]), args: words(&["snapshots"]) };
    assert_eq!(e.repos().to_vec(), words(&["nas"]));
    assert_eq!(e.args().to_vec(), words(&["snapshots"]));
}
