//! The plans of the tool's commands: which processes a command asks for, in which order.

use crate::arguments::{backup_line, forget_line};
use crate::cli::{Args, Command};
use crate::collections::{NameMap, NameSet};
use crate::command::{command_process, commands, CommandSeq};
use crate::config::Config;
use crate::environment::Assignments;
use crate::name::{is_name, is_token, LocationRepo, LocationRepoParseError, Name};
use crate::options::{BackupOptions, ForgetOptions};
use crate::resolve::{
    backup_options_of, forget_options_of, get_backup_options, get_forget_options, get_tag,
    resolve_repository, resolved_repository, tag_of,
};
use crate::restic_api::{Api, ApiView};
use crate::selection::{
    first_unknown_location, parse_selection, reads_as, resolve_selection, resolves, tokens,
    Resolution, SelectionError, Token,
};
use crate::text::{pairs, texts};
use crate::workflow::{jobs_view, steps_view, Job, JobView, Operation, Step, StepView};
use vstd::prelude::*;

verus! {

/// A repository that is named but not declared: it calls for a warning.
#[derive(Debug)]
pub struct Undefined {
    /// The location that refers to the repository, where a location does.
    pub location: Option<Name>,
    /// The name as it was given.
    pub repo: String,
}

/// What an `Undefined` holds: the location and the name.
pub type UndefinedView = (Option<Seq<char>>, Seq<char>);

impl View for Undefined {
    type V = UndefinedView;

    open spec fn view(&self) -> UndefinedView {
        (
            match self.location {
                Some(name) => Some(name@),
                None => None,
            },
            self.repo@,
        )
    }
}

/// The views of a list of undefined repositories, in order.
pub open spec fn undefined_view(v: Seq<Undefined>) -> Seq<UndefinedView> {
    Seq::new(v.len(), |i: int| v[i]@)
}

/// The processes of a command, and what it passes over.
#[derive(Debug)]
pub struct Plan {
    /// The jobs of the command, in order.
    pub jobs: Vec<Job>,
    /// The repositories that are named but not declared. Each one calls for a warning.
    pub undefined: Vec<Undefined>,
    /// The tokens of the selection that name a repository which their location does not
    /// declare. Each one calls for a warning.
    pub rejected: Vec<LocationRepo>,
}

/// What a `Plan` holds.
pub struct PlanView {
    pub jobs: Seq<JobView>,
    pub undefined: Seq<UndefinedView>,
    pub rejected: Seq<Token>,
}

impl View for Plan {
    type V = PlanView;

    open spec fn view(&self) -> PlanView {
        PlanView {
            jobs: jobs_view(self.jobs@),
            undefined: undefined_view(self.undefined@),
            rejected: tokens(self.rejected@),
        }
    }
}

/// One guard step for each command, in order, each in the environment `env`.
pub open spec fn guard_steps(hooks: Seq<Seq<Seq<char>>>, env: Assignments) -> Seq<StepView> {
    Seq::new(
        hooks.len(),
        |i: int| StepView::Guard { context: command_process(hooks[i], env) },
    )
}

/// The paths of `location`.
pub open spec fn location_paths(config: Config, location: Seq<char>) -> Seq<Seq<char>> {
    if config.locations@.contains_key(location) {
        texts(config.locations@[location].paths@)
    } else {
        Seq::empty()
    }
}

/// The arguments that ask for `operation` on `location`.
pub open spec fn operation_line(
    config: Config,
    operation: Operation,
    location: Seq<char>,
    dry_run: bool,
) -> Seq<Seq<char>> {
    if operation == Operation::Backup {
        backup_line(
            backup_options_of(config, location),
            tag_of(location),
            location_paths(config, location),
            dry_run,
        )
    } else {
        forget_line(forget_options_of(config, location), tag_of(location), dry_run)
    }
}

/// The step that runs the engine with the arguments `line` on the declared repository `repo`.
pub open spec fn operate_step(
    config: Config,
    api: ApiView,
    operation: Operation,
    repo: Seq<char>,
    line: Seq<Seq<char>>,
) -> StepView {
    StepView::Operate {
        operation,
        repo,
        context: api.invocation(resolved_repository(config, repo), line),
    }
}

/// One step for each of `repos` that the configuration declares, in order.
pub open spec fn operate_steps(
    config: Config,
    api: ApiView,
    operation: Operation,
    repos: Seq<Seq<char>>,
    line: Seq<Seq<char>>,
) -> Seq<StepView>
    decreases repos.len(),
{
    if repos.len() == 0 {
        Seq::empty()
    } else {
        let rest = operate_steps(config, api, operation, repos.drop_last(), line);
        if is_name(repos.last()) && config.repos@.contains_key(repos.last()) {
            rest.push(operate_step(config, api, operation, repos.last(), line))
        } else {
            rest
        }
    }
}

/// Those of `repos` that the configuration does not declare, in order.
pub open spec fn undefined_of(
    config: Config,
    location: Option<Seq<char>>,
    repos: Seq<Seq<char>>,
) -> Seq<UndefinedView>
    decreases repos.len(),
{
    if repos.len() == 0 {
        Seq::empty()
    } else {
        let rest = undefined_of(config, location, repos.drop_last());
        if is_name(repos.last()) && config.repos@.contains_key(repos.last()) {
            rest
        } else {
            rest.push((location, repos.last()))
        }
    }
}

/// The steps that remove old snapshots of `location` from `repos`: the guards of the forget
/// options, then one run for each repository.
pub open spec fn forget_steps(
    config: Config,
    api: ApiView,
    location: Seq<char>,
    repos: Seq<Seq<char>>,
    dry_run: bool,
) -> Seq<StepView> {
    guard_steps(forget_options_of(config, location).hooks, api.inherited) + operate_steps(
        config,
        api,
        Operation::Forget,
        repos,
        operation_line(config, Operation::Forget, location, dry_run),
    )
}

/// The steps that back `location` up to `repos`: the guards of the backup options, one run
/// for each repository and, where the options ask for it and the run is no dry run, the steps
/// that remove old snapshots.
pub open spec fn backup_steps(
    config: Config,
    api: ApiView,
    location: Seq<char>,
    repos: Seq<Seq<char>>,
    dry_run: bool,
) -> Seq<StepView> {
    guard_steps(backup_options_of(config, location).hooks, api.inherited) + operate_steps(
        config,
        api,
        Operation::Backup,
        repos,
        operation_line(config, Operation::Backup, location, dry_run),
    ) + if !dry_run && backup_options_of(config, location).forget {
        forget_steps(config, api, location, repos, dry_run)
    } else {
        Seq::empty()
    }
}

/// The job of `operation` on `location` and `repos`.
pub open spec fn location_job(
    config: Config,
    api: ApiView,
    operation: Operation,
    location: Seq<char>,
    repos: Seq<Seq<char>>,
    dry_run: bool,
) -> JobView {
    JobView {
        location: Some(location),
        steps: if operation == Operation::Backup {
            backup_steps(config, api, location, repos, dry_run)
        } else {
            forget_steps(config, api, location, repos, dry_run)
        },
    }
}

/// The plan of `operation` on the first `n` locations of `targets`: one job for each
/// location, in the order of the map.
pub open spec fn location_plan(
    config: Config,
    api: ApiView,
    operation: Operation,
    targets: NameMap<NameSet>,
    dry_run: bool,
    n: int,
) -> PlanView
    decreases n,
{
    if n <= 0 {
        PlanView { jobs: Seq::empty(), undefined: Seq::empty(), rejected: Seq::empty() }
    } else {
        let rest = location_plan(config, api, operation, targets, dry_run, n - 1);
        let location = targets.keys()[n - 1];
        let repos = targets.values()[n - 1].order();
        PlanView {
            jobs: rest.jobs.push(location_job(config, api, operation, location, repos, dry_run)),
            undefined: rest.undefined + undefined_of(config, Some(location), repos),
            rejected: Seq::empty(),
        }
    }
}

/// The repositories that `exec` works on: those that are named, or all where none is.
pub open spec fn exec_repos(config: Config, named: Seq<Seq<char>>) -> Seq<Seq<char>> {
    if named.len() == 0 {
        config.repos.keys()
    } else {
        named
    }
}

/// The step that probes the repository `repo`, with its creation where `init` is set.
pub open spec fn probe_step(config: Config, api: ApiView, repo: Seq<char>, init: bool) -> StepView {
    StepView::Probe {
        repo,
        context: api.invocation(resolved_repository(config, repo), seq!["cat"@, "config"@]),
        init: if init {
            Some(api.invocation(resolved_repository(config, repo), seq!["init"@]))
        } else {
            None
        },
    }
}

/// One probe for each of the first `n` repositories of the configuration.
pub open spec fn probe_steps(config: Config, api: ApiView, init: bool, n: int) -> Seq<StepView>
    decreases n,
{
    if n <= 0 {
        Seq::empty()
    } else {
        probe_steps(config, api, init, n - 1).push(
            probe_step(config, api, config.repos.keys()[n - 1], init),
        )
    }
}

/// The plan of `verify`: one job that probes every repository of the configuration.
pub open spec fn verify_plan(config: Config, api: ApiView, init: bool) -> PlanView {
    PlanView {
        jobs: seq![
            JobView {
                location: None,
                steps: probe_steps(config, api, init, config.repos.keys().len() as int),
            },
        ],
        undefined: Seq::empty(),
        rejected: Seq::empty(),
    }
}

/// The plan of `exec`: one job that runs the engine with `args` for each repository.
pub open spec fn exec_plan(
    config: Config,
    api: ApiView,
    named: Seq<Seq<char>>,
    args: Seq<Seq<char>>,
) -> PlanView {
    PlanView {
        jobs: seq![
            JobView {
                location: None,
                steps: operate_steps(
                    config,
                    api,
                    Operation::Exec,
                    exec_repos(config, named),
                    args,
                ),
            },
        ],
        undefined: undefined_of(config, None, exec_repos(config, named)),
        rejected: Seq::empty(),
    }
}

/// The plan of `operation` on the targets of `resolved`, with the tokens that were rejected.
pub open spec fn selection_plan(
    config: Config,
    api: ApiView,
    operation: Operation,
    resolved: Resolution,
    dry_run: bool,
) -> PlanView {
    let plan = location_plan(
        config,
        api,
        operation,
        resolved.targets,
        dry_run,
        resolved.targets.keys().len() as int,
    );
    PlanView { jobs: plan.jobs, undefined: plan.undefined, rejected: tokens(resolved.rejected@) }
}

/// What to ask of the engine for each repository of a job.
pub enum Request<'a> {
    /// A snapshot of `paths` under `tag`.
    Backup { paths: &'a Vec<String>, tag: &'a str, options: &'a BackupOptions, dry_run: bool },
    /// The removal of old snapshots under `tag`.
    Forget { tag: &'a str, retention: &'a ForgetOptions, dry_run: bool },
    /// A run with the user's own arguments.
    Exec { args: &'a Vec<String> },
}

impl<'a> Request<'a> {
    /// The operation that the request asks for.
    pub open spec fn operation(self) -> Operation {
        match self {
            Request::Backup { .. } => Operation::Backup,
            Request::Forget { .. } => Operation::Forget,
            Request::Exec { .. } => Operation::Exec,
        }
    }

    /// The arguments that the request hands to the engine.
    pub open spec fn line(self) -> Seq<Seq<char>> {
        match self {
            Request::Backup { paths, tag, options, dry_run } => backup_line(
                options@,
                tag@,
                texts(paths@),
                dry_run,
            ),
            Request::Forget { tag, retention, dry_run } => forget_line(retention@, tag@, dry_run),
            Request::Exec { args } => texts(args@),
        }
    }
}

/// Appends one guard step for each of `hooks`. The guards run in the tool's own environment.
pub fn run_hooks(hooks: &Vec<CommandSeq>, env: &Vec<(String, String)>, steps: &mut Vec<Step>)
    ensures
        steps_view(final(steps)@) == steps_view(old(steps)@) + guard_steps(
            commands(hooks@),
            pairs(env@),
        ),
{
    let mut i: usize = 0;
    assert(steps_view(steps@) =~= steps_view(old(steps)@) + guard_steps(
        commands(hooks@),
        pairs(env@),
    ).take(0));
    while i < hooks.len()
        invariant
            i <= hooks@.len(),
            steps_view(steps@) == steps_view(old(steps)@) + guard_steps(
                commands(hooks@),
                pairs(env@),
            ).take(i as int),
        decreases hooks@.len() - i,
    {
        let ghost before = steps_view(steps@);
        let context = hooks[i].to_command(env);
        steps.push(Step::Guard { context });
        assert(steps_view(steps@) =~= before.push(
            StepView::Guard { context: command_process(hooks@[i as int]@, pairs(env@)) },
        ));
        assert(steps_view(steps@) =~= steps_view(old(steps)@) + guard_steps(
            commands(hooks@),
            pairs(env@),
        ).take(i + 1));
        i += 1;
    }
    assert(guard_steps(commands(hooks@), pairs(env@)).take(hooks@.len() as int) =~= guard_steps(
        commands(hooks@),
        pairs(env@),
    ));
}

/// Appends the step that runs `request` on `repo`, or notes that `repo` is not declared.
fn operate(
    config: &Config,
    api: &Api,
    request: &Request,
    location: Option<&Name>,
    repo: &Name,
    steps: &mut Vec<Step>,
    undefined: &mut Vec<Undefined>,
)
    ensures
        config.repos@.contains_key(repo@) ==> steps_view(final(steps)@) == steps_view(
            old(steps)@,
        ).push(operate_step(*config, api@, request.operation(), repo@, request.line()))
            && undefined_view(final(undefined)@) == undefined_view(old(undefined)@),
        !config.repos@.contains_key(repo@) ==> steps_view(final(steps)@) == steps_view(
            old(steps)@,
        ) && undefined_view(final(undefined)@) == undefined_view(old(undefined)@).push(
            (
                match location {
                    Some(name) => Some(name@),
                    None => None,
                },
                repo@,
            ),
        ),
{
    match resolve_repository(repo, config) {
        Some(repository) => {
            let (operation, context) = match request {
                Request::Backup { paths, tag, options, dry_run } => (
                    Operation::Backup,
                    api.backup(&repository, paths, tag, options, *dry_run),
                ),
                Request::Forget { tag, retention, dry_run } => (
                    Operation::Forget,
                    api.forget(&repository, tag, retention, *dry_run),
                ),
                Request::Exec { args } => (Operation::Exec, api.exec(&repository, args)),
            };
            let ghost before = steps_view(steps@);
            steps.push(Step::Operate { operation, repo: repo.clone(), context });
            assert(steps_view(steps@) =~= before.push(
                operate_step(*config, api@, request.operation(), repo@, request.line()),
            ));
            assert(undefined_view(undefined@) =~= undefined_view(old(undefined)@));
        },
        None => {
            let ghost before = undefined_view(undefined@);
            let owner = match location {
                Some(name) => Some(name.clone()),
                None => None,
            };
            undefined.push(Undefined { location: owner, repo: repo.as_str().to_owned() });
            assert(undefined_view(undefined@) =~= before.push(
                (
                    match location {
                        Some(name) => Some(name@),
                        None => None,
                    },
                    repo@,
                ),
            ));
            assert(steps_view(steps@) =~= steps_view(old(steps)@));
        },
    }
}

/// Appends one step that runs `request` for each of `repos` that is declared, and notes the
/// others.
fn operate_each(
    config: &Config,
    api: &Api,
    request: &Request,
    location: &Name,
    repos: &NameSet,
    steps: &mut Vec<Step>,
    undefined: &mut Vec<Undefined>,
)
    ensures
        steps_view(final(steps)@) == steps_view(old(steps)@) + operate_steps(
            *config,
            api@,
            request.operation(),
            repos.order(),
            request.line(),
        ),
        undefined_view(final(undefined)@) == undefined_view(old(undefined)@) + undefined_of(
            *config,
            Some(location@),
            repos.order(),
        ),
{
    let n = repos.len();
    let mut k: usize = 0;
    assert(repos.order().take(0) =~= Seq::<Seq<char>>::empty());
    assert(steps_view(steps@) =~= steps_view(old(steps)@) + Seq::<StepView>::empty());
    assert(undefined_view(undefined@) =~= undefined_view(old(undefined)@) + Seq::<
        UndefinedView,
    >::empty());
    while k < n
        invariant
            n == repos.order().len(),
            k <= n,
            steps_view(steps@) == steps_view(old(steps)@) + operate_steps(
                *config,
                api@,
                request.operation(),
                repos.order().take(k as int),
                request.line(),
            ),
            undefined_view(undefined@) == undefined_view(old(undefined)@) + undefined_of(
                *config,
                Some(location@),
                repos.order().take(k as int),
            ),
        decreases n - k,
    {
        let repo = repos.get(k);
        let ghost steps_before = steps_view(steps@);
        let ghost undefined_before = undefined_view(undefined@);
        let ghost done = repos.order().take(k as int);
        let ghost next = repos.order().take(k + 1);
        proof {
            assert(next.drop_last() =~= done);
            assert(next.last() == repo@);
        }
        operate(config, api, request, Some(location), repo, steps, undefined);
        proof {
            if config.repos@.contains_key(repo@) {
                assert(steps_before.push(
                    operate_step(*config, api@, request.operation(), repo@, request.line()),
                ) =~= steps_view(old(steps)@) + operate_steps(
                    *config,
                    api@,
                    request.operation(),
                    next,
                    request.line(),
                ));
            } else {
                assert(undefined_before.push((Some(location@), repo@)) =~= undefined_view(
                    old(undefined)@,
                ) + undefined_of(*config, Some(location@), next));
            }
        }
        k += 1;
    }
    assert(repos.order().take(n as int) =~= repos.order());
}

/// The paths of `location`, or none where the configuration does not declare it.
fn paths_of(config: &Config, location: &Name) -> (r: Vec<String>)
    ensures
        texts(r@) == location_paths(*config, location@),
{
    match config.locations.get(location) {
        Some(declared) => {
            let r = declared.paths.clone();
            assert(texts(r@) =~= texts(declared.paths@));
            r
        },
        None => {
            let r: Vec<String> = Vec::new();
            assert(texts(r@) =~= Seq::<Seq<char>>::empty());
            r
        },
    }
}

/// Appends the steps that remove old snapshots of `location_name` from `repo_names`.
pub fn forget_location(
    api: &Api,
    location_name: &Name,
    repo_names: &NameSet,
    config: &Config,
    dry_run: bool,
    steps: &mut Vec<Step>,
    undefined: &mut Vec<Undefined>,
)
    ensures
        steps_view(final(steps)@) == steps_view(old(steps)@) + forget_steps(
            *config,
            api@,
            location_name@,
            repo_names.order(),
            dry_run,
        ),
        undefined_view(final(undefined)@) == undefined_view(old(undefined)@) + undefined_of(
            *config,
            Some(location_name@),
            repo_names.order(),
        ),
{
    let tag = get_tag(location_name);
    let forget_opts = get_forget_options(location_name, config);
    run_hooks(forget_opts.hooks().if_hooks(), api.inherited(), steps);
    let request = Request::Forget { tag: tag.as_str(), retention: &forget_opts, dry_run };
    operate_each(config, api, &request, location_name, repo_names, steps, undefined);
    proof {
        let guards = guard_steps(forget_options_of(*config, location_name@).hooks, api@.inherited);
        let runs = operate_steps(
            *config,
            api@,
            Operation::Forget,
            repo_names.order(),
            operation_line(*config, Operation::Forget, location_name@, dry_run),
        );
        assert(steps_view(steps@) == steps_view(old(steps)@) + guards + runs);
        assert(steps_view(old(steps)@) + guards + runs =~= steps_view(old(steps)@) + (guards
            + runs));
    }
}

/// Appends the steps that back `location_name` up to `repo_names`.
pub fn backup_location(
    api: &Api,
    location_name: &Name,
    repo_names: &NameSet,
    config: &Config,
    dry_run: bool,
    steps: &mut Vec<Step>,
    undefined: &mut Vec<Undefined>,
)
    ensures
        steps_view(final(steps)@) == steps_view(old(steps)@) + backup_steps(
            *config,
            api@,
            location_name@,
            repo_names.order(),
            dry_run,
        ),
        undefined_view(final(undefined)@) == undefined_view(old(undefined)@) + undefined_of(
            *config,
            Some(location_name@),
            repo_names.order(),
        ),
{
    let tag = get_tag(location_name);
    let backup_opts = get_backup_options(location_name, config);
    let paths = paths_of(config, location_name);
    run_hooks(backup_opts.hooks().if_hooks(), api.inherited(), steps);
    let request = Request::Backup {
        paths: &paths,
        tag: tag.as_str(),
        options: &backup_opts,
        dry_run,
    };
    operate_each(config, api, &request, location_name, repo_names, steps, undefined);
    let ghost guards = guard_steps(backup_options_of(*config, location_name@).hooks, api@.inherited);
    let ghost runs = operate_steps(
        *config,
        api@,
        Operation::Backup,
        repo_names.order(),
        operation_line(*config, Operation::Backup, location_name@, dry_run),
    );
    assert(steps_view(steps@) == steps_view(old(steps)@) + guards + runs);
    if !dry_run && backup_opts.forget() {
        let mut unused: Vec<Undefined> = Vec::new();
        forget_location(api, location_name, repo_names, config, dry_run, steps, &mut unused);
        proof {
            let cleanup = forget_steps(*config, api@, location_name@, repo_names.order(), dry_run);
            assert(steps_view(old(steps)@) + guards + runs + cleanup =~= steps_view(old(steps)@)
                + (guards + runs + cleanup));
        }
    } else {
        assert(steps_view(old(steps)@) + guards + runs =~= steps_view(old(steps)@) + (guards
            + runs + Seq::<StepView>::empty()));
    }
}

/// Plans `operation` on the locations of `targets`: one job for each location, in the order of
/// the map.
fn plan_locations(
    config: &Config,
    api: &Api,
    operation: Operation,
    targets: &NameMap<NameSet>,
    dry_run: bool,
) -> (r: Plan)
    ensures
        r@ == location_plan(
            *config,
            api@,
            operation,
            *targets,
            dry_run,
            targets.keys().len() as int,
        ),
{
    let n = targets.len();
    let mut jobs: Vec<Job> = Vec::new();
    let mut undefined: Vec<Undefined> = Vec::new();
    let mut j: usize = 0;
    assert(jobs_view(jobs@) =~= Seq::<JobView>::empty());
    assert(undefined_view(undefined@) =~= Seq::<UndefinedView>::empty());
    while j < n
        invariant
            n == targets.keys().len(),
            n == targets.values().len(),
            j <= n,
            (PlanView {
                jobs: jobs_view(jobs@),
                undefined: undefined_view(undefined@),
                rejected: Seq::empty(),
            }) == location_plan(*config, api@, operation, *targets, dry_run, j as int),
        decreases n - j,
    {
        let location = targets.key_at(j);
        let repos = targets.value_at(j);
        let mut steps: Vec<Step> = Vec::new();
        assert(steps_view(steps@) =~= Seq::<StepView>::empty());
        let ghost jobs_before = jobs_view(jobs@);
        match operation {
            Operation::Backup => {
                backup_location(api, location, repos, config, dry_run, &mut steps, &mut undefined);
                assert(steps_view(steps@) =~= backup_steps(
                    *config,
                    api@,
                    location@,
                    repos.order(),
                    dry_run,
                ));
            },
            _ => {
                forget_location(api, location, repos, config, dry_run, &mut steps, &mut undefined);
                assert(steps_view(steps@) =~= forget_steps(
                    *config,
                    api@,
                    location@,
                    repos.order(),
                    dry_run,
                ));
            },
        }
        jobs.push(Job { location: Some(location.clone()), steps });
        assert(jobs_view(jobs@) =~= jobs_before.push(
            location_job(*config, api@, operation, location@, repos.order(), dry_run),
        ));
        j += 1;
    }
    let r = Plan { jobs, undefined, rejected: Vec::new() };
    assert(r@.rejected =~= Seq::<Token>::empty());
    r
}

/// Plans the backup of the locations of `targets`, each to its repositories.
pub fn backup(config: &Config, api: &Api, targets: &NameMap<NameSet>, dry_run: bool) -> (r: Plan)
    ensures
        r@ == location_plan(
            *config,
            api@,
            Operation::Backup,
            *targets,
            dry_run,
            targets.keys().len() as int,
        ),
{
    plan_locations(config, api, Operation::Backup, targets, dry_run)
}

/// Plans the removal of old snapshots of the locations of `targets`, each from its
/// repositories.
pub fn forget(config: &Config, api: &Api, targets: &NameMap<NameSet>, dry_run: bool) -> (r: Plan)
    ensures
        r@ == location_plan(
            *config,
            api@,
            Operation::Forget,
            *targets,
            dry_run,
            targets.keys().len() as int,
        ),
{
    plan_locations(config, api, Operation::Forget, targets, dry_run)
}

/// Plans a probe of every repository of the configuration, each with its creation where
/// `init` is set.
pub fn verify(config: &Config, api: &Api, init: bool) -> (r: Plan)
    ensures
        r@ == verify_plan(*config, api@, init),
{
    let n = config.repos.len();
    let mut steps: Vec<Step> = Vec::new();
    let mut j: usize = 0;
    assert(steps_view(steps@) =~= Seq::<StepView>::empty());
    while j < n
        invariant
            n == config.repos.keys().len(),
            j <= n,
            steps_view(steps@) == probe_steps(*config, api@, init, j as int),
        decreases n - j,
    {
        let name = config.repos.key_at(j);
        let ghost before = steps_view(steps@);
        if let Some(repository) = resolve_repository(name, config) {
            let context = api.status(&repository);
            let creation = if init {
                Some(api.init(&repository))
            } else {
                None
            };
            steps.push(Step::Probe { repo: name.clone(), context, init: creation });
        }
        assert(steps_view(steps@) =~= before.push(probe_step(*config, api@, name@, init)));
        j += 1;
    }
    let mut jobs: Vec<Job> = Vec::new();
    jobs.push(Job { location: None, steps });
    let undefined: Vec<Undefined> = Vec::new();
    let r = Plan { jobs, undefined, rejected: Vec::new() };
    assert(r@.jobs =~= verify_plan(*config, api@, init).jobs);
    assert(r@.undefined =~= Seq::<UndefinedView>::empty());
    assert(r@.rejected =~= Seq::<Token>::empty());
    r
}

/// Plans a run of the engine with `args` for each of the repositories `repos`, or for every
/// repository of the configuration where `repos` is empty.
pub fn exec(config: &Config, api: &Api, repos: &Vec<String>, args: &Vec<String>) -> (r: Plan)
    ensures
        r@ == exec_plan(*config, api@, texts(repos@), texts(args@)),
{
    let request = Request::Exec { args };
    let mut steps: Vec<Step> = Vec::new();
    let mut undefined: Vec<Undefined> = Vec::new();
    let ghost all = exec_repos(*config, texts(repos@));
    assert(steps_view(steps@) =~= Seq::<StepView>::empty());
    assert(undefined_view(undefined@) =~= Seq::<UndefinedView>::empty());
    assert(all.take(0) =~= Seq::<Seq<char>>::empty());
    if repos.len() == 0 {
        let n = config.repos.len();
        let mut j: usize = 0;
        while j < n
            invariant
                n == config.repos.keys().len(),
                all == config.repos.keys(),
                request.operation() == Operation::Exec,
                request.line() == texts(args@),
                j <= n,
                steps_view(steps@) == operate_steps(
                    *config,
                    api@,
                    Operation::Exec,
                    all.take(j as int),
                    texts(args@),
                ),
                undefined_view(undefined@) == undefined_of(*config, None, all.take(j as int)),
            decreases n - j,
        {
            let name = config.repos.key_at(j);
            proof {
                assert(all.take(j + 1).drop_last() =~= all.take(j as int));
                assert(all.take(j + 1).last() == name@);
            }
            operate(config, api, &request, None, name, &mut steps, &mut undefined);
            j += 1;
        }
        assert(all.take(n as int) =~= all);
    } else {
        let mut i: usize = 0;
        while i < repos.len()
            invariant
                all == texts(repos@),
                request.operation() == Operation::Exec,
                request.line() == texts(args@),
                i <= repos@.len(),
                steps_view(steps@) == operate_steps(
                    *config,
                    api@,
                    Operation::Exec,
                    all.take(i as int),
                    texts(args@),
                ),
                undefined_view(undefined@) == undefined_of(*config, None, all.take(i as int)),
            decreases repos@.len() - i,
        {
            proof {
                assert(all.take(i + 1).drop_last() =~= all.take(i as int));
                assert(all.take(i + 1).last() == repos@[i as int]@);
            }
            match Name::parse(repos[i].as_str()) {
                Ok(name) => {
                    operate(config, api, &request, None, &name, &mut steps, &mut undefined);
                },
                Err(_) => {
                    let ghost before = undefined_view(undefined@);
                    undefined.push(Undefined { location: None, repo: repos[i].clone() });
                    assert(undefined_view(undefined@) =~= before.push(
                        (None::<Seq<char>>, repos@[i as int]@),
                    ));
                },
            }
            i += 1;
        }
        assert(all.take(repos@.len() as int) =~= all);
    }
    let mut jobs: Vec<Job> = Vec::new();
    jobs.push(Job { location: None, steps });
    let r = Plan { jobs, undefined, rejected: Vec::new() };
    assert(r@.jobs =~= exec_plan(*config, api@, texts(repos@), texts(args@)).jobs);
    assert(r@.rejected =~= Seq::<Token>::empty());
    r
}

/// Why a command cannot be planned.
#[derive(Debug)]
pub enum CommandError {
    /// A word of the selection is no token.
    Token(LocationRepoParseError),
    /// The selection cannot be resolved.
    Selection(SelectionError),
}

/// Plans the command of `args`.
///
/// `backup` works on every location, `forget` on its selection, `verify` and `exec` on
/// repositories. Only `forget` can fail: on a word that is no token, or on a token that names
/// an unknown location. `about` asks for no process: its plan is empty.
pub fn handle_command(args: &Args, config: &Config, api: &Api) -> (r: Result<Plan, CommandError>)
    ensures
        match args.command {
            Command::Backup(backup_args) => r matches Ok(plan) && exists|resolved: Resolution|
                resolves(config.locations@, Seq::empty(), resolved) && plan@ == selection_plan(
                    *config,
                    api@,
                    Operation::Backup,
                    resolved,
                    backup_args.dry_run,
                ),
            Command::Forget(forget_args) => match r {
                Ok(plan) => exists|selection: Seq<Token>, resolved: Resolution|
                    reads_as(texts(forget_args.locations@), selection) && resolves(
                        config.locations@,
                        selection,
                        resolved,
                    ) && plan@ == selection_plan(
                        *config,
                        api@,
                        Operation::Forget,
                        resolved,
                        forget_args.dry_run,
                    ),
                Err(CommandError::Token(e)) => exists|i: int|
                    0 <= i < forget_args.locations@.len() && !is_token(
                        #[trigger] texts(forget_args.locations@)[i],
                    ),
                Err(CommandError::Selection(SelectionError::UnknownLocation(name))) => exists|
                    selection: Seq<Token>,
                |
                    reads_as(texts(forget_args.locations@), selection) && first_unknown_location(
                        config.locations@,
                        selection,
                        name@,
                    ),
            },
            Command::Verify(verify_args) => r matches Ok(plan) && plan@ == verify_plan(
                *config,
                api@,
                verify_args.init,
            ),
            Command::Exec(exec_args) => r matches Ok(plan) && plan@ == exec_plan(
                *config,
                api@,
                texts(exec_args.repos@),
                texts(exec_args.args@),
            ),
            Command::About => r matches Ok(plan) && plan@ == (PlanView {
                jobs: Seq::empty(),
                undefined: Seq::empty(),
                rejected: Seq::empty(),
            }),
        },
{
    match &args.command {
        Command::Backup(backup_args) => {
            let everything: Vec<LocationRepo> = Vec::new();
            assert(tokens(everything@) =~= Seq::<Token>::empty());
            match resolve_selection(&everything, config) {
                Ok(resolved) => {
                    let mut plan = backup(config, api, &resolved.targets, backup_args.dry_run());
                    plan.rejected = resolved.rejected;
                    Ok(plan)
                },
                Err(e) => Err(CommandError::Selection(e)),
            }
        },
        Command::Forget(forget_args) => {
            let selection = match parse_selection(forget_args.locations()) {
                Ok(selection) => selection,
                Err(e) => {
                    return Err(CommandError::Token(e));
                },
            };
            match resolve_selection(&selection, config) {
                Ok(resolved) => {
                    let mut plan = forget(config, api, &resolved.targets, forget_args.dry_run());
                    plan.rejected = resolved.rejected;
                    Ok(plan)
                },
                Err(e) => Err(CommandError::Selection(e)),
            }
        },
        Command::Verify(verify_args) => Ok(verify(config, api, verify_args.init())),
        Command::Exec(exec_args) => Ok(exec(config, api, &exec_args.repos, &exec_args.args)),
        Command::About => {
            let plan = Plan { jobs: Vec::new(), undefined: Vec::new(), rejected: Vec::new() };
            assert(plan@.jobs =~= Seq::<JobView>::empty());
            assert(plan@.undefined =~= Seq::<UndefinedView>::empty());
            assert(plan@.rejected =~= Seq::<Token>::empty());
            Ok(plan)
        },
    }
}

} // verus!
