//! From a name in the configuration to what an operation on it needs.

use crate::config::{append_env, Config};
use crate::environment::Assignments;
use crate::name::Name;
use crate::options::{
    copy_text_option, text_option, BackupOptions, BackupOptionsView, ForgetOptions,
    ForgetOptionsView,
};
use crate::restic_api::{Repository, RepositoryView};
use crate::text::{pairs, texts};
use vstd::prelude::*;
use vstd::string::*;

verus! {

/// The tag of the snapshots of the location `name`.
pub open spec fn tag_of(name: Seq<char>) -> Seq<char> {
    "_aresticrat_"@ + name
}

/// The tag that marks the snapshots of `location_name`, so that a forget run finds exactly
/// those.
pub fn get_tag(location_name: &Name) -> (r: String)
    ensures
        r@ == tag_of(location_name@),
{
    let mut r = "_aresticrat_".to_owned();
    r.append(location_name.as_str());
    r
}

/// The backup options that hold for the location `name`: its own, else those of the
/// configuration, else none set.
pub open spec fn backup_options_of(config: Config, name: Seq<char>) -> BackupOptionsView {
    if config.locations@.contains_key(name) && config.locations@[name].options.backup is Some {
        config.locations@[name].options.backup->0@
    } else if config.options.backup is Some {
        config.options.backup->0@
    } else {
        BackupOptionsView::unset()
    }
}

/// The forget options that hold for the location `name`: its own, else those of the
/// configuration, else none set.
pub open spec fn forget_options_of(config: Config, name: Seq<char>) -> ForgetOptionsView {
    if config.locations@.contains_key(name) && config.locations@[name].options.forget is Some {
        config.locations@[name].options.forget->0@
    } else if config.options.forget is Some {
        config.options.forget->0@
    } else {
        ForgetOptionsView::unset()
    }
}

/// The backup options that hold for `location_name`.
pub fn get_backup_options(location_name: &Name, config: &Config) -> (r: BackupOptions)
    ensures
        r@ == backup_options_of(*config, location_name@),
{
    if let Some(location) = config.locations.get(location_name) {
        if let Some(options) = &location.options.backup {
            return options.clone();
        }
    }
    match &config.options.backup {
        Some(options) => options.clone(),
        None => BackupOptions::default(),
    }
}

/// The forget options that hold for `location_name`.
pub fn get_forget_options(location_name: &Name, config: &Config) -> (r: ForgetOptions)
    ensures
        r@ == forget_options_of(*config, location_name@),
{
    if let Some(location) = config.locations.get(location_name) {
        if let Some(options) = &location.options.forget {
            return options.clone();
        }
    }
    match &config.options.forget {
        Some(options) => options.clone(),
        None => ForgetOptions::default(),
    }
}

/// The variables that the configuration sets for the repository `name`: those for all
/// repositories, then the repository's own.
pub open spec fn repository_assignments(config: Config, name: Seq<char>) -> Assignments {
    config.environment@ + if config.repos@.contains_key(name) {
        config.repos@[name].environment@
    } else {
        Seq::empty()
    }
}

/// The variables that the configuration sets for `repo_name`.
pub fn get_repo_env_vars(repo_name: &Name, config: &Config) -> (r: Vec<(String, String)>)
    ensures
        pairs(r@) == repository_assignments(*config, repo_name@),
{
    let mut vars: Vec<(String, String)> = Vec::new();
    assert(pairs(vars@) =~= Seq::<(Seq<char>, Seq<char>)>::empty());
    append_env(&config.environment, &mut vars);
    assert(pairs(vars@) =~= config.environment@);
    if let Some(repo) = config.repos.get(repo_name) {
        append_env(&repo.environment, &mut vars);
    } else {
        assert(pairs(vars@) =~= config.environment@ + Seq::<(Seq<char>, Seq<char>)>::empty());
    }
    vars
}

/// The repository `name` as the engine is to reach it.
pub open spec fn resolved_repository(config: Config, name: Seq<char>) -> RepositoryView {
    let repo = config.repos@[name];
    RepositoryView {
        name,
        path: repo.path@,
        password: repo.key@,
        password_file: text_option(repo.password_file),
        password_command: repo.password_command@,
        retry_lock: repo.retry_lock@,
        options: texts(repo.options@),
        environment: repository_assignments(config, name),
    }
}

/// Turns the configuration of `repo_name` into what the engine needs, where the configuration
/// declares a repository of that name.
pub fn resolve_repository(repo_name: &Name, config: &Config) -> (r: Option<Repository>)
    ensures
        match r {
            Some(repo) => config.repos@.contains_key(repo_name@) && repo@ == resolved_repository(
                *config,
                repo_name@,
            ),
            None => !config.repos@.contains_key(repo_name@),
        },
{
    match config.repos.get(repo_name) {
        Some(repo_config) => {
            let environment = get_repo_env_vars(repo_name, config);
            let options = repo_config.options.clone();
            assert(texts(options@) =~= texts(repo_config.options@));
            Some(
                Repository {
                    name: repo_name.clone(),
                    path: repo_config.path.clone(),
                    password: repo_config.key.clone(),
                    password_file: copy_text_option(&repo_config.password_file),
                    password_command: repo_config.password_command.clone(),
                    retry_lock: repo_config.retry_lock.clone(),
                    options,
                    environment,
                },
            )
        },
        None => None,
    }
}

} // verus!
