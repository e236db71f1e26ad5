use aresticrat::config::{append_env, default_executable, Config, EnvFile, Environment, Location, Repo};
use aresticrat::collections::NameMap;
use aresticrat::envfile::{invalid_env_lines, parse_env_var, read_env_file_to};
use aresticrat::environment::{
    compose_environment, inherited_variables, push_pair, push_pairs, remove_prefix,
    repository_prefix_of,
};
use aresticrat::name::Name;
use aresticrat::options::Options;
use aresticrat::resolve::{get_repo_env_vars, resolve_repository};
use aresticrat::restic_api::Repository;

fn name(s: &str) -> Name {
    Name::parse(s).ok().unwrap()
}

fn env(v: &[(&str, &str)]) -> Vec<(String, String)> {
    v.iter().map(|(k, v)| (k.to_string(), v.to_string())).collect()
}

fn lines(v: &[&str]) -> Vec<String> {
    v.iter().map(|s| s.to_string()).collect()
}

/// The value that the assignments leave for `key`: the one assigned last.
fn lookup(assignments: &[(String, String)], key: &str) -> Option<String> {
    assignments.iter().rev().find(|(k, _)| k == key).map(|(_, v)| v.clone())
}

fn repository(repo_name: &str) -> Repository {
    Repository {
        name: name(repo_name),
        path: String::new(),
        password: String::new(),
        password_file: None,
        password_command: String::new(),
        retry_lock: String::new(),
        options: vec![],
        environment: vec![],
    }
}

fn repo(path: &str, environment: Environment) -> Repo {
    Repo {
        path: path.to_string(),
        key: String::new(),
        password_file: None,
        password_command: String::new(),
        retry_lock: String::new(),
        options: vec![],
        environment,
    }
}

fn config_with(global: Environment, repos: Vec<(&str, Repo)>) -> Config {
    let mut map = NameMap::new();
    for (n, r) in repos {
        map.insert(name(n), r);
    }
    let locations: NameMap<Location> = NameMap::new();
    Config::new(default_executable(), Options::default(), global, map, locations)
}

#[test]
fn repository_prefix_is_upper_case() {
    assert_eq!(repository_prefix_of(&name("nas")), "ARESTICRAT_R_NAS_");
    assert_eq!(repository_prefix_of(&name("My-repo_2")), "ARESTICRAT_R_MY-REPO_2_");
    assert_eq!(repository_prefix_of(&name("ALREADY")), "ARESTICRAT_R_ALREADY_");
}

#[test]
fn remove_prefix_cuts_only_a_prefix() {
    let mut s = "ARESTICRAT_R_NAS_AWS_KEY".to_string();
    assert!(remove_prefix(&mut s, "ARESTICRAT_R_NAS_"));
    assert_eq!(s, "AWS_KEY");
    let mut s = "PATH".to_string();
    assert!(!remove_prefix(&mut s, "ARESTICRAT_R_NAS_"));
    assert_eq!(s, "PATH");
    let mut s = "abc".to_string();
    assert!(remove_prefix(&mut s, "abc"));
    assert_eq!(s, "");
    let mut s = "xabc".to_string();
    assert!(!remove_prefix(&mut s, "abc"));
    assert_eq!(s, "xabc");
    let mut s = "abc".to_string();
    assert!(remove_prefix(&mut s, ""));
    assert_eq!(s, "abc");
}

#[test]
fn inherited_variables_pass_unless_reserved() {
    let inherited = env(&[
        ("PATH", "/bin"),
        ("ARESTICRAT_R_FOO", "bad"),
        ("ARESTICRAT_R_NAS_AWS_KEY", "secret"),
        ("ARESTICRAT_R_USB_AWS_KEY", "other"),
        ("ARESTICRAT_LOG", "debug"),
        ("HOME", "/root"),
    ]);
    let r = inherited_variables(&inherited, &name("nas"));
    assert_eq!(
        r,
        env(&[("PATH", "/bin"), ("AWS_KEY", "secret"), ("ARESTICRAT_LOG", "debug"), ("HOME", "/root")])
    );
}

#[test]
fn reserved_variable_is_absent_from_the_composed_environment() {
    let composed = compose_environment(&env(&[("ARESTICRAT_R_FOO", "bad")]), &repository("nas"));
    assert_eq!(lookup(&composed, "ARESTICRAT_R_FOO"), None);
    assert!(composed.iter().all(|(k, _)| !k.starts_with("ARESTICRAT_R_")));
    assert!(composed.iter().all(|(_, v)| v != "bad"));
}

#[test]
fn a_name_that_still_bears_the_reserved_prefix_after_rewriting_is_dropped() {
    let inherited = env(&[("ARESTICRAT_R_NAS_ARESTICRAT_R_X", "v")]);
    let r = inherited_variables(&inherited, &name("nas"));
    assert!(r.is_empty());
}

#[test]
fn repository_override_beats_global_override_beats_inherited() {
    let global = Environment { env_files: vec![], vars: env(&[("X", "2")]) };
    let own = Environment { env_files: vec![], vars: env(&[("X", "3")]) };
    let config = config_with(global, vec![("nas", repo("/srv/nas", own))]);
    let resolved = resolve_repository(&name("nas"), &config).unwrap();
    let composed = compose_environment(&env(&[("X", "1")]), &resolved);
    assert_eq!(lookup(&composed, "X"), Some("3".to_string()));
}

#[test]
fn global_override_beats_inherited() {
    let global = Environment { env_files: vec![], vars: env(&[("X", "2")]) };
    let config = config_with(global, vec![("nas", repo("/srv/nas", Environment::default()))]);
    let resolved = resolve_repository(&name("nas"), &config).unwrap();
    let composed = compose_environment(&env(&[("X", "1")]), &resolved);
    assert_eq!(lookup(&composed, "X"), Some("2".to_string()));
}

#[test]
fn one_repository_does_not_see_the_overrides_of_another() {
    let a = Environment { env_files: vec![], vars: env(&[("TOKEN", "for-a")]) };
    let b = Environment { env_files: vec![], vars: env(&[("OTHER", "for-b")]) };
    let config =
        config_with(Environment::default(), vec![("a", repo("/a", a)), ("b", repo("/b", b))]);
    let inherited = env(&[("ARESTICRAT_R_A_REGION", "eu"), ("ARESTICRAT_R_B_REGION", "us")]);
    let for_a = compose_environment(&inherited, &resolve_repository(&name("a"), &config).unwrap());
    let for_b = compose_environment(&inherited, &resolve_repository(&name("b"), &config).unwrap());
    assert_eq!(lookup(&for_a, "TOKEN"), Some("for-a".to_string()));
    assert_eq!(lookup(&for_a, "OTHER"), None);
    assert_eq!(lookup(&for_a, "REGION"), Some("eu".to_string()));
    assert_eq!(lookup(&for_b, "TOKEN"), None);
    assert_eq!(lookup(&for_b, "OTHER"), Some("for-b".to_string()));
    assert_eq!(lookup(&for_b, "REGION"), Some("us".to_string()));
}

#[test]
fn composed_environment_is_layered_in_order() {
    let mut r = repository("nas");
    r.path = "/srv/nas".to_string();
    r.password = "pw".to_string();
    r.password_file = Some("/etc/pw".to_string());
    r.password_command = "pass show nas".to_string();
    r.environment = env(&[("A", "repo"), ("RESTIC_REPOSITORY", "overridden")]);
    let composed = compose_environment(&env(&[("A", "inherited"), ("B", "b")]), &r);
    assert_eq!(
        composed,
        env(&[
            ("A", "inherited"),
            ("B", "b"),
            ("A", "repo"),
            ("RESTIC_REPOSITORY", "overridden"),
            ("RESTIC_REPOSITORY", "/srv/nas"),
            ("RESTIC_PASSWORD", "pw"),
            ("RESTIC_PASSWORD_FILE", "/etc/pw"),
            ("RESTIC_PASSWORD_COMMAND", "pass show nas"),
            ("RESTIC_PROGRESS_FPS", "0.016666"),
        ])
    );
    assert_eq!(lookup(&composed, "A"), Some("repo".to_string()));
    assert_eq!(lookup(&composed, "RESTIC_REPOSITORY"), Some("/srv/nas".to_string()));
}

#[test]
fn empty_connection_values_are_not_set() {
    let composed = compose_environment(&vec![], &repository("nas"));
    assert_eq!(composed, env(&[("RESTIC_PROGRESS_FPS", "0.016666")]));
}

#[test]
fn the_tuning_variable_beats_everything() {
    let mut r = repository("nas");
    r.environment = env(&[("RESTIC_PROGRESS_FPS", "60")]);
    let composed = compose_environment(&env(&[("RESTIC_PROGRESS_FPS", "30")]), &r);
    assert_eq!(lookup(&composed, "RESTIC_PROGRESS_FPS"), Some("0.016666".to_string()));
}

#[test]
fn pairs_are_appended_in_order() {
    let mut v = env(&[("A", "1")]);
    push_pair(&mut v, "B", "2");
    push_pairs(&mut v, &env(&[("C", "3"), ("A", "4")]));
    assert_eq!(v, env(&[("A", "1"), ("B", "2"), ("C", "3"), ("A", "4")]));
}

#[test]
fn env_line_splits_at_the_first_equals_sign() {
    assert_eq!(parse_env_var("A=b"), Some(("A".to_string(), "b".to_string())));
    assert_eq!(parse_env_var("A=b=c"), Some(("A".to_string(), "b=c".to_string())));
    assert_eq!(parse_env_var("A="), Some(("A".to_string(), String::new())));
    assert_eq!(parse_env_var("=b"), Some((String::new(), "b".to_string())));
    assert_eq!(parse_env_var("="), Some((String::new(), String::new())));
    assert_eq!(parse_env_var("no value"), None);
    assert_eq!(parse_env_var(""), None);
}

#[test]
fn env_file_lines_are_read_in_order() {
    let mut vars = env(&[("OLD", "1")]);
    read_env_file_to(&lines(&["A=1", "garbage", "B=2", "", "A=3"]), &mut vars);
    assert_eq!(vars, env(&[("OLD", "1"), ("A", "1"), ("B", "2"), ("A", "3")]));
}

#[test]
fn invalid_env_lines_are_numbered_from_zero() {
    assert_eq!(invalid_env_lines(&lines(&["A=1", "garbage", "B=2", "", "A=3"])), vec![1, 3]);
    assert_eq!(invalid_env_lines(&lines(&["x"])), vec![0]);
    assert!(invalid_env_lines(&lines(&["A=1"])).is_empty());
    assert!(invalid_env_lines(&vec![]).is_empty());
}

#[test]
fn environment_reads_files_before_its_own_variables() {
    let e = Environment {
        env_files: vec![
            EnvFile { path: "first.env".to_string(), lines: Some(lines(&["A=file1", "B=file1"])) },
            EnvFile { path: "missing.env".to_string(), lines: None },
            EnvFile { path: "second.env".to_string(), lines: Some(lines(&["B=file2", "junk"])) },
        ],
        vars: env(&[("A", "inline")]),
    };
    let mut vars = vec![];
    append_env(&e, &mut vars);
    assert_eq!(vars, env(&[("A", "file1"), ("B", "file1"), ("B", "file2"), ("A", "inline")]));
    assert_eq!(e.env_files().len(), 3);
    assert_eq!(e.vars(), &env(&[("A", "inline")]));
}

#[test]
fn repository_variables_come_after_the_global_ones() {
    let global = Environment {
        env_files: vec![EnvFile { path: "g.env".to_string(), lines: Some(lines(&["G=file"])) }],
        vars: env(&[("X", "global")]),
    };
    let own = Environment {
        env_files: vec![EnvFile { path: "r.env".to_string(), lines: Some(lines(&["R=file"])) }],
        vars: env(&[("X", "own")]),
    };
    let config = config_with(global, vec![("nas", repo("/srv", own))]);
    assert_eq!(
        get_repo_env_vars(&name("nas"), &config),
        env(&[("G", "file"), ("X", "global"), ("R", "file"), ("X", "own")])
    );
    assert_eq!(
        get_repo_env_vars(&name("unknown"), &config),
        env(&[("G", "file"), ("X", "global")])
    );
}

#[test]
fn resolve_repository_copies_the_configuration() {
    let mut r = repo("/srv/nas", Environment { env_files: vec![], vars: env(&[("K", "v")]) });
    r.key = "secret".to_string();
    r.password_file = Some("/etc/pw".to_string());
    r.password_command = "pass nas".to_string();
    r.retry_lock = "5m".to_string();
    r.options = vec!["s3.region=eu".to_string()];
    let config = config_with(Environment::default(), vec![("nas", r)]);
    let resolved = resolve_repository(&name("nas"), &config).unwrap();
    assert_eq!(resolved.name.as_str(), "nas");
    assert_eq!(resolved.path, "/srv/nas");
    assert_eq!(resolved.password, "secret");
    assert_eq!(resolved.password_file, Some("/etc/pw".to_string()));
    assert_eq!(resolved.password_command, "pass nas");
    assert_eq!(resolved.retry_lock, "5m");
    assert_eq!(resolved.options, vec!["s3.region=eu".to_string()]);
    assert_eq!(resolved.environment, env(&[("K", "v")]));
    assert!(resolve_repository(&name("usb"), &config).is_none());
}

#[test]
fn repo_getters_give_the_fields() {
    let mut r = repo("/srv/nas", Environment::default());
    r.key = "k".to_string();
    r.password_file = Some("f".to_string());
    r.password_command = "c".to_string();
    r.retry_lock = "1m".to_string();
    r.options = vec!["o".to_string()];
    assert_eq!(r.path(), "/srv/nas");
    assert_eq!(r.key(), "k");
    assert_eq!(r.password_file(), Some("f"));
    assert_eq!(r.password_command(), "c");
    assert_eq!(r.retry_lock(), "1m");
    assert_eq!(r.options(), &vec!["o".to_string()]);
    assert!(r.environment().vars().is_empty());
}

#[test]
fn the_default_executable_is_restic() {
    assert_eq!(default_executable(), "restic");
}
