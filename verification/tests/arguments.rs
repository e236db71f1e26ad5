use aresticrat::arguments::{
    backup_arguments, forget_arguments, push_counted, push_repeated, push_switch, push_valued,
    push_word, push_words,
};
use aresticrat::command::CommandSeq;
use aresticrat::options::{BackupOptions, ForgetOptions, HookOptions, Options};
use aresticrat::text::{decimal, find_char, skip_chars, split_around, starts_with};

fn words(v: &[&str]) -> Vec<String> {
    v.iter().map(|s| s.to_string()).collect()
}

#[test]
fn decimal_writes_numbers() {
    assert_eq!(decimal(0), "0");
    assert_eq!(decimal(7), "7");
    assert_eq!(decimal(9), "9");
    assert_eq!(decimal(10), "10");
    assert_eq!(decimal(42), "42");
    assert_eq!(decimal(100), "100");
    assert_eq!(decimal(1234567890), "1234567890");
    assert_eq!(decimal(4294967295), "4294967295");
    assert_eq!(decimal(u64::MAX), "18446744073709551615");
}

#[test]
fn find_char_gives_the_first_position() {
    assert_eq!(find_char("a=b=c", '='), Some(1));
    assert_eq!(find_char("=", '='), Some(0));
    assert_eq!(find_char("abc", '='), None);
    assert_eq!(find_char("", '='), None);
    assert_eq!(find_char("äö=ü", '='), Some(2));
}

#[test]
fn starts_with_compares_characters() {
    assert!(starts_with("ARESTICRAT_R_X", "ARESTICRAT_R_"));
    assert!(starts_with("abc", ""));
    assert!(starts_with("abc", "abc"));
    assert!(!starts_with("ab", "abc"));
    assert!(!starts_with("abd", "abc"));
    assert!(!starts_with("", "a"));
    assert!(starts_with("", ""));
    assert!(starts_with("äöü", "äö"));
}

#[test]
fn strings_are_cut_at_characters() {
    assert_eq!(skip_chars("hello", 2), "llo");
    assert_eq!(skip_chars("hello", 0), "hello");
    assert_eq!(skip_chars("hello", 5), "");
    assert_eq!(skip_chars("äöü", 1), "öü");
    assert_eq!(split_around("key=value", 3), ("key".to_string(), "value".to_string()));
    assert_eq!(split_around("=", 0), (String::new(), String::new()));
    assert_eq!(split_around("ä=ö", 1), ("ä".to_string(), "ö".to_string()));
}

#[test]
fn pushing_builds_argument_lists() {
    let mut args = Vec::new();
    push_word(&mut args, "a");
    push_switch(&mut args, true, "--on");
    push_switch(&mut args, false, "--off");
    push_valued(&mut args, "--size", Some("10M"));
    push_valued(&mut args, "--none", None);
    push_counted(&mut args, "--keep", Some(12));
    push_counted(&mut args, "--zero", Some(0));
    push_counted(&mut args, "--no-count", None);
    push_repeated(&mut args, "-x", &words(&["1", "2"]));
    push_repeated(&mut args, "-y", &vec![]);
    push_words(&mut args, &words(&["p", "q"]));
    assert_eq!(
        args,
        words(&[
            "a", "--on", "--size", "10M", "--keep", "12", "--zero", "0", "-x", "1", "-x", "2",
            "p", "q"
        ])
    );
}

#[test]
fn forget_without_options_names_only_the_tag() {
    let args = forget_arguments(&ForgetOptions::default(), "_aresticrat_home", false);
    assert_eq!(args, words(&["forget", "--tag", "_aresticrat_home"]));
}

#[test]
fn forget_arguments_follow_the_fixed_order() {
    let options = ForgetOptions {
        prune: true,
        keep_last: Some(3),
        keep_hourly: Some(24),
        keep_daily: Some(7),
        keep_weekly: Some(4),
        keep_monthly: Some(12),
        keep_yearly: Some(100),
        keep_within: Some("1d".to_string()),
        keep_within_hourly: Some("2d".to_string()),
        keep_within_daily: Some("7d".to_string()),
        keep_within_weekly: Some("1m".to_string()),
        keep_within_monthly: Some("1y".to_string()),
        keep_within_yearly: Some("10y".to_string()),
        keep_tag: words(&["keep", "forever"]),
        hooks: HookOptions::default(),
    };
    let args = forget_arguments(&options, "_aresticrat_home", true);
    assert_eq!(
        args,
        words(&[
            "forget",
            "--dry-run",
            "--prune",
            "--keep-last",
            "3",
            "--keep-hourly",
            "24",
            "--keep-daily",
            "7",
            "--keep-weekly",
            "4",
            "--keep-monthly",
            "12",
            "--keep-yearly",
            "100",
            "--keep-within",
            "1d",
            "--keep-within-hourly",
            "2d",
            "--keep-within-daily",
            "7d",
            "--keep-within-weekly",
            "1m",
            "--keep-within-monthly",
            "1y",
            "--keep-within-yearly",
            "10y",
            "--keep-tag",
            "keep",
            "--keep-tag",
            "forever",
            "--tag",
            "_aresticrat_home",
        ])
    );
}

#[test]
fn forget_arguments_skip_what_is_not_set() {
    let mut options = ForgetOptions::default();
    options.keep_daily = Some(0);
    options.keep_within_weekly = Some("2w".to_string());
    let args = forget_arguments(&options, "t", false);
    assert_eq!(
        args,
        words(&["forget", "--keep-daily", "0", "--keep-within-weekly", "2w", "--tag", "t"])
    );
}

#[test]
fn backup_without_options_names_tag_and_paths() {
    let args = backup_arguments(
        &BackupOptions::default(),
        "_aresticrat_home",
        &words(&["/home", "/etc"]),
        false,
    );
    assert_eq!(args, words(&["backup", "--tag", "_aresticrat_home", "/home", "/etc"]));
}

#[test]
fn backup_arguments_follow_the_fixed_order() {
    let options = BackupOptions {
        forget: true,
        exclude: words(&["*.tmp", "*.bak"]),
        iexclude: words(&["*.LOG"]),
        exclude_file: words(&["/etc/excl"]),
        iexclude_file: words(&["/etc/iexcl"]),
        exclude_caches: true,
        exclude_if_present: words(&[".nobackup"]),
        exclude_larger_than: Some("1G".to_string()),
        ignore_ctime: true,
        ignore_inode: true,
        no_scan: true,
        one_file_system: true,
        skip_if_unchanged: true,
        use_fs_snapshot: true,
        with_atime: true,
        hooks: HookOptions::default(),
    };
    let args = backup_arguments(&options, "_aresticrat_data", &words(&["/data"]), true);
    assert_eq!(
        args,
        words(&[
            "backup",
            "--dry-run",
            "--exclude",
            "*.tmp",
            "--exclude",
            "*.bak",
            "--iexclude",
            "*.LOG",
            "--exclude-file",
            "/etc/excl",
            "--iexclude-file",
            "/etc/iexcl",
            "--exclude-if-present",
            ".nobackup",
            "--exclude-larger-than",
            "1G",
            "--exclude-caches",
            "--ignore-ctime",
            "--ignore-inode",
            "--no-scan",
            "--one-file-system",
            "--skip-if-unchanged",
            "--use-fs-snapshot",
            "--with-atime",
            "--tag",
            "_aresticrat_data",
            "/data",
        ])
    );
}

#[test]
fn backup_arguments_keep_the_order_of_lists() {
    let mut options = BackupOptions::default();
    options.exclude = words(&["z", "a", "m"]);
    let args = backup_arguments(&options, "t", &words(&["/b", "/a"]), false);
    assert_eq!(
        args,
        words(&["backup", "--exclude", "z", "--exclude", "a", "--exclude", "m", "--tag", "t", "/b", "/a"])
    );
}

#[test]
fn the_forget_switch_of_backup_is_no_argument() {
    let mut options = BackupOptions::default();
    options.forget = true;
    let args = backup_arguments(&options, "t", &vec![], false);
    assert_eq!(args, words(&["backup", "--tag", "t"]));
}

#[test]
fn option_getters_give_the_fields() {
    let hook = CommandSeq::from_vec(words(&["true"])).ok().unwrap();
    let b = BackupOptions {
        forget: true,
        exclude: words(&["a"]),
        iexclude: words(&["b"]),
        exclude_file: words(&["c"]),
        iexclude_file: words(&["d"]),
        exclude_caches: true,
        exclude_if_present: words(&["e"]),
        exclude_larger_than: Some("1K".to_string()),
        ignore_ctime: false,
        ignore_inode: true,
        no_scan: false,
        one_file_system: true,
        skip_if_unchanged: false,
        use_fs_snapshot: true,
        with_atime: false,
        hooks: HookOptions { if_hooks: vec![hook] },
    };
    assert!(b.forget());
    assert_eq!(b.exclude(), &words(&["a"]));
    assert_eq!(b.iexclude(), &words(&["b"]));
    assert_eq!(b.exclude_file(), &words(&["c"]));
    assert_eq!(b.iexclude_file(), &words(&["d"]));
    assert!(b.exclude_caches());
    assert_eq!(b.exclude_if_present(), &words(&["e"]));
    assert_eq!(b.exclude_larger_than(), Some("1K"));
    assert!(!b.ignore_ctime());
    assert!(b.ignore_inode());
    assert!(!b.no_scan());
    assert!(b.one_file_system());
    assert!(!b.skip_if_unchanged());
    assert!(b.use_fs_snapshot());
    assert!(!b.with_atime());
    assert_eq!(b.hooks().if_hooks().len(), 1);
    assert_eq!(b.hooks().if_hooks()[0].program(), "true");

    let copy = b.clone();
    assert_eq!(copy.exclude(), &words(&["a"]));
    assert_eq!(copy.exclude_larger_than(), Some("1K"));
    assert_eq!(copy.hooks().if_hooks()[0].program(), "true");
    assert!(copy.forget() && copy.use_fs_snapshot() && !copy.with_atime());

    let f = ForgetOptions {
        prune: true,
        keep_last: Some(1),
        keep_hourly: Some(2),
        keep_daily: Some(3),
        keep_weekly: Some(4),
        keep_monthly: Some(5),
        keep_yearly: Some(6),
        keep_within: Some("a".to_string()),
        keep_within_hourly: Some("b".to_string()),
        keep_within_daily: Some("c".to_string()),
        keep_within_weekly: Some("d".to_string()),
        keep_within_monthly: Some("e".to_string()),
        keep_within_yearly: Some("f".to_string()),
        keep_tag: words(&["t"]),
        hooks: HookOptions::default(),
    };
    assert!(f.prune());
    assert_eq!(f.keep_last(), Some(1));
    assert_eq!(f.keep_hourly(), Some(2));
    assert_eq!(f.keep_daily(), Some(3));
    assert_eq!(f.keep_weekly(), Some(4));
    assert_eq!(f.keep_monthly(), Some(5));
    assert_eq!(f.keep_yearly(), Some(6));
    assert_eq!(f.keep_within(), Some("a"));
    assert_eq!(f.keep_within_hourly(), Some("b"));
    assert_eq!(f.keep_within_daily(), Some("c"));
    assert_eq!(f.keep_within_weekly(), Some("d"));
    assert_eq!(f.keep_within_monthly(), Some("e"));
    assert_eq!(f.keep_within_yearly(), Some("f"));
    assert_eq!(f.keep_tag(), &words(&["t"]));
    assert!(f.hooks().if_hooks().is_empty());
    let copy = f.clone();
    assert_eq!(copy.keep_yearly(), Some(6));
    assert_eq!(copy.keep_within_yearly(), Some("f"));

    let o = Options { backup: Some(b), forget: None };
    assert!(o.backup().is_some());
    assert!(o.forget().is_none());
    let d = Options::default();
    assert!(d.backup().is_none() && d.forget().is_none());
    let c = o.clone();
    assert_eq!(c.backup().unwrap().exclude(), &words(&["a"]));
}

#[test]
fn default_options_set_nothing() {
    let b = BackupOptions::default();
    assert!(!b.forget() && !b.exclude_caches() && !b.ignore_ctime() && !b.ignore_inode());
    assert!(!b.no_scan() && !b.one_file_system() && !b.skip_if_unchanged());
    assert!(!b.use_fs_snapshot() && !b.with_atime());
    assert!(b.exclude().is_empty() && b.iexclude().is_empty() && b.exclude_file().is_empty());
    assert!(b.iexclude_file().is_empty() && b.exclude_if_present().is_empty());
    assert!(b.exclude_larger_than().is_none());
    assert!(b.hooks().if_hooks().is_empty());
    let f = ForgetOptions::default();
    assert!(!f.prune());
    assert!(f.keep_last().is_none() && f.keep_hourly().is_none() && f.keep_daily().is_none());
    assert!(f.keep_weekly().is_none() && f.keep_monthly().is_none() && f.keep_yearly().is_none());
    assert!(f.keep_within().is_none() && f.keep_within_hourly().is_none());
    assert!(f.keep_within_daily().is_none() && f.keep_within_weekly().is_none());
    assert!(f.keep_within_monthly().is_none() && f.keep_within_yearly().is_none());
    assert!(f.keep_tag().is_empty() && f.hooks().if_hooks().is_empty());
}
