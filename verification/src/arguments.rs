//! From the options of an operation to the arguments of the engine.
//!
//! Every field of an options record has one fixed place in the argument list, whatever the
//! order in which a configuration sets the fields. Lists keep their own order.

use crate::options::{BackupOptions, BackupOptionsView, ForgetOptions, ForgetOptionsView};
use crate::text::{decimal, decimal_text, texts};
use vstd::prelude::*;

verus! {

/// A flag that is present or absent.
pub open spec fn switch(on: bool, flag: Seq<char>) -> Seq<Seq<char>> {
    if on {
        seq![flag]
    } else {
        Seq::empty()
    }
}

/// A flag followed by its value, where there is a value.
pub open spec fn valued(flag: Seq<char>, value: Option<Seq<char>>) -> Seq<Seq<char>> {
    match value {
        Some(v) => seq![flag, v],
        None => Seq::empty(),
    }
}

/// A flag followed by a number in decimal, where there is a number.
pub open spec fn counted(flag: Seq<char>, value: Option<u32>) -> Seq<Seq<char>> {
    match value {
        Some(n) => seq![flag, decimal_text(n as nat)],
        None => Seq::empty(),
    }
}

/// The flag once before each value, in the order of the values.
pub open spec fn repeated(flag: Seq<char>, values: Seq<Seq<char>>) -> Seq<Seq<char>>
    decreases values.len(),
{
    if values.len() == 0 {
        Seq::empty()
    } else {
        repeated(flag, values.drop_last()) + seq![flag, values.last()]
    }
}

/// The arguments of a forget run that keeps what `options` says of the snapshots tagged `tag`.
pub open spec fn forget_line(options: ForgetOptionsView, tag: Seq<char>, dry_run: bool) -> Seq<
    Seq<char>,
> {
    seq!["forget"@] + switch(dry_run, "--dry-run"@) + switch(options.prune, "--prune"@) + counted(
        "--keep-last"@,
        options.keep_last,
    ) + counted("--keep-hourly"@, options.keep_hourly) + counted(
        "--keep-daily"@,
        options.keep_daily,
    ) + counted("--keep-weekly"@, options.keep_weekly) + counted(
        "--keep-monthly"@,
        options.keep_monthly,
    ) + counted("--keep-yearly"@, options.keep_yearly) + valued(
        "--keep-within"@,
        options.keep_within,
    ) + valued("--keep-within-hourly"@, options.keep_within_hourly) + valued(
        "--keep-within-daily"@,
        options.keep_within_daily,
    ) + valued("--keep-within-weekly"@, options.keep_within_weekly) + valued(
        "--keep-within-monthly"@,
        options.keep_within_monthly,
    ) + valued("--keep-within-yearly"@, options.keep_within_yearly) + repeated(
        "--keep-tag"@,
        options.keep_tag,
    ) + seq!["--tag"@, tag]
}

/// The arguments of a backup of `paths` under the tag `tag`.
pub open spec fn backup_line(
    options: BackupOptionsView,
    tag: Seq<char>,
    paths: Seq<Seq<char>>,
    dry_run: bool,
) -> Seq<Seq<char>> {
    seq!["backup"@] + switch(dry_run, "--dry-run"@) + repeated("--exclude"@, options.exclude)
        + repeated("--iexclude"@, options.iexclude) + repeated(
        "--exclude-file"@,
        options.exclude_file,
    ) + repeated("--iexclude-file"@, options.iexclude_file) + repeated(
        "--exclude-if-present"@,
        options.exclude_if_present,
    ) + valued("--exclude-larger-than"@, options.exclude_larger_than) + switch(
        options.exclude_caches,
        "--exclude-caches"@,
    ) + switch(options.ignore_ctime, "--ignore-ctime"@) + switch(
        options.ignore_inode,
        "--ignore-inode"@,
    ) + switch(options.no_scan, "--no-scan"@) + switch(
        options.one_file_system,
        "--one-file-system"@,
    ) + switch(options.skip_if_unchanged, "--skip-if-unchanged"@) + switch(
        options.use_fs_snapshot,
        "--use-fs-snapshot"@,
    ) + switch(options.with_atime, "--with-atime"@) + seq!["--tag"@, tag] + paths
}

/// Appends one word.
pub fn push_word(args: &mut Vec<String>, word: &str)
    ensures
        texts(final(args)@) == texts(old(args)@).push(word@),
{
    args.push(word.to_owned());
    assert(texts(args@) =~= texts(old(args)@).push(word@));
}

/// Appends `flag` where `on` holds.
pub fn push_switch(args: &mut Vec<String>, on: bool, flag: &str)
    ensures
        texts(final(args)@) == texts(old(args)@) + switch(on, flag@),
{
    if on {
        push_word(args, flag);
    }
    assert(texts(args@) =~= texts(old(args)@) + switch(on, flag@));
}

/// Appends `flag` and the value, where there is a value.
pub fn push_valued(args: &mut Vec<String>, flag: &str, value: Option<&str>)
    ensures
        texts(final(args)@) == texts(old(args)@) + valued(
            flag@,
            match value {
                Some(v) => Some(v@),
                None => None,
            },
        ),
{
    if let Some(v) = value {
        push_word(args, flag);
        push_word(args, v);
        assert(texts(args@) =~= texts(old(args)@) + seq![flag@, v@]);
    } else {
        assert(texts(args@) =~= texts(old(args)@) + Seq::<Seq<char>>::empty());
    }
}

/// Appends `flag` and the number in decimal, where there is a number.
pub fn push_counted(args: &mut Vec<String>, flag: &str, value: Option<u32>)
    ensures
        texts(final(args)@) == texts(old(args)@) + counted(flag@, value),
{
    if let Some(n) = value {
        let number = decimal(n as u64);
        push_word(args, flag);
        push_word(args, number.as_str());
        assert(texts(args@) =~= texts(old(args)@) + seq![flag@, decimal_text(n as nat)]);
    } else {
        assert(texts(args@) =~= texts(old(args)@) + Seq::<Seq<char>>::empty());
    }
}

/// Appends `flag` and a value, once for each of `values`.
pub fn push_repeated(args: &mut Vec<String>, flag: &str, values: &Vec<String>)
    ensures
        texts(final(args)@) == texts(old(args)@) + repeated(flag@, texts(values@)),
{
    let mut i: usize = 0;
    assert(texts(values@).take(0) =~= Seq::<Seq<char>>::empty());
    assert(texts(args@) =~= texts(old(args)@) + Seq::<Seq<char>>::empty());
    while i < values.len()
        invariant
            i <= values@.len(),
            texts(args@) == texts(old(args)@) + repeated(flag@, texts(values@).take(i as int)),
        decreases values@.len() - i,
    {
        let ghost before = texts(args@);
        push_word(args, flag);
        push_word(args, values[i].as_str());
        proof {
            let done = texts(values@).take(i as int);
            let next = texts(values@).take(i + 1);
            assert(next.drop_last() =~= done);
            assert(next.last() == values@[i as int]@);
            assert(texts(args@) =~= before + seq![flag@, values@[i as int]@]);
            assert(before + seq![flag@, values@[i as int]@] =~= texts(old(args)@) + (repeated(
                flag@,
                done,
            ) + seq![flag@, values@[i as int]@]));
        }
        i += 1;
    }
    assert(texts(values@).take(values@.len() as int) =~= texts(values@));
}

/// Appends every word of `words`.
pub fn push_words(args: &mut Vec<String>, words: &Vec<String>)
    ensures
        texts(final(args)@) == texts(old(args)@) + texts(words@),
{
    let mut i: usize = 0;
    assert(texts(args@) =~= texts(old(args)@) + texts(words@).take(0));
    while i < words.len()
        invariant
            i <= words@.len(),
            texts(args@) == texts(old(args)@) + texts(words@).take(i as int),
        decreases words@.len() - i,
    {
        push_word(args, words[i].as_str());
        assert(texts(args@) =~= texts(old(args)@) + texts(words@).take(i + 1));
        i += 1;
    }
    assert(texts(words@).take(words@.len() as int) =~= texts(words@));
}

/// The arguments of the engine for a forget run with `options`.
pub fn forget_arguments(options: &ForgetOptions, tag: &str, dry_run: bool) -> (r: Vec<String>)
    ensures
        texts(r@) == forget_line(options@, tag@, dry_run),
{
    let mut args: Vec<String> = Vec::new();
    push_word(&mut args, "forget");
    assert(texts(args@) =~= seq!["forget"@]);
    push_switch(&mut args, dry_run, "--dry-run");
    push_switch(&mut args, options.prune(), "--prune");
    push_counted(&mut args, "--keep-last", options.keep_last());
    push_counted(&mut args, "--keep-hourly", options.keep_hourly());
    push_counted(&mut args, "--keep-daily", options.keep_daily());
    push_counted(&mut args, "--keep-weekly", options.keep_weekly());
    push_counted(&mut args, "--keep-monthly", options.keep_monthly());
    push_counted(&mut args, "--keep-yearly", options.keep_yearly());
    push_valued(&mut args, "--keep-within", options.keep_within());
    push_valued(&mut args, "--keep-within-hourly", options.keep_within_hourly());
    push_valued(&mut args, "--keep-within-daily", options.keep_within_daily());
    push_valued(&mut args, "--keep-within-weekly", options.keep_within_weekly());
    push_valued(&mut args, "--keep-within-monthly", options.keep_within_monthly());
    push_valued(&mut args, "--keep-within-yearly", options.keep_within_yearly());
    push_repeated(&mut args, "--keep-tag", options.keep_tag());
    let ghost before = texts(args@);
    push_word(&mut args, "--tag");
    push_word(&mut args, tag);
    assert(texts(args@) =~= before + seq!["--tag"@, tag@]);
    args
}

/// The arguments of the engine for a backup of `paths` with `options`.
pub fn backup_arguments(
    options: &BackupOptions,
    tag: &str,
    paths: &Vec<String>,
    dry_run: bool,
) -> (r: Vec<String>)
    ensures
        texts(r@) == backup_line(options@, tag@, texts(paths@), dry_run),
{
    let mut args: Vec<String> = Vec::new();
    push_word(&mut args, "backup");
    assert(texts(args@) =~= seq!["backup"@]);
    push_switch(&mut args, dry_run, "--dry-run");
    push_repeated(&mut args, "--exclude", options.exclude());
    push_repeated(&mut args, "--iexclude", options.iexclude());
    push_repeated(&mut args, "--exclude-file", options.exclude_file());
    push_repeated(&mut args, "--iexclude-file", options.iexclude_file());
    push_repeated(&mut args, "--exclude-if-present", options.exclude_if_present());
    push_valued(&mut args, "--exclude-larger-than", options.exclude_larger_than());
    push_switch(&mut args, options.exclude_caches(), "--exclude-caches");
    push_switch(&mut args, options.ignore_ctime(), "--ignore-ctime");
    push_switch(&mut args, options.ignore_inode(), "--ignore-inode");
    push_switch(&mut args, options.no_scan(), "--no-scan");
    push_switch(&mut args, options.one_file_system(), "--one-file-system");
    push_switch(&mut args, options.skip_if_unchanged(), "--skip-if-unchanged");
    push_switch(&mut args, options.use_fs_snapshot(), "--use-fs-snapshot");
    push_switch(&mut args, options.with_atime(), "--with-atime");
    let ghost before = texts(args@);
    push_word(&mut args, "--tag");
    push_word(&mut args, tag);
    assert(texts(args@) =~= before + seq!["--tag"@, tag@]);
    push_words(&mut args, paths);
    args
}

} // verus!
