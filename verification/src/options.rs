//! The options of the backup and forget operations.

use crate::command::{commands, copy_commands, CommandSeq};
use crate::text::texts;
use vstd::prelude::*;

verus! {

/// The text of an optional string.
pub open spec fn text_option(s: Option<String>) -> Option<Seq<char>> {
    match s {
        Some(t) => Some(t@),
        None => None,
    }
}

/// A copy of an optional string.
pub fn copy_text_option(s: &Option<String>) -> (r: Option<String>)
    ensures
        text_option(r) == text_option(*s),
{
    match s {
        Some(t) => Some(t.clone()),
        None => None,
    }
}

/// The guard commands of an operation.
#[derive(Debug)]
pub struct HookOptions {
    /// Commands that must all succeed for the operation to run on a location.
    pub if_hooks: Vec<CommandSeq>,
}

impl View for HookOptions {
    type V = Seq<Seq<Seq<char>>>;

    open spec fn view(&self) -> Seq<Seq<Seq<char>>> {
        commands(self.if_hooks@)
    }
}

impl HookOptions {
    /// Commands that must all succeed for the operation to run on a location.
    pub fn if_hooks(&self) -> (r: &Vec<CommandSeq>)
        ensures
            commands(r@) == self@,
    {
        &self.if_hooks
    }
}

impl Clone for HookOptions {
    fn clone(&self) -> (r: Self)
        ensures
            r@ == self@,
    {
        HookOptions { if_hooks: copy_commands(&self.if_hooks) }
    }
}

impl Default for HookOptions {
    fn default() -> (r: Self)
        ensures
            r@ == Seq::<Seq<Seq<char>>>::empty(),
    {
        let r = HookOptions { if_hooks: Vec::new() };
        assert(r@ =~= Seq::<Seq<Seq<char>>>::empty());
        r
    }
}

/// How a location is backed up.
#[derive(Debug)]
pub struct BackupOptions {
    /// Whether a backup of the location is followed by a forget run.
    pub forget: bool,
    /// Patterns of files to leave out.
    pub exclude: Vec<String>,
    /// Patterns of files to leave out, matched without regard to case.
    pub iexclude: Vec<String>,
    /// Files that list patterns to leave out.
    pub exclude_file: Vec<String>,
    /// Files that list patterns to leave out, matched without regard to case.
    pub iexclude_file: Vec<String>,
    /// Whether directories marked as caches are left out.
    pub exclude_caches: bool,
    /// Names of files whose presence leaves a directory out.
    pub exclude_if_present: Vec<String>,
    /// The size above which files are left out.
    pub exclude_larger_than: Option<String>,
    /// Whether a changed ctime alone leaves a file unchanged.
    pub ignore_ctime: bool,
    /// Whether a changed inode number alone leaves a file unchanged.
    pub ignore_inode: bool,
    /// Whether the scan that estimates the size of the backup is skipped.
    pub no_scan: bool,
    /// Whether the backup stays on the file systems of its paths.
    pub one_file_system: bool,
    /// Whether no snapshot is made where nothing has changed.
    pub skip_if_unchanged: bool,
    /// Whether the backup reads from a snapshot of the file system.
    pub use_fs_snapshot: bool,
    /// Whether access times are stored.
    pub with_atime: bool,
    /// The guard commands of the operation.
    pub hooks: HookOptions,
}

/// What a `BackupOptions` record holds.
pub struct BackupOptionsView {
    pub forget: bool,
    pub exclude: Seq<Seq<char>>,
    pub iexclude: Seq<Seq<char>>,
    pub exclude_file: Seq<Seq<char>>,
    pub iexclude_file: Seq<Seq<char>>,
    pub exclude_caches: bool,
    pub exclude_if_present: Seq<Seq<char>>,
    pub exclude_larger_than: Option<Seq<char>>,
    pub ignore_ctime: bool,
    pub ignore_inode: bool,
    pub no_scan: bool,
    pub one_file_system: bool,
    pub skip_if_unchanged: bool,
    pub use_fs_snapshot: bool,
    pub with_atime: bool,
    pub hooks: Seq<Seq<Seq<char>>>,
}

impl BackupOptionsView {
    /// The record in which nothing is set.
    pub open spec fn unset() -> Self {
        BackupOptionsView {
            forget: false,
            exclude: Seq::empty(),
            iexclude: Seq::empty(),
            exclude_file: Seq::empty(),
            iexclude_file: Seq::empty(),
            exclude_caches: false,
            exclude_if_present: Seq::empty(),
            exclude_larger_than: None,
            ignore_ctime: false,
            ignore_inode: false,
            no_scan: false,
            one_file_system: false,
            skip_if_unchanged: false,
            use_fs_snapshot: false,
            with_atime: false,
            hooks: Seq::empty(),
        }
    }
}

impl View for BackupOptions {
    type V = BackupOptionsView;

    open spec fn view(&self) -> BackupOptionsView {
        BackupOptionsView {
            forget: self.forget,
            exclude: texts(self.exclude@),
            iexclude: texts(self.iexclude@),
            exclude_file: texts(self.exclude_file@),
            iexclude_file: texts(self.iexclude_file@),
            exclude_caches: self.exclude_caches,
            exclude_if_present: texts(self.exclude_if_present@),
            exclude_larger_than: text_option(self.exclude_larger_than),
            ignore_ctime: self.ignore_ctime,
            ignore_inode: self.ignore_inode,
            no_scan: self.no_scan,
            one_file_system: self.one_file_system,
            skip_if_unchanged: self.skip_if_unchanged,
            use_fs_snapshot: self.use_fs_snapshot,
            with_atime: self.with_atime,
            hooks: self.hooks@,
        }
    }
}

impl BackupOptions {
    /// Whether a backup of the location is followed by a forget run.
    pub fn forget(&self) -> (r: bool)
        ensures
            r == self@.forget,
    {
        self.forget
    }

    /// Patterns of files to leave out.
    pub fn exclude(&self) -> (r: &Vec<String>)
        ensures
            texts(r@) == self@.exclude,
    {
        &self.exclude
    }

    /// Patterns of files to leave out, matched without regard to case.
    pub fn iexclude(&self) -> (r: &Vec<String>)
        ensures
            texts(r@) == self@.iexclude,
    {
        &self.iexclude
    }

    /// Files that list patterns to leave out.
    pub fn exclude_file(&self) -> (r: &Vec<String>)
        ensures
            texts(r@) == self@.exclude_file,
    {
        &self.exclude_file
    }

    /// Files that list patterns to leave out, matched without regard to case.
    pub fn iexclude_file(&self) -> (r: &Vec<String>)
        ensures
            texts(r@) == self@.iexclude_file,
    {
        &self.iexclude_file
    }

    /// Whether directories marked as caches are left out.
    pub fn exclude_caches(&self) -> (r: bool)
        ensures
            r == self@.exclude_caches,
    {
        self.exclude_caches
    }

    /// Names of files whose presence leaves a directory out.
    pub fn exclude_if_present(&self) -> (r: &Vec<String>)
        ensures
            texts(r@) == self@.exclude_if_present,
    {
        &self.exclude_if_present
    }

    /// The size above which files are left out.
    pub fn exclude_larger_than(&self) -> (r: Option<&str>)
        ensures
            match r {
                Some(s) => self@.exclude_larger_than == Some(s@),
                None => self@.exclude_larger_than is None,
            },
    {
        match &self.exclude_larger_than {
            Some(s) => Some(s.as_str()),
            None => None,
        }
    }

    /// Whether a changed ctime alone leaves a file unchanged.
    pub fn ignore_ctime(&self) -> (r: bool)
        ensures
            r == self@.ignore_ctime,
    {
        self.ignore_ctime
    }

    /// Whether a changed inode number alone leaves a file unchanged.
    pub fn ignore_inode(&self) -> (r: bool)
        ensures
            r == self@.ignore_inode,
    {
        self.ignore_inode
    }

    /// Whether the scan that estimates the size of the backup is skipped.
    pub fn no_scan(&self) -> (r: bool)
        ensures
            r == self@.no_scan,
    {
        self.no_scan
    }

    /// Whether the backup stays on the file systems of its paths.
    pub fn one_file_system(&self) -> (r: bool)
        ensures
            r == self@.one_file_system,
    {
        self.one_file_system
    }

    /// Whether no snapshot is made where nothing has changed.
    pub fn skip_if_unchanged(&self) -> (r: bool)
        ensures
            r == self@.skip_if_unchanged,
    {
        self.skip_if_unchanged
    }

    /// Whether the backup reads from a snapshot of the file system.
    pub fn use_fs_snapshot(&self) -> (r: bool)
        ensures
            r == self@.use_fs_snapshot,
    {
        self.use_fs_snapshot
    }

    /// Whether access times are stored.
    pub fn with_atime(&self) -> (r: bool)
        ensures
            r == self@.with_atime,
    {
        self.with_atime
    }

    /// The guard commands of the operation.
    pub fn hooks(&self) -> (r: &HookOptions)
        ensures
            r@ == self@.hooks,
    {
        &self.hooks
    }
}

impl Clone for BackupOptions {
    fn clone(&self) -> (r: Self)
        ensures
            r@ == self@,
    {
        let r = BackupOptions {
            forget: self.forget,
            exclude: self.exclude.clone(),
            iexclude: self.iexclude.clone(),
            exclude_file: self.exclude_file.clone(),
            iexclude_file: self.iexclude_file.clone(),
            exclude_caches: self.exclude_caches,
            exclude_if_present: self.exclude_if_present.clone(),
            exclude_larger_than: copy_text_option(&self.exclude_larger_than),
            ignore_ctime: self.ignore_ctime,
            ignore_inode: self.ignore_inode,
            no_scan: self.no_scan,
            one_file_system: self.one_file_system,
            skip_if_unchanged: self.skip_if_unchanged,
            use_fs_snapshot: self.use_fs_snapshot,
            with_atime: self.with_atime,
            hooks: self.hooks.clone(),
        };
        assert(texts(r.exclude@) =~= texts(self.exclude@));
        assert(texts(r.iexclude@) =~= texts(self.iexclude@));
        assert(texts(r.exclude_file@) =~= texts(self.exclude_file@));
        assert(texts(r.iexclude_file@) =~= texts(self.iexclude_file@));
        assert(texts(r.exclude_if_present@) =~= texts(self.exclude_if_present@));
        r
    }
}

impl Default for BackupOptions {
    fn default() -> (r: Self)
        ensures
            r@ == BackupOptionsView::unset(),
    {
        let r = BackupOptions {
            forget: false,
            exclude: Vec::new(),
            iexclude: Vec::new(),
            exclude_file: Vec::new(),
            iexclude_file: Vec::new(),
            exclude_caches: false,
            exclude_if_present: Vec::new(),
            exclude_larger_than: None,
            ignore_ctime: false,
            ignore_inode: false,
            no_scan: false,
            one_file_system: false,
            skip_if_unchanged: false,
            use_fs_snapshot: false,
            with_atime: false,
            hooks: HookOptions::default(),
        };
        assert(texts(r.exclude@) =~= Seq::<Seq<char>>::empty());
        assert(texts(r.iexclude@) =~= Seq::<Seq<char>>::empty());
        assert(texts(r.exclude_file@) =~= Seq::<Seq<char>>::empty());
        assert(texts(r.iexclude_file@) =~= Seq::<Seq<char>>::empty());
        assert(texts(r.exclude_if_present@) =~= Seq::<Seq<char>>::empty());
        r
    }
}

/// Which snapshots of a location are kept when old ones are removed.
#[derive(Debug)]
pub struct ForgetOptions {
    /// Whether data that no snapshot refers to any more is removed.
    pub prune: bool,
    /// How many of the latest snapshots to keep.
    pub keep_last: Option<u32>,
    /// For how many hours to keep the latest snapshot of the hour.
    pub keep_hourly: Option<u32>,
    /// For how many days to keep the latest snapshot of the day.
    pub keep_daily: Option<u32>,
    /// For how many weeks to keep the latest snapshot of the week.
    pub keep_weekly: Option<u32>,
    /// For how many months to keep the latest snapshot of the month.
    pub keep_monthly: Option<u32>,
    /// For how many years to keep the latest snapshot of the year.
    pub keep_yearly: Option<u32>,
    /// The time span before the latest snapshot within which all snapshots are kept.
    pub keep_within: Option<String>,
    /// The time span within which hourly snapshots are kept.
    pub keep_within_hourly: Option<String>,
    /// The time span within which daily snapshots are kept.
    pub keep_within_daily: Option<String>,
    /// The time span within which weekly snapshots are kept.
    pub keep_within_weekly: Option<String>,
    /// The time span within which monthly snapshots are kept.
    pub keep_within_monthly: Option<String>,
    /// The time span within which yearly snapshots are kept.
    pub keep_within_yearly: Option<String>,
    /// Tags whose snapshots are always kept.
    pub keep_tag: Vec<String>,
    /// The guard commands of the operation.
    pub hooks: HookOptions,
}

/// What a `ForgetOptions` record holds.
pub struct ForgetOptionsView {
    pub prune: bool,
    pub keep_last: Option<u32>,
    pub keep_hourly: Option<u32>,
    pub keep_daily: Option<u32>,
    pub keep_weekly: Option<u32>,
    pub keep_monthly: Option<u32>,
    pub keep_yearly: Option<u32>,
    pub keep_within: Option<Seq<char>>,
    pub keep_within_hourly: Option<Seq<char>>,
    pub keep_within_daily: Option<Seq<char>>,
    pub keep_within_weekly: Option<Seq<char>>,
    pub keep_within_monthly: Option<Seq<char>>,
    pub keep_within_yearly: Option<Seq<char>>,
    pub keep_tag: Seq<Seq<char>>,
    pub hooks: Seq<Seq<Seq<char>>>,
}

impl ForgetOptionsView {
    /// The record in which nothing is set.
    pub open spec fn unset() -> Self {
        ForgetOptionsView {
            prune: false,
            keep_last: None,
            keep_hourly: None,
            keep_daily: None,
            keep_weekly: None,
            keep_monthly: None,
            keep_yearly: None,
            keep_within: None,
            keep_within_hourly: None,
            keep_within_daily: None,
            keep_within_weekly: None,
            keep_within_monthly: None,
            keep_within_yearly: None,
            keep_tag: Seq::empty(),
            hooks: Seq::empty(),
        }
    }
}

impl View for ForgetOptions {
    type V = ForgetOptionsView;

    open spec fn view(&self) -> ForgetOptionsView {
        ForgetOptionsView {
            prune: self.prune,
            keep_last: self.keep_last,
            keep_hourly: self.keep_hourly,
            keep_daily: self.keep_daily,
            keep_weekly: self.keep_weekly,
            keep_monthly: self.keep_monthly,
            keep_yearly: self.keep_yearly,
            keep_within: text_option(self.keep_within),
            keep_within_hourly: text_option(self.keep_within_hourly),
            keep_within_daily: text_option(self.keep_within_daily),
            keep_within_weekly: text_option(self.keep_within_weekly),
            keep_within_monthly: text_option(self.keep_within_monthly),
            keep_within_yearly: text_option(self.keep_within_yearly),
            keep_tag: texts(self.keep_tag@),
            hooks: self.hooks@,
        }
    }
}

impl ForgetOptions {
    /// Whether data that no snapshot refers to any more is removed.
    pub fn prune(&self) -> (r: bool)
        ensures
            r == self@.prune,
    {
        self.prune
    }

    /// How many of the latest snapshots to keep.
    pub fn keep_last(&self) -> (r: Option<u32>)
        ensures
            r == self@.keep_last,
    {
        self.keep_last
    }

    /// For how many hours to keep the latest snapshot of the hour.
    pub fn keep_hourly(&self) -> (r: Option<u32>)
        ensures
            r == self@.keep_hourly,
    {
        self.keep_hourly
    }

    /// For how many days to keep the latest snapshot of the day.
    pub fn keep_daily(&self) -> (r: Option<u32>)
        ensures
            r == self@.keep_daily,
    {
        self.keep_daily
    }

    /// For how many weeks to keep the latest snapshot of the week.
    pub fn keep_weekly(&self) -> (r: Option<u32>)
        ensures
            r == self@.keep_weekly,
    {
        self.keep_weekly
    }

    /// For how many months to keep the latest snapshot of the month.
    pub fn keep_monthly(&self) -> (r: Option<u32>)
        ensures
            r == self@.keep_monthly,
    {
        self.keep_monthly
    }

    /// For how many years to keep the latest snapshot of the year.
    pub fn keep_yearly(&self) -> (r: Option<u32>)
        ensures
            r == self@.keep_yearly,
    {
        self.keep_yearly
    }

    /// The time span before the latest snapshot within which all snapshots are kept.
    pub fn keep_within(&self) -> (r: Option<&str>)
        ensures
            match r {
                Some(s) => self@.keep_within == Some(s@),
                None => self@.keep_within is None,
            },
    {
        match &self.keep_within {
            Some(s) => Some(s.as_str()),
            None => None,
        }
    }

    /// The time span within which hourly snapshots are kept.
    pub fn keep_within_hourly(&self) -> (r: Option<&str>)
        ensures
            match r {
                Some(s) => self@.keep_within_hourly == Some(s@),
                None => self@.keep_within_hourly is None,
            },
    {
        match &self.keep_within_hourly {
            Some(s) => Some(s.as_str()),
            None => None,
        }
    }

    /// The time span within which daily snapshots are kept.
    pub fn keep_within_daily(&self) -> (r: Option<&str>)
        ensures
            match r {
                Some(s) => self@.keep_within_daily == Some(s@),
                None => self@.keep_within_daily is None,
            },
    {
        match &self.keep_within_daily {
            Some(s) => Some(s.as_str()),
            None => None,
        }
    }

    /// The time span within which weekly snapshots are kept.
    pub fn keep_within_weekly(&self) -> (r: Option<&str>)
        ensures
            match r {
                Some(s) => self@.keep_within_weekly == Some(s@),
                None => self@.keep_within_weekly is None,
            },
    {
        match &self.keep_within_weekly {
            Some(s) => Some(s.as_str()),
            None => None,
        }
    }

    /// The time span within which monthly snapshots are kept.
    pub fn keep_within_monthly(&self) -> (r: Option<&str>)
        ensures
            match r {
                Some(s) => self@.keep_within_monthly == Some(s@),
                None => self@.keep_within_monthly is None,
            },
    {
        match &self.keep_within_monthly {
            Some(s) => Some(s.as_str()),
            None => None,
        }
    }

    /// The time span within which yearly snapshots are kept.
    pub fn keep_within_yearly(&self) -> (r: Option<&str>)
        ensures
            match r {
                Some(s) => self@.keep_within_yearly == Some(s@),
                None => self@.keep_within_yearly is None,
            },
    {
        match &self.keep_within_yearly {
            Some(s) => Some(s.as_str()),
            None => None,
        }
    }

    /// Tags whose snapshots are always kept.
    pub fn keep_tag(&self) -> (r: &Vec<String>)
        ensures
            texts(r@) == self@.keep_tag,
    {
        &self.keep_tag
    }

    /// The guard commands of the operation.
    pub fn hooks(&self) -> (r: &HookOptions)
        ensures
            r@ == self@.hooks,
    {
        &self.hooks
    }
}

impl Clone for ForgetOptions {
    fn clone(&self) -> (r: Self)
        ensures
            r@ == self@,
    {
        let r = ForgetOptions {
            prune: self.prune,
            keep_last: self.keep_last,
            keep_hourly: self.keep_hourly,
            keep_daily: self.keep_daily,
            keep_weekly: self.keep_weekly,
            keep_monthly: self.keep_monthly,
            keep_yearly: self.keep_yearly,
            keep_within: copy_text_option(&self.keep_within),
            keep_within_hourly: copy_text_option(&self.keep_within_hourly),
            keep_within_daily: copy_text_option(&self.keep_within_daily),
            keep_within_weekly: copy_text_option(&self.keep_within_weekly),
            keep_within_monthly: copy_text_option(&self.keep_within_monthly),
            keep_within_yearly: copy_text_option(&self.keep_within_yearly),
            keep_tag: self.keep_tag.clone(),
            hooks: self.hooks.clone(),
        };
        assert(texts(r.keep_tag@) =~= texts(self.keep_tag@));
        r
    }
}

impl Default for ForgetOptions {
    fn default() -> (r: Self)
        ensures
            r@ == ForgetOptionsView::unset(),
    {
        let r = ForgetOptions {
            prune: false,
            keep_last: None,
            keep_hourly: None,
            keep_daily: None,
            keep_weekly: None,
            keep_monthly: None,
            keep_yearly: None,
            keep_within: None,
            keep_within_hourly: None,
            keep_within_daily: None,
            keep_within_weekly: None,
            keep_within_monthly: None,
            keep_within_yearly: None,
            keep_tag: Vec::new(),
            hooks: HookOptions::default(),
        };
        assert(texts(r.keep_tag@) =~= Seq::<Seq<char>>::empty());
        r
    }
}

/// Options for the operations, each set or left to a fallback.
#[derive(Debug)]
pub struct Options {
    /// The backup options, where they are set.
    pub backup: Option<BackupOptions>,
    /// The forget options, where they are set.
    pub forget: Option<ForgetOptions>,
}

/// What an `Options` record holds.
pub struct OptionsView {
    pub backup: Option<BackupOptionsView>,
    pub forget: Option<ForgetOptionsView>,
}

impl View for Options {
    type V = OptionsView;

    open spec fn view(&self) -> OptionsView {
        OptionsView {
            backup: match self.backup {
                Some(o) => Some(o@),
                None => None,
            },
            forget: match self.forget {
                Some(o) => Some(o@),
                None => None,
            },
        }
    }
}

impl Options {
    /// The backup options, where they are set.
    pub fn backup(&self) -> (r: Option<&BackupOptions>)
        ensures
            match r {
                Some(o) => self@.backup == Some(o@),
                None => self@.backup is None,
            },
    {
        self.backup.as_ref()
    }

    /// The forget options, where they are set.
    pub fn forget(&self) -> (r: Option<&ForgetOptions>)
        ensures
            match r {
                Some(o) => self@.forget == Some(o@),
                None => self@.forget is None,
            },
    {
        self.forget.as_ref()
    }
}

impl Clone for Options {
    fn clone(&self) -> (r: Self)
        ensures
            r@ == self@,
    {
        Options {
            backup: match &self.backup {
                Some(o) => Some(o.clone()),
                None => None,
            },
            forget: match &self.forget {
                Some(o) => Some(o.clone()),
                None => None,
            },
        }
    }
}

impl Default for Options {
    fn default() -> (r: Self)
        ensures
            r@ == (OptionsView { backup: None, forget: None }),
    {
        Options { backup: None, forget: None }
    }
}

} // verus!
