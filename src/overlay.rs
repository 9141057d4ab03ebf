//! Overlays: installing one source tree onto one destination directory.
pub mod expand;
pub mod ignore;
pub mod paths;
pub mod platform;

pub use expand::{expand_path, expand_vars, ExpandError, ExpandErrorKind};
pub use ignore::{Ignore, IgnoreError};

use vstd::prelude::*;

use crate::options::Options;
use crate::profile::Profile;
use expand::expand_path_spec;
use ignore::{excludes, regex_compiles};
use paths::{ancestor_or_self, child_of, child_path, is_ancestor_or_self, resolve, resolve_path};

verus! {

/// The moments at which hook scripts run.
#[derive(Debug, Clone, Copy, PartialEq, Eq, Structural)]
pub enum HookType {
    PreInstall,
    PostInstall,
}

/// The reserved directory of a source tree that holds its ignore file and
/// hook scripts; it is never installed itself.
pub const CONTROL_DIR: &'static str = ".turboinstall";

/// The ignore pattern that keeps the control directory out of every install.
pub const CONTROL_DIR_PATTERN: &'static str = "^/.turboinstall";

/// The ignore file of a source tree, relative to its root.
pub const IGNORE_FILE: &'static str = ".turboinstall/ignore";

impl HookType {
    /// The directory under the control directory that holds hooks of this type.
    pub fn hook_dir_name(&self) -> (r: &'static str)
        ensures
            r@ == (match *self {
                HookType::PreInstall => "pre-install"@,
                HookType::PostInstall => "post-install"@,
            }),
    {
        match self {
            HookType::PreInstall => "pre-install",
            HookType::PostInstall => "post-install",
        }
    }
}

/// What the file system says of a path given as an overlay root.
#[derive(Debug, Clone, Copy, PartialEq, Eq, Structural)]
pub enum RootKind {
    /// Nothing is there.
    Missing,
    /// Something other than a directory is there.
    NotDirectory,
    /// A directory is there.
    Directory,
}

/// Why an overlay cannot be formed.
#[derive(Debug, Clone, Copy, PartialEq, Eq, Structural)]
pub enum OverlayError {
    SourceMissing,
    SourceNotDirectory,
    DestinationMissing,
    DestinationNotDirectory,
    /// The source lies inside the destination (or is it).
    SourceInDestination,
    /// The destination lies inside the source.
    DestinationInSource,
}

/// The first reason, in order of checking, why the two roots cannot form
/// an overlay; `None` when they can.
pub open spec fn overlay_fault(src: Seq<char>, src_kind: RootKind, dst: Seq<char>, dst_kind: RootKind) -> Option<
    OverlayError,
> {
    if src_kind is Missing {
        Some(OverlayError::SourceMissing)
    } else if src_kind is NotDirectory {
        Some(OverlayError::SourceNotDirectory)
    } else if dst_kind is Missing {
        Some(OverlayError::DestinationMissing)
    } else if dst_kind is NotDirectory {
        Some(OverlayError::DestinationNotDirectory)
    } else if is_ancestor_or_self(dst, src) {
        Some(OverlayError::SourceInDestination)
    } else if is_ancestor_or_self(src, dst) {
        Some(OverlayError::DestinationInSource)
    } else {
        None
    }
}

/// One installation unit: a source tree and the directory it goes to.
pub struct Overlay {
    src_root: String,
    dst_root: String,
}

/// Why an entry is left alone.
#[derive(Debug, Clone, Copy, PartialEq, Eq, Structural)]
pub enum SkipReason {
    /// The destination exists and overwriting is off.
    AlreadyExists,
    /// Updating, and the destination is newer than the source.
    DestinationNewer,
    /// Updating, and both sides have the same modification time.
    UpToDate,
}

impl SkipReason {
    /// Whether the skip is worth a warning.
    pub fn warns(&self) -> (r: bool)
        ensures
            r == !(*self is UpToDate),
    {
        match self {
            SkipReason::UpToDate => false,
            _ => true,
        }
    }
}

/// A change to the destination.
#[derive(Debug, Clone, Copy, PartialEq, Eq, Structural)]
pub enum Transfer {
    CreateDir,
    HardLink,
    Copy,
}

/// What to do with one source entry.
#[derive(Debug, Clone, Copy, PartialEq, Eq, Structural)]
pub enum Decision {
    /// Leave the destination alone.
    Skip(SkipReason),
    /// Report the transfer without making it (a dry run).
    Report(Transfer),
    /// Make the transfer, then report it.
    Perform(Transfer),
}

/// The transfer an entry calls for.
pub open spec fn transfer_for(src_is_dir: bool, hard_link: bool) -> Transfer {
    if src_is_dir {
        Transfer::CreateDir
    } else if hard_link {
        Transfer::HardLink
    } else {
        Transfer::Copy
    }
}

/// The decision for one entry. An unreadable modification time counts as
/// `now`.
pub open spec fn decision_for(
    no_overwrite: bool,
    update: bool,
    dry_run: bool,
    hard_link: bool,
    src_is_dir: bool,
    dst_exists: bool,
    src_mtime: Option<i128>,
    dst_mtime: Option<i128>,
    now: i128,
) -> Decision {
    let s = match src_mtime {
        Some(t) => t,
        None => now,
    };
    let d = match dst_mtime {
        Some(t) => t,
        None => now,
    };
    if dst_exists && no_overwrite {
        Decision::Skip(SkipReason::AlreadyExists)
    } else if dst_exists && update && d > s {
        Decision::Skip(SkipReason::DestinationNewer)
    } else if dst_exists && update && d == s {
        Decision::Skip(SkipReason::UpToDate)
    } else if dry_run {
        Decision::Report(transfer_for(src_is_dir, hard_link))
    } else {
        Decision::Perform(transfer_for(src_is_dir, hard_link))
    }
}

/// How the walk goes on after an entry.
#[derive(Debug, Clone, Copy, PartialEq, Eq, Structural)]
pub enum WalkStep {
    Continue,
    Abort,
}

/// How a hook script ended, as far as the install cares.
#[derive(Debug, Clone, Copy, PartialEq, Eq, Structural)]
pub enum HookVerdict {
    /// It could not be started: warn and go on.
    Skipped,
    /// It exited successfully.
    Passed,
    /// It failed, with its exit code when it had one: stop.
    Failed { code: Option<i32> },
}

/// The patterns every install starts with: the control directory's, then
/// the ones given in the options.
pub open spec fn base_patterns(options: &Options) -> Seq<Seq<char>> {
    seq![CONTROL_DIR_PATTERN@] + options.ignore_patterns@.map_values(|p: String| p@)
}

/// The entry's key for ignore matching: its relative path behind a `/`.
pub open spec fn entry_key(rel: Seq<char>) -> Seq<char> {
    seq!['/'] + rel
}

/// The report line of machine-readable output.
pub open spec fn report_line_spec(src: Seq<char>, dst: Seq<char>) -> Seq<char> {
    src + seq![' '] + dst
}

impl Overlay {
    /// The source root.
    pub closed spec fn src_view(&self) -> Seq<char> {
        self.src_root@
    }

    /// The destination root.
    pub closed spec fn dst_view(&self) -> Seq<char> {
        self.dst_root@
    }

    /// Neither root lies inside the other.
    pub open spec fn wf(&self) -> bool {
        !is_ancestor_or_self(self.dst_view(), self.src_view()) && !is_ancestor_or_self(
            self.src_view(),
            self.dst_view(),
        )
    }

    /// Forms an overlay from two resolved roots and what the file system
    /// says of them. Both must be directories, and neither may lie inside
    /// the other.
    pub fn new(src: &str, src_kind: RootKind, dst: &str, dst_kind: RootKind) -> (r: Result<
        Overlay,
        OverlayError,
    >)
        ensures
            r is Err <==> (src_kind != RootKind::Directory || dst_kind != RootKind::Directory
                || is_ancestor_or_self(src@, dst@) || is_ancestor_or_self(dst@, src@)),
            match r {
                Ok(o) => overlay_fault(src@, src_kind, dst@, dst_kind) is None && o.src_view()
                    == src@ && o.dst_view() == dst@ && o.wf(),
                Err(e) => overlay_fault(src@, src_kind, dst@, dst_kind) == Some(e),
            },
    {
        match src_kind {
            RootKind::Missing => return Err(OverlayError::SourceMissing),
            RootKind::NotDirectory => return Err(OverlayError::SourceNotDirectory),
            RootKind::Directory => {},
        }
        match dst_kind {
            RootKind::Missing => return Err(OverlayError::DestinationMissing),
            RootKind::NotDirectory => return Err(OverlayError::DestinationNotDirectory),
            RootKind::Directory => {},
        }
        if ancestor_or_self(dst, src) {
            return Err(OverlayError::SourceInDestination);
        }
        if ancestor_or_self(src, dst) {
            return Err(OverlayError::DestinationInSource);
        }
        Ok(Overlay { src_root: String::from_str(src), dst_root: String::from_str(dst) })
    }

    /// The source root.
    pub fn src_root(&self) -> (r: &str)
        ensures
            r@ == self.src_view(),
    {
        self.src_root.as_str()
    }

    /// The destination root.
    pub fn dst_root(&self) -> (r: &str)
        ensures
            r@ == self.dst_view(),
    {
        self.dst_root.as_str()
    }

    /// The path of a source entry, from its path relative to the source root.
    pub fn get_src_path(&self, src_rel_path: &str) -> (r: String)
        ensures
            r@ == child_path(self.src_view(), src_rel_path@),
    {
        child_of(self.src_root.as_str(), src_rel_path)
    }

    /// The destination of a source entry: the destination root joined with
    /// the expansion of the entry's relative path.
    pub fn get_dst_path<P: Profile>(&self, src_rel_path: &str, profile: &P) -> (r: Result<
        String,
        ExpandError,
    >)
        ensures
            match r {
                Ok(v) => expand_path_spec(src_rel_path@, profile) is Ok && v@ == child_path(
                    self.dst_view(),
                    expand_path_spec(src_rel_path@, profile)->Ok_0,
                ),
                Err(e) => expand_path_spec(src_rel_path@, profile) == Err::<
                    Seq<char>,
                    (ExpandErrorKind, Seq<char>),
                >((e.kind, e.name@)),
            },
    {
        match expand_path(src_rel_path, profile) {
            Ok(rel) => {
                let r = child_of(self.dst_root.as_str(), rel.as_str());
                assert(expand_path_spec(src_rel_path@, profile) == Ok::<
                    Seq<char>,
                    (ExpandErrorKind, Seq<char>),
                >(rel@));
                Ok(r)
            },
            Err(e) => Err(e),
        }
    }

    /// The ignore files to read for an install, resolved against the
    /// source root: the tree's own, then those the options name.
    pub fn ignore_files(&self, options: &Options) -> (r: Vec<String>)
        ensures
            r@.len() == options.ignore_paths@.len() + 1,
            r@[0]@ == child_path(self.src_view(), IGNORE_FILE@),
            forall|i: int|
                0 <= i < options.ignore_paths@.len() ==> (#[trigger] r@[i + 1])@ == resolve_path(
                    self.src_view(),
                    options.ignore_paths@[i]@,
                ),
    {
        let mut r: Vec<String> = Vec::new();
        r.push(child_of(self.src_root.as_str(), IGNORE_FILE));
        for i in 0..options.ignore_paths.len()
            invariant
                r@.len() == i + 1,
                r@[0]@ == child_path(self.src_view(), IGNORE_FILE@),
                forall|j: int|
                    0 <= j < i ==> (#[trigger] r@[j + 1])@ == resolve_path(
                        self.src_view(),
                        options.ignore_paths@[j]@,
                    ),
        {
            r.push(resolve(self.src_root.as_str(), options.ignore_paths[i].as_str()));
        }
        r
    }

    /// The path of the directory that holds hooks of type `t`.
    pub fn hook_dir(&self, t: HookType) -> (r: String)
        ensures
            r@ == child_path(
                child_path(self.src_view(), CONTROL_DIR@),
                match t {
                    HookType::PreInstall => "pre-install"@,
                    HookType::PostInstall => "post-install"@,
                },
            ),
    {
        let control = child_of(self.src_root.as_str(), CONTROL_DIR);
        child_of(control.as_str(), t.hook_dir_name())
    }

    /// The source and destination paths of an entry, from its path relative
    /// to the source root; `None` when an ignore pattern excludes it.
    pub fn plan_entry<P: Profile>(&self, ignore: &Ignore, profile: &P, src_rel_path: &str) -> (r:
        Result<Option<(String, String)>, ExpandError>)
        ensures
            excludes(ignore@, entry_key(src_rel_path@)) ==> r == Ok::<
                Option<(String, String)>,
                ExpandError,
            >(None),
            !excludes(ignore@, entry_key(src_rel_path@)) ==> match r {
                Ok(Some((s, d))) => s@ == child_path(self.src_view(), src_rel_path@)
                    && expand_path_spec(src_rel_path@, profile) is Ok && d@ == child_path(
                    self.dst_view(),
                    expand_path_spec(src_rel_path@, profile)->Ok_0,
                ),
                Ok(None) => false,
                Err(e) => expand_path_spec(src_rel_path@, profile) == Err::<
                    Seq<char>,
                    (ExpandErrorKind, Seq<char>),
                >((e.kind, e.name@)),
            },
    {
        if is_ignored(ignore, src_rel_path) {
            return Ok(None);
        }
        let src = self.get_src_path(src_rel_path);
        let dst = self.get_dst_path(src_rel_path, profile)?;
        Ok(Some((src, dst)))
    }
}

/// Whether the ignore patterns exclude the entry at `src_rel_path`.
pub fn is_ignored(ignore: &Ignore, src_rel_path: &str) -> (r: bool)
    ensures
        r == excludes(ignore@, entry_key(src_rel_path@)),
{
    proof {
        reveal_strlit("/");
    }
    let mut key = String::from_str("/");
    key.append(src_rel_path);
    assert(key@ =~= entry_key(src_rel_path@));
    ignore.matches(key.as_str())
}

/// The ignore set an install starts from: the control directory's pattern,
/// then the patterns of the options, in order. At the first pattern that
/// does not compile it stops with that pattern's error.
pub fn base_ignore(options: &Options) -> (r: Result<Ignore, IgnoreError>)
    ensures
        match r {
            Ok(ig) => ig@ == base_patterns(options) && forall|i: int|
                0 <= i < base_patterns(options).len() ==> regex_compiles(
                    #[trigger] base_patterns(options)[i],
                ),
            Err(e) => exists|k: int|
                0 <= k < base_patterns(options).len() && !regex_compiles(
                    #[trigger] base_patterns(options)[k],
                ) && (forall|j: int| 0 <= j < k ==> regex_compiles(#[trigger] base_patterns(options)[j]))
                    && e.pattern@ == base_patterns(options)[k],
        },
{
    let ghost all = base_patterns(options);
    let mut ig = Ignore::empty();
    assert(all[0] == CONTROL_DIR_PATTERN@);
    match ig.add_pattern(CONTROL_DIR_PATTERN) {
        Ok(()) => {},
        Err(e) => {
            assert(!regex_compiles(all[0]));
            return Err(e);
        },
    }
    assert(ig@ =~= all.take(1));
    for i in 0..options.ignore_patterns.len()
        invariant
            all == base_patterns(options),
            all.len() == options.ignore_patterns@.len() + 1,
            ig@ == all.take(i + 1),
            forall|j: int| 0 <= j < i + 1 ==> regex_compiles(#[trigger] all[j]),
    {
        assert(all[i + 1] == options.ignore_patterns@[i as int]@);
        match ig.add_pattern(options.ignore_patterns[i].as_str()) {
            Ok(()) => {
                assert(ig@ =~= all.take(i + 2));
            },
            Err(e) => {
                assert(!regex_compiles(all[i + 1]));
                return Err(e);
            },
        }
    }
    assert(all.take(all.len() as int) =~= all);
    Ok(ig)
}

/// Whether the destination's metadata has to be read before deciding: it
/// exists, and overwriting is not off.
pub fn needs_destination_metadata(options: &Options, dst_exists: bool) -> (r: bool)
    ensures
        r == (dst_exists && !options.no_overwrite),
{
    dst_exists && !options.no_overwrite
}

/// Decides what to do with one entry, from the options and what the file
/// system says of both sides. An existing destination is left alone when
/// overwriting is off; when updating, it is replaced only if the source is
/// strictly newer (an unreadable modification time counts as `now`). A dry
/// run reports the transfer instead of making it.
pub fn decide(
    options: &Options,
    src_is_dir: bool,
    dst_exists: bool,
    src_mtime: Option<i128>,
    dst_mtime: Option<i128>,
    now: i128,
) -> (r: Decision)
    ensures
        r == decision_for(
            options.no_overwrite,
            options.update,
            options.dry_run,
            options.hard_link,
            src_is_dir,
            dst_exists,
            src_mtime,
            dst_mtime,
            now,
        ),
        options.dry_run ==> !(r is Perform),
{
    let s = match src_mtime {
        Some(t) => t,
        None => now,
    };
    let d = match dst_mtime {
        Some(t) => t,
        None => now,
    };
    if dst_exists && options.no_overwrite {
        return Decision::Skip(SkipReason::AlreadyExists);
    }
    if dst_exists && options.update {
        if d > s {
            return Decision::Skip(SkipReason::DestinationNewer);
        } else if d == s {
            return Decision::Skip(SkipReason::UpToDate);
        }
    }
    let t = if src_is_dir {
        Transfer::CreateDir
    } else if options.hard_link {
        Transfer::HardLink
    } else {
        Transfer::Copy
    };
    if options.dry_run {
        Decision::Report(t)
    } else {
        Decision::Perform(t)
    }
}

/// How the walk goes on after an entry: a failure stops it unless the
/// options say to go on.
pub fn after_entry(options: &Options, failed: bool) -> (r: WalkStep)
    ensures
        r == (if failed && !options.no_abort {
            WalkStep::Abort
        } else {
            WalkStep::Continue
        }),
{
    if failed && !options.no_abort {
        WalkStep::Abort
    } else {
        WalkStep::Continue
    }
}

/// Judges a hook run: whether it could be started, whether it succeeded,
/// and its exit code if it had one.
pub fn judge_hook(started: bool, success: bool, code: Option<i32>) -> (r: HookVerdict)
    ensures
        r == (if !started {
            HookVerdict::Skipped
        } else if success {
            HookVerdict::Passed
        } else {
            HookVerdict::Failed { code }
        }),
{
    if !started {
        HookVerdict::Skipped
    } else if success {
        HookVerdict::Passed
    } else {
        HookVerdict::Failed { code }
    }
}

/// The line that reports a transfer in machine-readable output: the source
/// and destination paths, separated by one space.
pub fn report_line(src: &str, dst: &str) -> (r: String)
    ensures
        r@ == report_line_spec(src@, dst@),
{
    let mut r = String::from_str(src);
    proof {
        reveal_strlit(" ");
    }
    r.append(" ");
    r.append(dst);
    r
}

} // verus!
