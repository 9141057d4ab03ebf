//! The configuration an install runs with.
use vstd::prelude::*;

use crate::overlay::HookType;
use crate::overlay::platform::PlatformOptions;
use crate::profile::Format;

verus! {

/// Everything that shapes an install: what to install where, how the
/// profile is read, the overwrite policy, ignore rules, hooks and output.
pub struct Options {
    /// The destination directory.
    pub dst: String,
    /// The overlay sources, installed in this order.
    pub src: Vec<String>,
    /// Where the profile is read from.
    pub profile_path: String,
    /// The profile's format, when its extension should not decide it.
    pub profile_format: Option<Format>,
    /// Hard-link files instead of copying them.
    pub hard_link: bool,
    /// Leave existing destination entries alone.
    pub no_overwrite: bool,
    /// Overwrite only where the source is newer.
    pub update: bool,
    /// Print nothing but errors.
    pub quiet: bool,
    /// Extra ignore patterns.
    pub ignore_patterns: Vec<String>,
    /// Extra ignore files.
    pub ignore_paths: Vec<String>,
    /// Go on with the next entry after one fails.
    pub no_abort: bool,
    /// Decide and report, but change nothing.
    pub dry_run: bool,
    /// Run no hook.
    pub no_hooks: bool,
    /// The hook types allowed to run; all when empty.
    pub hook_types: Vec<HookType>,
    /// Report in the two-column form meant for programs.
    pub machine_readable: bool,
    /// Options of the attribute-aware transfer.
    pub platform_options: PlatformOptions,
}

/// A configuration that cannot be run.
#[derive(Debug, Clone, Copy, PartialEq, Eq, Structural)]
pub enum ConfigError {
    /// No source directory was given.
    NoSources,
    /// Hard links were asked for together with an option that only a copy
    /// can honour, or updating together with leaving entries alone.
    ConflictingOptions,
}

/// Whether the options conflict: hard links exclude updating, leaving
/// entries alone and preserving attributes; updating excludes leaving
/// entries alone.
pub open spec fn options_conflict(hard_link: bool, no_overwrite: bool, update: bool, preserves: bool) -> bool {
    (hard_link && (update || no_overwrite || preserves)) || (no_overwrite && update)
}

/// Whether a hook type may run under these settings.
pub open spec fn hook_allowed(no_hooks: bool, allowed: Seq<HookType>, t: HookType) -> bool {
    !no_hooks && (allowed.len() == 0 || allowed.contains(t))
}

impl Options {
    /// Settles the options before any work: output that is not a terminal
    /// gets the machine-readable form, a dry run runs no hooks, and a
    /// configuration without sources or with conflicting options is refused.
    pub fn finalize(&mut self, stdout_is_terminal: bool) -> (r: Result<(), ConfigError>)
        ensures
            final(self).machine_readable == (old(self).machine_readable || !stdout_is_terminal),
            final(self).no_hooks == (old(self).no_hooks || old(self).dry_run),
            final(self).dst == old(self).dst,
            final(self).profile_path == old(self).profile_path,
            final(self).profile_format == old(self).profile_format,
            final(self).quiet == old(self).quiet,
            final(self).src == old(self).src,
            final(self).hard_link == old(self).hard_link,
            final(self).no_overwrite == old(self).no_overwrite,
            final(self).update == old(self).update,
            final(self).dry_run == old(self).dry_run,
            final(self).no_abort == old(self).no_abort,
            final(self).hook_types == old(self).hook_types,
            final(self).ignore_patterns == old(self).ignore_patterns,
            final(self).ignore_paths == old(self).ignore_paths,
            final(self).platform_options == old(self).platform_options,
            match r {
                Ok(()) => old(self).src@.len() > 0 && !options_conflict(
                    old(self).hard_link,
                    old(self).no_overwrite,
                    old(self).update,
                    old(self).platform_options.preserve@.len() > 0,
                ),
                Err(ConfigError::NoSources) => old(self).src@.len() == 0,
                Err(ConfigError::ConflictingOptions) => old(self).src@.len() > 0 && options_conflict(
                    old(self).hard_link,
                    old(self).no_overwrite,
                    old(self).update,
                    old(self).platform_options.preserve@.len() > 0,
                ),
            },
    {
        if !stdout_is_terminal {
            self.machine_readable = true;
        }
        if self.dry_run {
            self.no_hooks = true;
        }
        if self.src.len() == 0 {
            return Err(ConfigError::NoSources);
        }
        let preserves = self.platform_options.preserve.len() > 0;
        if (self.hard_link && (self.update || self.no_overwrite || preserves)) || (self.no_overwrite
            && self.update) {
            return Err(ConfigError::ConflictingOptions);
        }
        Ok(())
    }

    /// Whether hooks of type `t` run: hooks are not switched off, and `t` is
    /// allowed (every type is, when none is named).
    pub fn runs_hooks(&self, t: HookType) -> (r: bool)
        ensures
            r == hook_allowed(self.no_hooks, self.hook_types@, t),
    {
        if self.no_hooks {
            return false;
        }
        if self.hook_types.len() == 0 {
            return true;
        }
        let mut i: usize = 0;
        while i < self.hook_types.len()
            invariant
                !self.no_hooks,
                self.hook_types@.len() > 0,
                i <= self.hook_types@.len(),
                forall|j: int| 0 <= j < i ==> self.hook_types@[j] != t,
            decreases self.hook_types@.len() - i,
        {
            if self.hook_types[i] == t {
                assert(self.hook_types@[i as int] == t);
                assert(self.hook_types@.contains(t));
                return true;
            }
            i = i + 1;
        }
        false
    }
}

} // verus!
