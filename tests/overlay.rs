use turboinstall::options::{ConfigError, Options};
use turboinstall::overlay::platform::{CloneOutcome, PlatformOptions, Preserve, Reflink};
use turboinstall::overlay::{
    after_entry, base_ignore, decide, judge_hook, report_line, Decision, HookType, HookVerdict,
    Ignore, Overlay, OverlayError, RootKind, SkipReason, Transfer, WalkStep,
};
use turboinstall::profile::structured::SerdeProfile;
use turboinstall::profile::NoProfile;

fn options() -> Options {
    Options {
        dst: "/dst".to_string(),
        src: vec!["/src".to_string()],
        profile_path: ".turboinstall.json".to_string(),
        profile_format: None,
        hard_link: false,
        no_overwrite: false,
        update: false,
        quiet: false,
        ignore_patterns: Vec::new(),
        ignore_paths: Vec::new(),
        no_abort: false,
        dry_run: false,
        no_hooks: false,
        hook_types: Vec::new(),
        machine_readable: false,
        platform_options: PlatformOptions { preserve: Vec::new(), reflink: Reflink::Auto },
    }
}

use RootKind::{Directory, Missing, NotDirectory};

#[test]
fn overlay_requires_two_separate_directories() {
    assert!(Overlay::new("/srv/src", Directory, "/srv/dst", Directory).is_ok());
    assert!(Overlay::new("/srv/a", Directory, "/srv/ab", Directory).is_ok());
    assert_eq!(
        Overlay::new("/srv/src", Missing, "/srv/dst", Directory).err(),
        Some(OverlayError::SourceMissing)
    );
    assert_eq!(
        Overlay::new("/srv/src", NotDirectory, "/srv/dst", Directory).err(),
        Some(OverlayError::SourceNotDirectory)
    );
    assert_eq!(
        Overlay::new("/srv/src", Directory, "/srv/dst", Missing).err(),
        Some(OverlayError::DestinationMissing)
    );
    assert_eq!(
        Overlay::new("/srv/src", Directory, "/srv/dst", NotDirectory).err(),
        Some(OverlayError::DestinationNotDirectory)
    );
    assert_eq!(
        Overlay::new("/srv/dst/src", Directory, "/srv/dst", Directory).err(),
        Some(OverlayError::SourceInDestination)
    );
    assert_eq!(
        Overlay::new("/srv", Directory, "/srv/dst", Directory).err(),
        Some(OverlayError::DestinationInSource)
    );
    assert_eq!(
        Overlay::new("/srv", Directory, "/srv", Directory).err(),
        Some(OverlayError::SourceInDestination)
    );
    assert_eq!(
        Overlay::new("/srv/src", Directory, "/", Directory).err(),
        Some(OverlayError::SourceInDestination)
    );
}

#[test]
fn paths_of_an_entry() {
    let o = Overlay::new("/srv/src", Directory, "/srv/dst", Directory).unwrap();
    let p = SerdeProfile::from_json(r#"{"name": "app"}"#).unwrap();
    assert_eq!(o.get_src_path("etc/{name}.conf"), "/srv/src/etc/{name}.conf");
    assert_eq!(o.get_dst_path("etc/{name}.conf", &p).unwrap(), "/srv/dst/etc/app.conf");
    assert!(o.get_dst_path("{missing}", &p).is_err());
    assert_eq!(o.src_root(), "/srv/src");
    assert_eq!(o.dst_root(), "/srv/dst");
}

#[test]
fn ignored_entries_are_not_planned() {
    let o = Overlay::new("/s", Directory, "/d", Directory).unwrap();
    let mut ignore = Ignore::empty();
    ignore.add_pattern("^/secret").unwrap();
    let p = NoProfile::new();
    assert!(o.plan_entry(&ignore, &p, "secret").unwrap().is_none());
    assert!(o.plan_entry(&ignore, &p, "secret/file.txt").unwrap().is_none());
    assert_eq!(
        o.plan_entry(&ignore, &p, "a.txt").unwrap(),
        Some(("/s/a.txt".to_string(), "/d/a.txt".to_string()))
    );
}

#[test]
fn control_directory_is_always_ignored() {
    let mut opts = options();
    opts.ignore_patterns.push(r"\.bak$".to_string());
    let ignore = base_ignore(&opts).unwrap();
    assert!(ignore.matches("/.turboinstall"));
    assert!(ignore.matches("/.turboinstall/ignore"));
    assert!(ignore.matches("/x.bak"));
    assert!(!ignore.matches("/x"));
    opts.ignore_patterns.push("(".to_string());
    assert_eq!(base_ignore(&opts).err().map(|e| e.pattern), Some("(".to_string()));
}

#[test]
fn ignore_files_and_hook_dirs() {
    let o = Overlay::new("/s", Directory, "/d", Directory).unwrap();
    let mut opts = options();
    opts.ignore_paths = vec!["extra.ignore".to_string(), "/abs/list".to_string()];
    assert_eq!(
        o.ignore_files(&opts),
        vec![
            "/s/.turboinstall/ignore".to_string(),
            "/s/extra.ignore".to_string(),
            "/abs/list".to_string()
        ]
    );
    assert_eq!(o.hook_dir(HookType::PreInstall), "/s/.turboinstall/pre-install");
    assert_eq!(o.hook_dir(HookType::PostInstall), "/s/.turboinstall/post-install");
    assert_eq!(HookType::PreInstall.hook_dir_name(), "pre-install");
}

#[test]
fn new_destination_is_transferred() {
    let opts = options();
    assert_eq!(decide(&opts, false, false, Some(5), None, 9), Decision::Perform(Transfer::Copy));
    assert_eq!(decide(&opts, true, false, None, None, 9), Decision::Perform(Transfer::CreateDir));
    let mut link = options();
    link.hard_link = true;
    assert_eq!(decide(&link, false, false, None, None, 9), Decision::Perform(Transfer::HardLink));
    assert_eq!(decide(&opts, false, true, Some(9), Some(1), 9), Decision::Perform(Transfer::Copy));
}

#[test]
fn no_overwrite_keeps_existing_destination() {
    let mut opts = options();
    opts.no_overwrite = true;
    for update in [false, true] {
        opts.update = update;
        for (s, d) in [(Some(1), Some(5)), (Some(5), Some(1)), (None, None)] {
            assert_eq!(
                decide(&opts, false, true, s, d, 3),
                Decision::Skip(SkipReason::AlreadyExists)
            );
        }
    }
    assert_eq!(decide(&opts, false, false, None, None, 3), Decision::Perform(Transfer::Copy));
}

#[test]
fn update_compares_modification_times() {
    let mut opts = options();
    opts.update = true;
    assert_eq!(
        decide(&opts, false, true, Some(10), Some(20), 30),
        Decision::Skip(SkipReason::DestinationNewer)
    );
    assert_eq!(
        decide(&opts, false, true, Some(10), Some(10), 30),
        Decision::Skip(SkipReason::UpToDate)
    );
    assert_eq!(
        decide(&opts, false, true, Some(20), Some(10), 30),
        Decision::Perform(Transfer::Copy)
    );
    assert_eq!(
        decide(&opts, false, true, None, Some(10), 30),
        Decision::Perform(Transfer::Copy)
    );
    assert_eq!(
        decide(&opts, false, true, Some(10), None, 30),
        Decision::Skip(SkipReason::DestinationNewer)
    );
    assert!(SkipReason::DestinationNewer.warns());
    assert!(SkipReason::AlreadyExists.warns());
    assert!(!SkipReason::UpToDate.warns());
}

#[test]
fn second_update_run_skips_everything() {
    let mut opts = options();
    opts.update = true;
    for (s, d) in [(5, 5), (5, 7)] {
        assert!(matches!(decide(&opts, false, true, Some(s), Some(d), 100), Decision::Skip(_)));
        assert!(matches!(decide(&opts, true, true, Some(s), Some(d), 100), Decision::Skip(_)));
    }
}

#[test]
fn dry_run_reports_without_transferring() {
    let mut opts = options();
    opts.dry_run = true;
    assert_eq!(decide(&opts, false, false, None, None, 0), Decision::Report(Transfer::Copy));
    assert_eq!(decide(&opts, true, true, None, None, 0), Decision::Report(Transfer::CreateDir));
}

#[test]
fn failures_abort_unless_told_otherwise() {
    let mut opts = options();
    assert_eq!(after_entry(&opts, true), WalkStep::Abort);
    assert_eq!(after_entry(&opts, false), WalkStep::Continue);
    opts.no_abort = true;
    assert_eq!(after_entry(&opts, true), WalkStep::Continue);
}

#[test]
fn hook_results() {
    assert_eq!(judge_hook(false, false, None), HookVerdict::Skipped);
    assert_eq!(judge_hook(true, true, Some(0)), HookVerdict::Passed);
    assert_eq!(judge_hook(true, false, Some(3)), HookVerdict::Failed { code: Some(3) });
    assert_eq!(judge_hook(true, false, None), HookVerdict::Failed { code: None });
}

#[test]
fn hooks_run_when_allowed() {
    let mut opts = options();
    assert!(opts.runs_hooks(HookType::PreInstall));
    opts.hook_types = vec![HookType::PostInstall];
    assert!(!opts.runs_hooks(HookType::PreInstall));
    assert!(opts.runs_hooks(HookType::PostInstall));
    opts.no_hooks = true;
    assert!(!opts.runs_hooks(HookType::PostInstall));
}

#[test]
fn options_are_settled() {
    let mut opts = options();
    opts.dry_run = true;
    assert_eq!(opts.finalize(false), Ok(()));
    assert!(opts.no_hooks);
    assert!(opts.machine_readable);

    let mut tty = options();
    assert_eq!(tty.finalize(true), Ok(()));
    assert!(!tty.machine_readable);
    assert!(!tty.no_hooks);

    let mut none = options();
    none.src.clear();
    assert_eq!(none.finalize(true), Err(ConfigError::NoSources));

    let mut both = options();
    both.hard_link = true;
    both.update = true;
    assert_eq!(both.finalize(true), Err(ConfigError::ConflictingOptions));

    let mut keep = options();
    keep.hard_link = true;
    keep.platform_options.preserve.push(Preserve::Timestamps);
    assert_eq!(keep.finalize(true), Err(ConfigError::ConflictingOptions));
}

#[test]
fn machine_readable_report_line() {
    assert_eq!(report_line("/s/a.txt", "/d/a.txt"), "/s/a.txt /d/a.txt");
}

#[test]
fn reflink_modes() {
    assert!(!Reflink::Never.tries_clone());
    assert!(Reflink::Always.tries_clone());
    assert!(Reflink::Auto.tries_clone());
    assert_eq!(Reflink::Never.after_clone(false), CloneOutcome::CopyBytes);
    assert_eq!(Reflink::Always.after_clone(true), CloneOutcome::Done);
    assert_eq!(Reflink::Always.after_clone(false), CloneOutcome::Fail);
    assert_eq!(Reflink::Auto.after_clone(true), CloneOutcome::Done);
    assert_eq!(Reflink::Auto.after_clone(false), CloneOutcome::CopyBytes);
}

#[test]
fn fresh_file_is_planned_copied_and_reported() {
    let o = Overlay::new("/s", Directory, "/d", Directory).unwrap();
    let opts = options();
    let ignore = base_ignore(&opts).unwrap();
    let p = NoProfile::new();
    let (src, dst) = o.plan_entry(&ignore, &p, "a.txt").unwrap().unwrap();
    assert_eq!(decide(&opts, false, false, Some(1), None, 2), Decision::Perform(Transfer::Copy));
    assert_eq!(report_line(&src, &dst), "/s/a.txt /d/a.txt");
    assert!(o.plan_entry(&ignore, &p, ".turboinstall").unwrap().is_none());
    assert!(o.plan_entry(&ignore, &p, ".turboinstall/pre-install/run").unwrap().is_none());
}

#[test]
fn templated_segment_reaches_the_destination() {
    let o = Overlay::new("/s", Directory, "/d", Directory).unwrap();
    let ignore = Ignore::empty();
    let p = SerdeProfile::from_json(r#"{"name": "app"}"#).unwrap();
    assert_eq!(
        o.plan_entry(&ignore, &p, "{name}.conf").unwrap(),
        Some(("/s/{name}.conf".to_string(), "/d/app.conf".to_string()))
    );
}
