use cargo_husky::classify::{classify, Installed};
use cargo_husky::hook::HookName;
use cargo_husky::paths::{hook_path, join_path, tmpdir_for};
use cargo_husky::install::{decide, executable_mode, plan, Action, HookState};
use cargo_husky::script::{render_script, Features};
use cargo_husky::user_hooks::{check_user_hooks, stamp, Candidate, HookError};
use cargo_husky::version::{ToolVersion, Version};

const VERSION: &str = "1.5.0";
const HOMEPAGE: &str = "https://github.com/rhysd/cargo-husky#readme";

/// A hook directory as the engine sees it: content, modification count and mode per hook.
struct Repo {
    hooks: Vec<(HookName, Option<String>, u32, u32)>,
}

impl Repo {
    fn new() -> Repo {
        Repo { hooks: HookName::all().into_iter().map(|h| (h, None, 0, 0)).collect() }
    }

    fn put(&mut self, hook: HookName, content: &str) {
        for e in self.hooks.iter_mut() {
            if e.0 == hook {
                e.1 = Some(content.to_string());
                e.2 += 1;
                e.3 = 0o644;
            }
        }
    }

    fn script(&self, hook: HookName) -> Option<String> {
        self.hooks.iter().find(|e| e.0 == hook).unwrap().1.clone()
    }

    fn modified(&self, hook: HookName) -> u32 {
        self.hooks.iter().find(|e| e.0 == hook).unwrap().2
    }

    fn mode(&self, hook: HookName) -> u32 {
        self.hooks.iter().find(|e| e.0 == hook).unwrap().3
    }

    fn run(&mut self, features: &Features, version: &str, dir: Option<&Vec<Candidate>>) -> Result<(), HookError> {
        let current = ToolVersion::parse(version.as_bytes()).unwrap();
        let states: Vec<HookState> = self
            .hooks
            .iter()
            .map(|e| HookState { hook: e.0, content: e.1.as_ref().map(|s| s.as_bytes().to_vec()) })
            .collect();
        let actions = plan(features, &current, &states, dir)?;
        for (e, a) in self.hooks.iter_mut().zip(actions.into_iter()) {
            match a {
                Action::Keep => {}
                Action::Write(c) => {
                    e.1 = Some(String::from_utf8(c).unwrap());
                    e.2 += 1;
                    e.3 = executable_mode(0o644);
                }
                Action::Remove => {
                    e.1 = None;
                    e.2 += 1;
                }
            }
        }
        Ok(())
    }
}

fn features(names: &[&str]) -> Features {
    let mut f = Features::none();
    for n in names {
        f = f.with_feature(n.as_bytes());
    }
    f
}

fn candidate(name: &str, executable: bool, content: &str) -> Candidate {
    Candidate { name: name.as_bytes().to_vec(), executable, content: content.as_bytes().to_vec() }
}

fn user_hooks_dir() -> Vec<Candidate> {
    vec![
        candidate(
            "pre-commit",
            true,
            "#! /bin/sh\n\n\n# This is a user script for pre-commit hook with shebang\ncargo test\n",
        ),
        candidate(
            "post-merge",
            true,
            "#\n\n# Script without shebang (I'm not sure this is useful)\necho merged\n",
        ),
    ]
}

fn decrease_patch(mut ver: semver::Version) -> semver::Version {
    if ver.patch > 0 {
        ver.patch -= 1;
        return ver;
    }
    ver.patch = 9;
    if ver.minor > 0 {
        ver.minor -= 1;
        return ver;
    }
    ver.minor = 9;
    if ver.major > 0 {
        ver.major -= 1;
        return ver;
    }
    unreachable!();
}

fn assert_user_hooks_error(r: Result<(), HookError>) {
    match r {
        Ok(()) => panic!("the run has unexpectedly succeeded"),
        Err(e) => assert!(
            e.message()
                .contains("User hooks directory is not found or no executable file is found in the directory"),
            "unexpected error: {}",
            e.message()
        ),
    }
}

#[test]
fn default_behavior() {
    let mut repo = Repo::new();
    repo.run(&Features::default_set(), VERSION, None).unwrap();
    let script = repo.script(HookName::PrePush).unwrap();

    assert_eq!(script.lines().nth(0).unwrap(), "#!/bin/sh");
    assert!(script
        .lines()
        .nth(2)
        .unwrap()
        .contains(format!("set by cargo-husky v{}", VERSION).as_str()));
    assert_eq!(script.lines().filter(|l| *l == "cargo test --all").count(), 1);
    assert!(script.lines().all(|l| !l.contains("cargo clippy")));

    assert_eq!(repo.script(HookName::PreCommit), None);
}

#[test]
fn hook_file_is_executable() {
    let mut repo = Repo::new();
    repo.run(&Features::default_set(), VERSION, None).unwrap();
    assert_eq!(repo.mode(HookName::PrePush) & 0o555, 0o555);
}

#[test]
fn change_features() {
    let mut repo = Repo::new();
    let f = features(&["precommit-hook", "run-cargo-clippy", "run-cargo-check", "run-cargo-fmt"]);
    repo.run(&f, VERSION, None).unwrap();

    assert_eq!(repo.script(HookName::PrePush), None);

    let script = repo.script(HookName::PreCommit).unwrap();
    assert!(script.lines().all(|l| l != "cargo test"));
    assert_eq!(script.lines().filter(|l| *l == "cargo clippy -- -D warnings").count(), 1);
    assert_eq!(script.lines().filter(|l| *l == "cargo check").count(), 1);
    assert_eq!(script.lines().filter(|l| *l == "cargo fmt -- --check").count(), 1);
}

#[test]
fn change_features_using_run_for_all() {
    let mut repo = Repo::new();
    let f = features(&[
        "precommit-hook",
        "run-for-all",
        "run-cargo-test",
        "run-cargo-check",
        "run-cargo-clippy",
        "run-cargo-fmt",
    ]);
    repo.run(&f, VERSION, None).unwrap();

    assert_eq!(repo.script(HookName::PrePush), None);

    let script = repo.script(HookName::PreCommit).unwrap();
    assert_eq!(script.lines().filter(|l| *l == "cargo test --all").count(), 1);
    assert_eq!(script.lines().filter(|l| *l == "cargo clippy --all -- -D warnings").count(), 1);
    assert_eq!(script.lines().filter(|l| *l == "cargo check --all").count(), 1);
    assert_eq!(script.lines().filter(|l| *l == "cargo fmt --all -- --check").count(), 1);
}

#[test]
fn hook_not_updated_twice() {
    let mut repo = Repo::new();
    repo.run(&Features::default_set(), VERSION, None).unwrap();
    let first = repo.modified(HookName::PrePush);
    repo.run(&Features::default_set(), VERSION, None).unwrap();
    let second = repo.modified(HookName::PrePush);
    assert_eq!(first, second);
}

#[test]
fn regenerate_hook_script_on_package_update() {
    let mut repo = Repo::new();
    repo.run(&Features::default_set(), VERSION, None).unwrap();
    let script = repo.script(HookName::PrePush).unwrap();

    let before = format!("set by cargo-husky v{}", VERSION);
    let prev_version = decrease_patch(semver::Version::parse(VERSION).unwrap());
    let after = format!("set by cargo-husky v{}", prev_version);
    let script = script.replacen(before.as_str(), after.as_str(), 1);
    repo.put(HookName::PrePush, &script);
    let modified_before = repo.modified(HookName::PrePush);

    repo.run(&Features::default_set(), VERSION, None).unwrap();

    assert_ne!(modified_before, repo.modified(HookName::PrePush));
    let script = repo.script(HookName::PrePush).unwrap();
    assert!(script
        .lines()
        .nth(2)
        .unwrap()
        .contains(format!("set by cargo-husky v{}", VERSION).as_str()));
}

fn another_hook_untouched(content: &str) {
    let mut repo = Repo::new();
    let content = format!("{}\n", content);
    repo.put(HookName::PrePush, &content);
    let modified_before = repo.modified(HookName::PrePush);
    repo.run(&Features::default_set(), VERSION, None).unwrap();
    assert_eq!(modified_before, repo.modified(HookName::PrePush));
    assert_eq!(repo.script(HookName::PrePush).unwrap(), content);
}

#[test]
fn another_hook_less_than_3_lines() {
    another_hook_untouched("#!/bin/sh\necho 'hook put by someone else'");
}

#[test]
fn another_hook_more_than_3_lines() {
    another_hook_untouched("#!/bin/sh\n\n\necho 'hook put by someone else'");
}

#[test]
fn user_hooks() {
    let mut repo = Repo::new();
    let dir = user_hooks_dir();
    repo.run(&features(&["user-hooks"]), VERSION, Some(&dir)).unwrap();

    assert!(repo.script(HookName::PrePush).is_none());
    assert!(repo.script(HookName::PreCommit).is_some());
    assert!(repo.script(HookName::PostMerge).is_some());

    let check_line = format!("# This hook was set by cargo-husky v{}: {}", VERSION, HOMEPAGE);

    let s = repo.script(HookName::PreCommit).unwrap();
    assert_eq!(s.lines().nth(0), Some("#! /bin/sh"));
    assert_eq!(s.lines().nth(2), Some(check_line.as_str()));
    assert_eq!(s.lines().nth(4), Some("# This is a user script for pre-commit hook with shebang"));

    let s = repo.script(HookName::PostMerge).unwrap();
    assert_eq!(s.lines().nth(0), Some("#"));
    assert_eq!(s.lines().nth(2), Some(check_line.as_str()));
    assert_eq!(s.lines().nth(3), Some("# Script without shebang (I'm not sure this is useful)"));
}

#[test]
fn user_hooks_dir_not_found() {
    let mut repo = Repo::new();
    assert_user_hooks_error(repo.run(&features(&["user-hooks"]), VERSION, None));
}

#[test]
fn user_hooks_dir_is_empty() {
    let mut repo = Repo::new();
    let dir: Vec<Candidate> = Vec::new();
    assert_user_hooks_error(repo.run(&features(&["user-hooks"]), VERSION, Some(&dir)));
    assert!(repo.hooks.iter().all(|e| e.1.is_none() && e.2 == 0));
}

#[test]
fn user_hooks_dir_only_contains_non_executable_file() {
    let mut repo = Repo::new();
    let dir = vec![
        candidate("non-executable-file1", false, "this\nis\nnormal\ntest\nfile\n"),
        candidate("non-executable-file2", false, "this\nis\nalso\nnormal\ntest\nfile\n"),
    ];
    assert_user_hooks_error(repo.run(&features(&["user-hooks"]), VERSION, Some(&dir)));
}

#[test]
fn copied_user_hooks_are_executable() {
    let mut repo = Repo::new();
    let mut dir = user_hooks_dir();
    dir.push(candidate("non-executable-file.txt", false, "foo\nbar\npiyo\n"));
    repo.run(&features(&["user-hooks"]), VERSION, Some(&dir)).unwrap();
    for h in [HookName::PreCommit, HookName::PostMerge] {
        assert_eq!(repo.mode(h) & 0o555, 0o555);
    }
    assert_eq!(HookName::from_file_name(b"non-executable-file.txt"), None);
}

#[test]
fn empty_script_file_not_allowed() {
    let mut repo = Repo::new();
    let dir = vec![candidate("pre-commit", true, "")];
    let err = repo.run(&features(&["user-hooks"]), VERSION, Some(&dir)).unwrap_err();
    assert!(err.message().contains("User hook script is empty"));
}

#[test]
fn user_hooks_missing_dir_writes_nothing() {
    let mut repo = Repo::new();
    let f = features(&["user-hooks", "prepush-hook", "run-cargo-test"]);
    assert_user_hooks_error(repo.run(&f, VERSION, None));
    assert!(repo.hooks.iter().all(|e| e.1.is_none() && e.2 == 0));
}

#[test]
fn empty_hook_checked_before_any_write() {
    let dir = vec![candidate("pre-commit", true, "echo ok\n"), candidate("post-merge", true, "")];
    assert_eq!(check_user_hooks(Some(&dir)), Some(HookError::EmptyUserHook));
    let mut repo = Repo::new();
    assert!(repo.run(&features(&["user-hooks"]), VERSION, Some(&dir)).is_err());
    assert!(repo.hooks.iter().all(|e| e.1.is_none()));
}

#[test]
fn unknown_executable_name_is_not_a_hook() {
    let dir = vec![candidate("build.sh", true, "echo hi\n")];
    assert_eq!(check_user_hooks(Some(&dir)), Some(HookError::UserHooksNotFound));
}

#[test]
fn rendered_default_script_is_exact() {
    let v = ToolVersion::parse(VERSION.as_bytes()).unwrap();
    let s = render_script(&Features::default_set(), HookName::PrePush, &v).unwrap();
    assert_eq!(
        String::from_utf8(s).unwrap(),
        format!("#!/bin/sh\n\n# This hook was set by cargo-husky v{}: {}\ncargo test --all\n", VERSION, HOMEPAGE)
    );
}

#[test]
fn feature_projection_without_clippy() {
    let v = ToolVersion::parse(VERSION.as_bytes()).unwrap();
    let f = features(&["prepush-hook", "run-cargo-test"]);
    let s = String::from_utf8(render_script(&f, HookName::PrePush, &v).unwrap()).unwrap();
    assert_eq!(s.lines().filter(|l| *l == "cargo test").count(), 1);
    assert!(s.lines().all(|l| !l.contains("cargo clippy")));
}

#[test]
fn workspace_flag_on_test_command() {
    let v = ToolVersion::parse(VERSION.as_bytes()).unwrap();
    let f = features(&["prepush-hook", "run-cargo-test", "run-for-all"]);
    let s = String::from_utf8(render_script(&f, HookName::PrePush, &v).unwrap()).unwrap();
    assert_eq!(s.lines().nth(3), Some("cargo test --all"));
}

#[test]
fn nothing_to_generate_without_commands() {
    let v = ToolVersion::parse(VERSION.as_bytes()).unwrap();
    let f = features(&["prepush-hook"]);
    assert!(render_script(&f, HookName::PrePush, &v).is_none());
    assert!(render_script(&Features::default_set(), HookName::PostCheckout, &v).is_none());
}

#[test]
fn disabled_feature_removes_owned_script() {
    let mut repo = Repo::new();
    let old = ToolVersion::parse(b"1.4.9").unwrap();
    let s = render_script(&Features::default_set(), HookName::PrePush, &old).unwrap();
    repo.put(HookName::PrePush, &String::from_utf8(s).unwrap());
    repo.run(&features(&["precommit-hook", "run-cargo-check"]), VERSION, None).unwrap();
    assert_eq!(repo.script(HookName::PrePush), None);
}

#[test]
fn newer_owned_script_is_kept() {
    let mut repo = Repo::new();
    let newer = ToolVersion::parse(b"2.0.0").unwrap();
    let s = String::from_utf8(render_script(&Features::default_set(), HookName::PrePush, &newer).unwrap()).unwrap();
    repo.put(HookName::PrePush, &s);
    let m = repo.modified(HookName::PrePush);
    repo.run(&Features::default_set(), VERSION, None).unwrap();
    assert_eq!(repo.modified(HookName::PrePush), m);
    assert_eq!(repo.script(HookName::PrePush).unwrap(), s);
}

#[test]
fn classify_three_ways() {
    assert!(matches!(classify(None), Installed::Absent));
    assert!(matches!(classify(Some("#!/bin/sh\necho hi\n".as_bytes())), Installed::Foreign));
    let banner = "#!/bin/sh\n\n# This hook was set by cargo-husky v1.2.3-beta.2+build: x\n".as_bytes();
    match classify(Some(banner)) {
        Installed::Owned(v) => {
            assert_eq!((v.major, v.minor, v.patch), (1, 2, 3));
            assert_eq!(v.pre, b"beta.2".to_vec());
            assert_eq!(v.build, b"build".to_vec());
        }
        _ => panic!("expected an owned script"),
    }
    let bad = "#!/bin/sh\n\n# This hook was set by cargo-husky vnot-a-version: x\n".as_bytes();
    assert!(matches!(classify(Some(bad)), Installed::Foreign));
    let no_colon = "#!/bin/sh\n\n# This hook was set by cargo-husky v1.2.3\n".as_bytes();
    assert!(matches!(classify(Some(no_colon)), Installed::Foreign));
}

#[test]
fn version_parse_and_precedence() {
    assert!(Version::parse(b"1.0").is_none());
    assert!(ToolVersion::parse(b"").is_none());
    let a = Version::parse(b"1.0.0-alpha").unwrap();
    let b = Version::parse(b"1.0.0").unwrap();
    let c = Version::parse(b"1.0.0-alpha.1").unwrap();
    let d = Version::parse(b"1.0.0-alpha.beta").unwrap();
    let e = Version::parse(b"1.0.0-beta.11").unwrap();
    let g = Version::parse(b"1.0.0-beta.2").unwrap();
    assert!(a.precedes(&b));
    assert!(!b.precedes(&a));
    assert!(a.precedes(&c));
    assert!(c.precedes(&d));
    assert!(g.precedes(&e));
    assert!(!e.precedes(&g));
    assert!(!b.precedes(&b));
    assert!(b.same_as(&Version::parse(b"1.0.0").unwrap()));
    assert!(!b.same_as(&Version::parse(b"1.0.0+meta").unwrap()));
    assert!(Version::parse(b"0.9.12").unwrap().precedes(&Version::parse(b"0.10.0").unwrap()));
}

#[test]
fn decide_table() {
    let cur = Version::parse(b"1.5.0").unwrap();
    let want = b"new\n".to_vec();
    assert!(matches!(decide(None, Some(want.clone()), &cur), Action::Write(ref c) if *c == want));
    assert!(matches!(decide(None, None, &cur), Action::Keep));
    let same = "#!/bin/sh\n\n# This hook was set by cargo-husky v1.5.0: x\n".as_bytes();
    assert!(matches!(decide(Some(same), Some(want.clone()), &cur), Action::Keep));
    let old = "#!/bin/sh\n\n# This hook was set by cargo-husky v1.4.0: x\n".as_bytes();
    assert!(matches!(decide(Some(old), Some(want.clone()), &cur), Action::Write(_)));
    assert!(matches!(decide(Some(old), None, &cur), Action::Remove));
    assert!(matches!(decide(Some("echo\n".as_bytes()), None, &cur), Action::Keep));
}

#[test]
fn stamp_boundaries() {
    let v = ToolVersion::parse(VERSION.as_bytes()).unwrap();
    let banner = format!("# This hook was set by cargo-husky v{}: {}", VERSION, HOMEPAGE);
    let one = String::from_utf8(stamp(b"echo one", &v)).unwrap();
    assert_eq!(one, format!("echo one\n{}\n", banner));
    let two = String::from_utf8(stamp(b"a\nb\n", &v)).unwrap();
    assert_eq!(two, format!("a\nb\n{}\n", banner));
    let three = String::from_utf8(stamp(b"a\nb\nc", &v)).unwrap();
    assert_eq!(three, format!("a\nb\n{}\nc\n", banner));
}

#[test]
fn executable_mode_bits() {
    assert_eq!(executable_mode(0o644), 0o755);
    assert_eq!(executable_mode(0o600), 0o711);
    assert_eq!(executable_mode(0o755), 0o755);
}

#[test]
fn hook_names_round_trip() {
    for h in HookName::all() {
        assert_eq!(HookName::from_file_name(h.file_name().as_bytes()), Some(h));
    }
    assert_eq!(HookName::all().len(), 14);
    assert_eq!(HookName::PrePush.file_name(), "pre-push");
}

#[test]
fn feature_names() {
    let f = features(&["precommit-hook", "unknown-feature"]);
    assert!(f.pre_commit);
    assert_eq!(f, features(&["precommit-hook"]));
}

#[test]
fn hook_path_under_git_dir() {
    assert_eq!(hook_path(b"/repo", HookName::PrePush), b"/repo/.git/hooks/pre-push".to_vec());
    assert_eq!(hook_path(b"/repo/", HookName::PostMerge), b"/repo/.git/hooks/post-merge".to_vec());
}

#[test]
fn tmpdir_for_joins_once() {
    assert_eq!(tmpdir_for(b"/tmp/cargo-husky-test", b"default"), b"/tmp/cargo-husky-test/default".to_vec());
    assert_eq!(tmpdir_for(b"/tmp/", b"x"), b"/tmp/x".to_vec());
    assert_eq!(join_path(b"", b"x"), b"x".to_vec());
}
