//! The feature set and the hook scripts generated from it.
use vstd::prelude::*;
use vstd::string::StringSliceAdditionalSpecFns;
use crate::hook::HookName;
use crate::text::{all_single_lines, bytes_eq, lemma_text_of_one, no_newline, push_line, text_of, NEWLINE};
use crate::version::ToolVersion;

verus! {

/// Which hooks to generate and which cargo commands to run in them.
#[derive(Clone, Copy, PartialEq, Eq, Structural, Debug)]
pub struct Features {
    pub pre_push: bool,
    pub pre_commit: bool,
    pub post_merge: bool,
    pub run_test: bool,
    pub run_check: bool,
    pub run_clippy: bool,
    pub run_fmt: bool,
    /// Run each command for every member of the workspace.
    pub run_for_all: bool,
    /// Install the project's own hooks instead of generated ones.
    pub user_hooks: bool,
}

impl Features {
    /// The default set: a pre-push hook that tests the whole workspace.
    pub fn default_set() -> (r: Features)
        ensures
            r == (Features {
                pre_push: true,
                pre_commit: false,
                post_merge: false,
                run_test: true,
                run_check: false,
                run_clippy: false,
                run_fmt: false,
                run_for_all: true,
                user_hooks: false,
            }),
    {
        Features {
            pre_push: true,
            pre_commit: false,
            post_merge: false,
            run_test: true,
            run_check: false,
            run_clippy: false,
            run_fmt: false,
            run_for_all: true,
            user_hooks: false,
        }
    }

    /// This set with the cargo feature called `name` turned on; other names
    /// change nothing.
    pub fn with_feature(self, name: &[u8]) -> (r: Features)
        ensures
            r == with_feature_named(self, name@),
    {
        if bytes_eq(name, "prepush-hook".as_bytes()) {
            return Features { pre_push: true, ..self };
        }
        if bytes_eq(name, "precommit-hook".as_bytes()) {
            return Features { pre_commit: true, ..self };
        }
        if bytes_eq(name, "postmerge-hook".as_bytes()) {
            return Features { post_merge: true, ..self };
        }
        if bytes_eq(name, "run-cargo-test".as_bytes()) {
            return Features { run_test: true, ..self };
        }
        if bytes_eq(name, "run-cargo-check".as_bytes()) {
            return Features { run_check: true, ..self };
        }
        if bytes_eq(name, "run-cargo-clippy".as_bytes()) {
            return Features { run_clippy: true, ..self };
        }
        if bytes_eq(name, "run-cargo-fmt".as_bytes()) {
            return Features { run_fmt: true, ..self };
        }
        if bytes_eq(name, "run-for-all".as_bytes()) {
            return Features { run_for_all: true, ..self };
        }
        if bytes_eq(name, "user-hooks".as_bytes()) {
            return Features { user_hooks: true, ..self };
        }
        self
    }

    /// The empty set: no hook, no command.
    pub fn none() -> (r: Features)
        ensures
            !r.pre_push && !r.pre_commit && !r.post_merge && !r.run_test && !r.run_check
                && !r.run_clippy && !r.run_fmt && !r.run_for_all && !r.user_hooks,
    {
        Features {
            pre_push: false,
            pre_commit: false,
            post_merge: false,
            run_test: false,
            run_check: false,
            run_clippy: false,
            run_fmt: false,
            run_for_all: false,
            user_hooks: false,
        }
    }
}

/// `f` with the cargo feature called `name` turned on; other names change nothing.
pub open spec fn with_feature_named(f: Features, name: Seq<u8>) -> Features {
    if name == "prepush-hook".spec_bytes() {
        Features { pre_push: true, ..f }
    } else if name == "precommit-hook".spec_bytes() {
        Features { pre_commit: true, ..f }
    } else if name == "postmerge-hook".spec_bytes() {
        Features { post_merge: true, ..f }
    } else if name == "run-cargo-test".spec_bytes() {
        Features { run_test: true, ..f }
    } else if name == "run-cargo-check".spec_bytes() {
        Features { run_check: true, ..f }
    } else if name == "run-cargo-clippy".spec_bytes() {
        Features { run_clippy: true, ..f }
    } else if name == "run-cargo-fmt".spec_bytes() {
        Features { run_fmt: true, ..f }
    } else if name == "run-for-all".spec_bytes() {
        Features { run_for_all: true, ..f }
    } else if name == "user-hooks".spec_bytes() {
        Features { user_hooks: true, ..f }
    } else {
        f
    }
}

pub open spec fn shebang_line() -> Seq<u8> {
    "#!/bin/sh".spec_bytes()
}

pub open spec fn banner_prefix() -> Seq<u8> {
    "# This hook was set by cargo-husky v".spec_bytes()
}

pub open spec fn banner_suffix() -> Seq<u8> {
    ": https://github.com/rhysd/cargo-husky#readme".spec_bytes()
}

/// The comment that marks a script as written by this tool at `version`.
pub open spec fn banner_line(version: Seq<u8>) -> Seq<u8> {
    banner_prefix() + version + banner_suffix()
}

pub open spec fn test_line(all: bool) -> Seq<u8> {
    if all {
        "cargo test --all".spec_bytes()
    } else {
        "cargo test".spec_bytes()
    }
}

pub open spec fn check_line(all: bool) -> Seq<u8> {
    if all {
        "cargo check --all".spec_bytes()
    } else {
        "cargo check".spec_bytes()
    }
}

pub open spec fn clippy_line(all: bool) -> Seq<u8> {
    if all {
        "cargo clippy --all -- -D warnings".spec_bytes()
    } else {
        "cargo clippy -- -D warnings".spec_bytes()
    }
}

pub open spec fn fmt_line(all: bool) -> Seq<u8> {
    if all {
        "cargo fmt --all -- --check".spec_bytes()
    } else {
        "cargo fmt -- --check".spec_bytes()
    }
}

pub open spec fn line_if(on: bool, line: Seq<u8>) -> Seq<Seq<u8>> {
    if on {
        seq![line]
    } else {
        Seq::empty()
    }
}

/// The command lines of the enabled features: test, check, clippy, fmt.
pub open spec fn command_lines(f: Features) -> Seq<Seq<u8>> {
    line_if(f.run_test, test_line(f.run_for_all)) + line_if(f.run_check, check_line(f.run_for_all))
        + line_if(f.run_clippy, clippy_line(f.run_for_all)) + line_if(
        f.run_fmt,
        fmt_line(f.run_for_all),
    )
}

pub open spec fn hook_enabled(f: Features, h: HookName) -> bool {
    match h {
        HookName::PrePush => f.pre_push,
        HookName::PreCommit => f.pre_commit,
        HookName::PostMerge => f.post_merge,
        _ => false,
    }
}

/// The lines of a generated script: shebang, a blank line, the banner, the commands.
pub open spec fn script_lines(f: Features, version: Seq<u8>) -> Seq<Seq<u8>> {
    seq![shebang_line(), Seq::<u8>::empty(), banner_line(version)] + command_lines(f)
}

/// The script generated for hook `h`, or `None` when there is nothing to generate.
pub open spec fn rendered(f: Features, h: HookName, version: Seq<u8>) -> Option<Seq<u8>> {
    if hook_enabled(f, h) && command_lines(f).len() > 0 {
        Some(text_of(script_lines(f, version)))
    } else {
        None
    }
}

/// A string literal of ASCII characters other than newline is a single line of bytes.
proof fn lemma_literal_line(s: &str)
    requires
        vstd::string::is_ascii(s),
        forall|i: int| 0 <= i < s@.len() ==> s@[i] != '\n',
    ensures
        no_newline(s.spec_bytes()),
        s.spec_bytes().len() == s@.len(),
        forall|i: int| 0 <= i < s@.len() ==> s.spec_bytes()[i] == s@[i] as u8,
{
    broadcast use vstd::string::is_ascii_spec_bytes;

    assert forall|i: int| 0 <= i < s.spec_bytes().len() implies s.spec_bytes()[i] != NEWLINE by {
        assert(s@[i] != '\n');
    }
}

pub proof fn lemma_fixed_lines_single()
    ensures
        no_newline(shebang_line()),
        shebang_line().len() == 9,
        no_newline(banner_prefix()),
        no_newline(banner_suffix()),
        banner_suffix().len() > 0 && banner_suffix()[0] == 58,
        banner_prefix().len() > 0 && banner_prefix()[0] == 35,
{
    reveal_strlit("#!/bin/sh");
    lemma_literal_line("#!/bin/sh");
    reveal_strlit("# This hook was set by cargo-husky v");
    lemma_literal_line("# This hook was set by cargo-husky v");
    reveal_strlit(": https://github.com/rhysd/cargo-husky#readme");
    lemma_literal_line(": https://github.com/rhysd/cargo-husky#readme");
}

pub proof fn lemma_test_lines()
    ensures
        no_newline(test_line(true)) && no_newline(test_line(false)),
        test_line(true).len() == 16 && test_line(false).len() == 10,
        test_line(true)[0] == 99 && test_line(false)[0] == 99,
{
    reveal_strlit("cargo test --all");
    lemma_literal_line("cargo test --all");
    reveal_strlit("cargo test");
    lemma_literal_line("cargo test");
}

pub proof fn lemma_check_lines()
    ensures
        no_newline(check_line(true)) && no_newline(check_line(false)),
        check_line(true).len() == 17 && check_line(false).len() == 11,
{
    reveal_strlit("cargo check --all");
    lemma_literal_line("cargo check --all");
    reveal_strlit("cargo check");
    lemma_literal_line("cargo check");
}

pub proof fn lemma_clippy_lines()
    ensures
        no_newline(clippy_line(true)) && no_newline(clippy_line(false)),
        clippy_line(true).len() == 33 && clippy_line(false).len() == 27,
        clippy_line(true)[0] == 99 && clippy_line(false)[0] == 99,
{
    reveal_strlit("cargo clippy --all -- -D warnings");
    lemma_literal_line("cargo clippy --all -- -D warnings");
    reveal_strlit("cargo clippy -- -D warnings");
    lemma_literal_line("cargo clippy -- -D warnings");
}

pub proof fn lemma_fmt_lines()
    ensures
        no_newline(fmt_line(true)) && no_newline(fmt_line(false)),
        fmt_line(true).len() == 26 && fmt_line(false).len() == 20,
{
    reveal_strlit("cargo fmt --all -- --check");
    lemma_literal_line("cargo fmt --all -- --check");
    reveal_strlit("cargo fmt -- --check");
    lemma_literal_line("cargo fmt -- --check");
}

pub proof fn lemma_banner_single(version: Seq<u8>)
    requires
        no_newline(version),
    ensures
        no_newline(banner_line(version)),
{
    lemma_fixed_lines_single();
    let b = banner_line(version);
    let p = banner_prefix().len();
    assert forall|i: int| 0 <= i < b.len() implies b[i] != NEWLINE by {
        if i < p {
            assert(b[i] == banner_prefix()[i]);
        } else if i < p + version.len() {
            assert(b[i] == version[i - p]);
        } else {
            assert(b[i] == banner_suffix()[i - p - version.len()]);
        }
    }
}

/// The fixed lines of a script and every command line are single lines.
pub proof fn lemma_script_lines_single(f: Features, version: Seq<u8>)
    requires
        no_newline(version),
    ensures
        all_single_lines(script_lines(f, version)),
{
    lemma_fixed_lines_single();
    lemma_banner_single(version);
    lemma_test_lines();
    lemma_check_lines();
    lemma_clippy_lines();
    lemma_fmt_lines();
    let ls = script_lines(f, version);
    let cs = command_lines(f);
    assert forall|j: int| 0 <= j < ls.len() implies no_newline(#[trigger] ls[j]) by {
        if j >= 3 {
            assert(ls[j] == cs[j - 3]);
        }
    }
}

/// Appends `line` as a line of its own when `on` holds.
fn push_line_if(out: &mut Vec<u8>, on: bool, line: &[u8])
    ensures
        final(out)@ == old(out)@ + text_of(line_if(on, line@)),
{
    if on {
        push_line(out, line);
        proof {
            lemma_text_of_one(line@);
        }
    } else {
        assert(old(out)@ + text_of(line_if(on, line@)) =~= old(out)@);
    }
}

/// The command lines of `f`, as text.
fn command_text(f: &Features) -> (r: Vec<u8>)
    ensures
        r@ == text_of(command_lines(*f)),
{
    let all = f.run_for_all;
    let mut out: Vec<u8> = Vec::new();
    push_line_if(&mut out, f.run_test, if all { "cargo test --all".as_bytes() } else { "cargo test".as_bytes() });
    push_line_if(&mut out, f.run_check, if all { "cargo check --all".as_bytes() } else { "cargo check".as_bytes() });
    push_line_if(
        &mut out,
        f.run_clippy,
        if all {
            "cargo clippy --all -- -D warnings".as_bytes()
        } else {
            "cargo clippy -- -D warnings".as_bytes()
        },
    );
    push_line_if(
        &mut out,
        f.run_fmt,
        if all {
            "cargo fmt --all -- --check".as_bytes()
        } else {
            "cargo fmt -- --check".as_bytes()
        },
    );
    proof {
        let a = line_if(f.run_test, test_line(all));
        let b = line_if(f.run_check, check_line(all));
        let c = line_if(f.run_clippy, clippy_line(all));
        let d = line_if(f.run_fmt, fmt_line(all));
        assert(Seq::<u8>::empty() + text_of(a) =~= text_of(a));
        crate::text::lemma_text_of_append(a, b);
        crate::text::lemma_text_of_append(a + b, c);
        crate::text::lemma_text_of_append(a + b + c, d);
        assert(out@ =~= text_of(a + b + c + d));
    }
    out
}

/// The banner of this tool at `version`.
pub fn banner(version: &ToolVersion) -> (r: Vec<u8>)
    ensures
        r@ == banner_line(version.text@),
{
    let mut b: Vec<u8> = Vec::new();
    b.extend_from_slice("# This hook was set by cargo-husky v".as_bytes());
    b.extend_from_slice(version.text.as_slice());
    b.extend_from_slice(": https://github.com/rhysd/cargo-husky#readme".as_bytes());
    b
}

/// Renders the script for hook `h`, or `None` when there is nothing to generate.
pub fn render_script(f: &Features, h: HookName, version: &ToolVersion) -> (r: Option<Vec<u8>>)
    ensures
        match r {
            Some(s) => rendered(*f, h, version.text@) == Some(s@),
            None => rendered(*f, h, version.text@).is_none(),
        },
{
    let enabled = match h {
        HookName::PrePush => f.pre_push,
        HookName::PreCommit => f.pre_commit,
        HookName::PostMerge => f.post_merge,
        _ => false,
    };
    if !enabled || !(f.run_test || f.run_check || f.run_clippy || f.run_fmt) {
        return None;
    }
    let ghost v = version.text@;
    let mut out: Vec<u8> = Vec::new();
    push_line(&mut out, "#!/bin/sh".as_bytes());
    out.push(NEWLINE);
    let b = banner(version);
    push_line(&mut out, b.as_slice());
    let cmds = command_text(f);
    out.extend_from_slice(cmds.as_slice());
    proof {
        let head = seq![shebang_line(), Seq::<u8>::empty(), banner_line(v)];
        assert(head.drop_first().drop_first().drop_first() =~= Seq::<Seq<u8>>::empty());
        assert(head.drop_first().drop_first() =~= seq![banner_line(v)]);
        lemma_text_of_one(banner_line(v));
        assert(text_of(head.drop_first()) == Seq::<u8>::empty() + seq![NEWLINE] + text_of(
            head.drop_first().drop_first(),
        ));
        assert(text_of(head) == shebang_line() + seq![NEWLINE] + text_of(head.drop_first()));
        assert(text_of(head) =~= shebang_line() + seq![NEWLINE] + seq![NEWLINE] + banner_line(v)
            + seq![NEWLINE]);
        crate::text::lemma_text_of_append(head, command_lines(*f));
        assert(out@ =~= text_of(script_lines(*f, v)));
    }
    Some(out)
}

} // verus!
