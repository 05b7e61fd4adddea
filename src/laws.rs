//! What holds of an installation run as a whole.
use vstd::prelude::*;
use vstd::string::StringSliceAdditionalSpecFns;
use crate::classify::{banner_version, lemma_banner_version_of_banner, owner_version};
use crate::hook::HookName;
use crate::install::{after, decision, desired, Step};
use crate::script::{
    banner_line, banner_prefix, clippy_line, command_lines, lemma_banner_single,
    lemma_check_lines, lemma_clippy_lines, lemma_fixed_lines_single, lemma_fmt_lines,
    lemma_script_lines_single, lemma_test_lines, line_if, rendered, script_lines, test_line,
    Features,
};
use crate::text::{
    all_single_lines, lemma_lines_are_single, lemma_lines_of_text, lines_of, no_newline,
    third_line,
};
use crate::user_hooks::{stamped, with_banner_line, CandidateModel};
use crate::version::{lemma_version_bytes_plain, older_than, ToolVersion, VersionModel};

verus! {

/// A generated script is stamped with the version that generated it.
pub proof fn lemma_rendered_owned(f: Features, h: HookName, current: ToolVersion)
    requires
        current.wf(),
        rendered(f, h, current.text@).is_some(),
    ensures
        owner_version(rendered(f, h, current.text@).unwrap()) == Some(current.version@),
        lines_of(rendered(f, h, current.text@).unwrap()) == script_lines(f, current.text@),
{
    let v = current.text@;
    lemma_version_bytes_plain(v);
    lemma_script_lines_single(f, v);
    lemma_lines_of_text(script_lines(f, v));
    lemma_banner_version_of_banner(v);
}

/// A stamped user script is stamped with the current version when it has at
/// least two lines of its own, and carries no banner on its third line otherwise.
pub proof fn lemma_stamped_owned_or_foreign(u: Seq<u8>, current: ToolVersion)
    requires
        current.wf(),
    ensures
        owner_version(stamped(u, current.text@)) == Some(current.version@)
            || owner_version(stamped(u, current.text@)).is_none(),
        lines_of(u).len() >= 2 ==> owner_version(stamped(u, current.text@)) == Some(
            current.version@,
        ),
{
    let v = current.text@;
    let b = banner_line(v);
    let ls = lines_of(u);
    let ins = with_banner_line(ls, b);
    lemma_version_bytes_plain(v);
    lemma_banner_single(v);
    lemma_lines_are_single(u);
    assert(all_single_lines(ins)) by {
        assert forall|j: int| 0 <= j < ins.len() implies no_newline(#[trigger] ins[j]) by {
            if ls.len() >= 2 {
                if j < 2 {
                    assert(ins[j] == ls[j]);
                } else if j > 2 {
                    assert(ins[j] == ls[j - 1]);
                }
            } else if j < ls.len() {
                assert(ins[j] == ls[j]);
            }
        }
    }
    lemma_lines_of_text(ins);
    if ls.len() >= 2 {
        assert(ins[2] == b);
        lemma_banner_version_of_banner(v);
    } else {
        assert(third_line(stamped(u, v)).is_none());
    }
}

/// What a run wants at a hook's path is stamped with the current version, or
/// carries no banner that parses.
pub proof fn lemma_desired_stamped(
    f: Features,
    h: HookName,
    dir: Option<Seq<CandidateModel>>,
    current: ToolVersion,
)
    requires
        current.wf(),
    ensures
        desired(f, h, dir, current.text@) matches Some(d) ==> (owner_version(d) == Some(
            current.version@) || owner_version(d).is_none()),
{
    match desired(f, h, dir, current.text@) {
        Some(d) => {
            if f.user_hooks {
                let u = crate::user_hooks::user_script_for(dir.unwrap(), h).unwrap();
                lemma_stamped_owned_or_foreign(u, current);
            } else {
                lemma_rendered_owned(f, h, current);
            }
        },
        None => {},
    }
}

/// Idempotence: whatever a run does at a hook's path, a second run with the
/// same features, user hooks and tool version leaves that path untouched.
pub proof fn law_second_run_keeps(
    f: Features,
    h: HookName,
    dir: Option<Seq<CandidateModel>>,
    existing: Option<Seq<u8>>,
    current: ToolVersion,
)
    requires
        current.wf(),
    ensures
        ({
            let d = desired(f, h, dir, current.text@);
            let first = decision(existing, d, current.version@);
            decision(after(existing, first), d, current.version@) == Step::Keep
        }),
{
    lemma_desired_stamped(f, h, dir, current);
}

/// Upgrade: a script that this tool wrote at an older version is rewritten,
/// in one run, to exactly the script generated now, which carries the
/// current version.
pub proof fn law_upgrade_rewrites(
    f: Features,
    h: HookName,
    existing: Seq<u8>,
    old_version: VersionModel,
    current: ToolVersion,
)
    requires
        current.wf(),
        !f.user_hooks,
        owner_version(existing) == Some(old_version),
        older_than(old_version, current.version@),
        rendered(f, h, current.text@).is_some(),
    ensures
        decision(Some(existing), desired(f, h, None, current.text@), current.version@)
            == Step::Write(rendered(f, h, current.text@).unwrap()),
        owner_version(rendered(f, h, current.text@).unwrap()) == Some(current.version@),
{
    lemma_rendered_owned(f, h, current);
}

/// A foreign script, one without a banner whose version parses, is never
/// touched, whatever the run wants at its path.
pub proof fn law_foreign_untouched(
    existing: Seq<u8>,
    wanted: Option<Seq<u8>>,
    current: VersionModel,
)
    requires
        owner_version(existing).is_none(),
    ensures
        decision(Some(existing), wanted, current) == Step::Keep,
        after(Some(existing), decision(Some(existing), wanted, current)) == Some(existing),
{
}

/// A script without a recognizable banner is foreign.
pub proof fn lemma_no_banner_foreign(existing: Seq<u8>)
    requires
        banner_version(existing).is_none(),
    ensures
        owner_version(existing).is_none(),
{
}

/// Feature projection: with the test command on and clippy off, the
/// generated pre-push script has exactly one line that is the test command,
/// and no line that is a clippy command.
pub proof fn law_feature_projection(f: Features, current: ToolVersion)
    requires
        current.wf(),
        f.pre_push,
        f.run_test,
        !f.run_clippy,
    ensures
        rendered(f, HookName::PrePush, current.text@).is_some(),
        ({
            let ls = lines_of(rendered(f, HookName::PrePush, current.text@).unwrap());
            &&& exists|j: int|
                0 <= j < ls.len() && ls[j] == test_line(f.run_for_all) && forall|k: int|
                    0 <= k < ls.len() && k != j ==> ls[k] != test_line(f.run_for_all)
            &&& forall|k: int|
                0 <= k < ls.len() ==> ls[k] != clippy_line(true) && ls[k] != clippy_line(false)
        }),
{
    let v = current.text@;
    let all = f.run_for_all;
    assert(command_lines(f).len() > 0);
    lemma_rendered_owned(f, HookName::PrePush, current);
    lemma_fixed_lines_single();
    lemma_test_lines();
    lemma_check_lines();
    lemma_clippy_lines();
    lemma_fmt_lines();
    let ls = script_lines(f, v);
    let b = banner_line(v);
    assert(b[0] == banner_prefix()[0]);
    assert(ls[3] == test_line(all));
    assert forall|k: int| 0 <= k < ls.len() && k != 3 implies ls[k] != test_line(all) by {
        if k == 2 {
            assert(ls[k][0] != test_line(all)[0]);
        } else if k > 3 {
            let rest = line_if(f.run_check, crate::script::check_line(all)) + line_if(
                f.run_fmt,
                crate::script::fmt_line(all),
            );
            assert(command_lines(f) =~= seq![test_line(all)] + rest);
            assert(ls[k] == rest[k - 4]);
            assert(ls[k].len() != test_line(all).len());
        }
    }
    assert forall|k: int| 0 <= k < ls.len() implies ls[k] != clippy_line(true) && ls[k]
        != clippy_line(false) by {
        if k == 2 {
            assert(ls[k][0] != clippy_line(true)[0]);
            assert(ls[k][0] != clippy_line(false)[0]);
        } else if k >= 3 {
            let rest = line_if(f.run_check, crate::script::check_line(all)) + line_if(
                f.run_fmt,
                crate::script::fmt_line(all),
            );
            assert(command_lines(f) =~= seq![test_line(all)] + rest);
        }
    }
}

/// Workspace modifier: with the test command and the workspace modifier on,
/// the generated pre-push script runs the test command for the whole workspace.
pub proof fn law_workspace_flag(f: Features, current: ToolVersion)
    requires
        current.wf(),
        f.pre_push,
        f.run_test,
        f.run_for_all,
    ensures
        rendered(f, HookName::PrePush, current.text@).is_some(),
        lines_of(rendered(f, HookName::PrePush, current.text@).unwrap())[3]
            == "cargo test --all".spec_bytes(),
{
    assert(command_lines(f).len() > 0);
    lemma_rendered_owned(f, HookName::PrePush, current);
    assert(command_lines(f)[0] == test_line(true));
}

} // verus!
