//! The git hooks that this tool knows by name.
use vstd::prelude::*;
use vstd::string::StringSliceAdditionalSpecFns;
use crate::text::bytes_eq;

verus! {

/// A client-side git hook.
#[derive(Clone, Copy, PartialEq, Eq, Structural, Debug)]
pub enum HookName {
    ApplypatchMsg,
    PreApplypatch,
    PostApplypatch,
    PreCommit,
    PreMergeCommit,
    PrepareCommitMsg,
    CommitMsg,
    PostCommit,
    PreRebase,
    PostCheckout,
    PostMerge,
    PrePush,
    PreAutoGc,
    PostRewrite,
}

/// The file name of a hook inside `.git/hooks`, as bytes.
pub open spec fn hook_file_name(h: HookName) -> Seq<u8> {
    match h {
        HookName::ApplypatchMsg => "applypatch-msg".spec_bytes(),
        HookName::PreApplypatch => "pre-applypatch".spec_bytes(),
        HookName::PostApplypatch => "post-applypatch".spec_bytes(),
        HookName::PreCommit => "pre-commit".spec_bytes(),
        HookName::PreMergeCommit => "pre-merge-commit".spec_bytes(),
        HookName::PrepareCommitMsg => "prepare-commit-msg".spec_bytes(),
        HookName::CommitMsg => "commit-msg".spec_bytes(),
        HookName::PostCommit => "post-commit".spec_bytes(),
        HookName::PreRebase => "pre-rebase".spec_bytes(),
        HookName::PostCheckout => "post-checkout".spec_bytes(),
        HookName::PostMerge => "post-merge".spec_bytes(),
        HookName::PrePush => "pre-push".spec_bytes(),
        HookName::PreAutoGc => "pre-auto-gc".spec_bytes(),
        HookName::PostRewrite => "post-rewrite".spec_bytes(),
    }
}

/// Every hook, each once.
pub open spec fn all_hooks() -> Seq<HookName> {
    seq![
        HookName::ApplypatchMsg,
        HookName::PreApplypatch,
        HookName::PostApplypatch,
        HookName::PreCommit,
        HookName::PreMergeCommit,
        HookName::PrepareCommitMsg,
        HookName::CommitMsg,
        HookName::PostCommit,
        HookName::PreRebase,
        HookName::PostCheckout,
        HookName::PostMerge,
        HookName::PrePush,
        HookName::PreAutoGc,
        HookName::PostRewrite,
    ]
}

pub proof fn lemma_all_hooks_complete(h: HookName)
    ensures
        exists|i: int| 0 <= i < all_hooks().len() && all_hooks()[i] == h,
{
    match h {
        HookName::ApplypatchMsg => assert(all_hooks()[0] == h),
        HookName::PreApplypatch => assert(all_hooks()[1] == h),
        HookName::PostApplypatch => assert(all_hooks()[2] == h),
        HookName::PreCommit => assert(all_hooks()[3] == h),
        HookName::PreMergeCommit => assert(all_hooks()[4] == h),
        HookName::PrepareCommitMsg => assert(all_hooks()[5] == h),
        HookName::CommitMsg => assert(all_hooks()[6] == h),
        HookName::PostCommit => assert(all_hooks()[7] == h),
        HookName::PreRebase => assert(all_hooks()[8] == h),
        HookName::PostCheckout => assert(all_hooks()[9] == h),
        HookName::PostMerge => assert(all_hooks()[10] == h),
        HookName::PrePush => assert(all_hooks()[11] == h),
        HookName::PreAutoGc => assert(all_hooks()[12] == h),
        HookName::PostRewrite => assert(all_hooks()[13] == h),
    }
}

impl HookName {
    /// Every hook, each once.
    pub fn all() -> (r: Vec<HookName>)
        ensures
            r@ == all_hooks(),
    {
        let r = vec![
            HookName::ApplypatchMsg,
            HookName::PreApplypatch,
            HookName::PostApplypatch,
            HookName::PreCommit,
            HookName::PreMergeCommit,
            HookName::PrepareCommitMsg,
            HookName::CommitMsg,
            HookName::PostCommit,
            HookName::PreRebase,
            HookName::PostCheckout,
            HookName::PostMerge,
            HookName::PrePush,
            HookName::PreAutoGc,
            HookName::PostRewrite,
        ];
        assert(r@ =~= all_hooks());
        r
    }

    /// The hook's file name inside `.git/hooks`.
    pub fn file_name(&self) -> (r: &'static str)
        ensures
            r.spec_bytes() == hook_file_name(*self),
    {
        match self {
            HookName::ApplypatchMsg => "applypatch-msg",
            HookName::PreApplypatch => "pre-applypatch",
            HookName::PostApplypatch => "post-applypatch",
            HookName::PreCommit => "pre-commit",
            HookName::PreMergeCommit => "pre-merge-commit",
            HookName::PrepareCommitMsg => "prepare-commit-msg",
            HookName::CommitMsg => "commit-msg",
            HookName::PostCommit => "post-commit",
            HookName::PreRebase => "pre-rebase",
            HookName::PostCheckout => "post-checkout",
            HookName::PostMerge => "post-merge",
            HookName::PrePush => "pre-push",
            HookName::PreAutoGc => "pre-auto-gc",
            HookName::PostRewrite => "post-rewrite",
        }
    }

    /// The hook whose file name is `name`, if any.
    pub fn from_file_name(name: &[u8]) -> (r: Option<HookName>)
        ensures
            match r {
                Some(h) => hook_file_name(h) == name@,
                None => forall|h: HookName| hook_file_name(h) != name@,
            },
    {
        let hooks = HookName::all();
        let mut i: usize = 0;
        while i < hooks.len()
            invariant
                i <= hooks@.len(),
                hooks@ == all_hooks(),
                forall|j: int| 0 <= j < i ==> hook_file_name(#[trigger] hooks@[j]) != name@,
            decreases hooks@.len() - i,
        {
            let h = hooks[i];
            if bytes_eq(h.file_name().as_bytes(), name) {
                return Some(h);
            }
            i = i + 1;
        }
        proof {
            assert forall|h: HookName| hook_file_name(h) != name@ by {
                lemma_all_hooks_complete(h);
            }
        }
        None
    }
}

} // verus!
