//! Deciding, hook by hook, whether to write, remove or leave a script.
use vstd::prelude::*;
use crate::classify::{classify, owner_version, Installed};
use crate::hook::HookName;
use crate::script::{render_script, rendered, Features};
use crate::user_hooks::{
    candidates_view, check_user_hooks, find_user_script, stamp, stamped, user_hooks_error,
    user_script_for, Candidate, CandidateModel, HookError,
};
use crate::version::{older_than, ToolVersion, Version, VersionModel};

verus! {

/// What to do at a hook's path, as plain values.
pub enum Step {
    Keep,
    Write(Seq<u8>),
    Remove,
}

/// What to do at a hook's path.
pub enum Action {
    /// Leave the path as it is.
    Keep,
    /// Write this content and make the file executable.
    Write(Vec<u8>),
    /// Remove the file; one that is already gone counts as removed.
    Remove,
}

impl View for Action {
    type V = Step;

    open spec fn view(&self) -> Step {
        match self {
            Action::Keep => Step::Keep,
            Action::Write(c) => Step::Write(c@),
            Action::Remove => Step::Remove,
        }
    }
}

/// The decision table: from what stands at a hook's path and what this run
/// wants there, to what is done. A missing file is written when something is
/// wanted; a script of this tool at an older version is rewritten, or removed
/// when nothing is wanted any more; anything else (a foreign file, a script
/// at this version or a newer one) is left as it is.
pub open spec fn decision(
    existing: Option<Seq<u8>>,
    desired: Option<Seq<u8>>,
    current: VersionModel,
) -> Step {
    match existing {
        None => match desired {
            Some(d) => Step::Write(d),
            None => Step::Keep,
        },
        Some(c) => match owner_version(c) {
            None => Step::Keep,
            Some(v) => if older_than(v, current) {
                match desired {
                    Some(d) => Step::Write(d),
                    None => Step::Remove,
                }
            } else {
                Step::Keep
            },
        },
    }
}

/// What stands at the path after `s` is carried out.
pub open spec fn after(existing: Option<Seq<u8>>, s: Step) -> Option<Seq<u8>> {
    match s {
        Step::Keep => existing,
        Step::Write(d) => Some(d),
        Step::Remove => None,
    }
}

/// The script that this run wants for hook `h`: the project's own script
/// stamped with the banner in user hooks mode, else the generated one.
pub open spec fn desired(
    f: Features,
    h: HookName,
    dir: Option<Seq<CandidateModel>>,
    version: Seq<u8>,
) -> Option<Seq<u8>> {
    if f.user_hooks {
        match dir {
            Some(cs) => match user_script_for(cs, h) {
                Some(u) => Some(stamped(u, version)),
                None => None,
            },
            None => None,
        }
    } else {
        rendered(f, h, version)
    }
}

pub open spec fn dir_view(dir: Option<&Vec<Candidate>>) -> Option<Seq<CandidateModel>> {
    match dir {
        Some(d) => Some(candidates_view(d@)),
        None => None,
    }
}

pub open spec fn content_view(c: Option<&[u8]>) -> Option<Seq<u8>> {
    match c {
        Some(b) => Some(b@),
        None => None,
    }
}

/// Decides what to do at a hook's path.
pub fn decide(existing: Option<&[u8]>, desired: Option<Vec<u8>>, current: &Version) -> (r: Action)
    ensures
        r@ == decision(
            content_view(existing),
            match desired {
                Some(d) => Some(d@),
                None => None,
            },
            current@,
        ),
{
    match classify(existing) {
        Installed::Absent => match desired {
            Some(d) => Action::Write(d),
            None => Action::Keep,
        },
        Installed::Foreign => Action::Keep,
        Installed::Owned(v) => {
            if !v.same_as(current) && v.precedes(current) {
                match desired {
                    Some(d) => Action::Write(d),
                    None => Action::Remove,
                }
            } else {
                Action::Keep
            }
        },
    }
}

/// The script that this run wants for hook `h`.
pub fn desired_script(
    f: &Features,
    h: HookName,
    dir: Option<&Vec<Candidate>>,
    version: &ToolVersion,
) -> (r: Option<Vec<u8>>)
    ensures
        match r {
            Some(s) => desired(*f, h, dir_view(dir), version.text@) == Some(s@),
            None => desired(*f, h, dir_view(dir), version.text@).is_none(),
        },
{
    if f.user_hooks {
        match dir {
            Some(d) => match find_user_script(d, h) {
                Some(u) => Some(stamp(u.as_slice(), version)),
                None => None,
            },
            None => None,
        }
    } else {
        render_script(f, h, version)
    }
}

/// What a hook's path holds before the run (`None`: no file).
pub struct HookState {
    pub hook: HookName,
    pub content: Option<Vec<u8>>,
}

pub open spec fn state_content(s: HookState) -> Option<Seq<u8>> {
    match s.content {
        Some(c) => Some(c@),
        None => None,
    }
}

/// The actions of one run, one for each hook in `hooks`. In user hooks mode
/// the run fails, before any action, when the user hooks directory does.
pub fn plan(
    f: &Features,
    current: &ToolVersion,
    hooks: &Vec<HookState>,
    dir: Option<&Vec<Candidate>>,
) -> (r: Result<Vec<Action>, HookError>)
    ensures
        f.user_hooks && user_hooks_error(dir_view(dir)).is_some() ==> r == Err::<Vec<Action>, HookError>(
            user_hooks_error(dir_view(dir)).unwrap(),
        ),
        !(f.user_hooks && user_hooks_error(dir_view(dir)).is_some()) ==> r is Ok,
        r is Ok ==> r.unwrap().len() == hooks.len() && forall|i: int|
            0 <= i < hooks.len() ==> #[trigger] r.unwrap()[i]@ == decision(
                state_content(hooks[i]),
                desired(*f, hooks[i].hook, dir_view(dir), current.text@),
                current.version@,
            ),
{
    if f.user_hooks {
        match check_user_hooks(dir) {
            Some(e) => {
                return Err(e);
            },
            None => {},
        }
    }
    let mut actions: Vec<Action> = Vec::new();
    let mut i: usize = 0;
    while i < hooks.len()
        invariant
            i <= hooks@.len(),
            actions@.len() == i,
            forall|j: int|
                0 <= j < i ==> #[trigger] actions@[j]@ == decision(
                    state_content(hooks@[j]),
                    desired(*f, hooks@[j].hook, dir_view(dir), current.text@),
                    current.version@,
                ),
        decreases hooks@.len() - i,
    {
        let s = &hooks[i];
        let d = desired_script(f, s.hook, dir, current);
        let existing = match &s.content {
            Some(c) => Some(c.as_slice()),
            None => None,
        };
        let a = decide(existing, d, &current.version);
        actions.push(a);
        i = i + 1;
    }
    Ok(actions)
}

/// The permission bits of a written hook: `mode` with execute added for
/// owner, group and other.
pub fn executable_mode(mode: u32) -> (r: u32)
    ensures
        r == mode | 0o111u32,
        r & 0o111u32 == 0o111u32,
        r & 0o666u32 == mode & 0o666u32,
{
    let r = mode | 0o111u32;
    assert(r & 0o111u32 == 0o111u32) by (bit_vector)
        requires
            r == mode | 0o111u32,
    ;
    assert(r & 0o666u32 == mode & 0o666u32) by (bit_vector)
        requires
            r == mode | 0o111u32,
    ;
    r
}

} // verus!
