//! The project's own hook scripts: choosing them and stamping them.
use vstd::prelude::*;
use crate::hook::{hook_file_name, HookName};
use crate::script::{banner, banner_line};
use crate::text::{
    find_newline, first_newline, lemma_first_index_bounds, lemma_text_of_push, lines_of,
    push_line, text_of, NEWLINE,
};
use crate::version::ToolVersion;

verus! {

/// A file found in the user hooks directory.
pub struct Candidate {
    /// The file's name.
    pub name: Vec<u8>,
    /// Whether the file may be executed (true where the platform has no such bit).
    pub executable: bool,
    pub content: Vec<u8>,
}

/// A candidate as plain values: name, executable, content.
pub type CandidateModel = (Seq<u8>, bool, Seq<u8>);

impl View for Candidate {
    type V = CandidateModel;

    open spec fn view(&self) -> CandidateModel {
        (self.name@, self.executable, self.content@)
    }
}

/// Why an installation run fails.
#[derive(Clone, Copy, PartialEq, Eq, Structural, Debug)]
pub enum HookError {
    /// User hooks are asked for, but there is no directory or no usable file in it.
    UserHooksNotFound,
    /// A user hook that would be installed is empty.
    EmptyUserHook,
}

impl HookError {
    /// The message shown to whoever runs the build.
    pub fn message(&self) -> (r: &'static str)
        ensures
            *self == HookError::UserHooksNotFound ==> r@
                == "User hooks directory is not found or no executable file is found in the directory"@,
            *self == HookError::EmptyUserHook ==> r@ == "User hook script is empty"@,
    {
        match self {
            HookError::UserHooksNotFound => {
                "User hooks directory is not found or no executable file is found in the directory"
            },
            HookError::EmptyUserHook => "User hook script is empty",
        }
    }
}

/// The candidate `c` is an executable file named as hook `h`.
pub open spec fn serves(c: CandidateModel, h: HookName) -> bool {
    c.1 && hook_file_name(h) == c.0
}

/// The candidate `c` is an executable file named as some hook.
pub open spec fn selected(c: CandidateModel) -> bool {
    exists|h: HookName| serves(c, h)
}

pub open spec fn candidates_view(d: Seq<Candidate>) -> Seq<CandidateModel> {
    d.map_values(|c: Candidate| c@)
}

/// Some candidate in `cs` is selected.
pub open spec fn any_selected(cs: Seq<CandidateModel>) -> bool {
    exists|i: int| 0 <= i < cs.len() && selected(#[trigger] cs[i])
}

/// Some selected candidate in `cs` is empty.
pub open spec fn any_selected_empty(cs: Seq<CandidateModel>) -> bool {
    exists|i: int| 0 <= i < cs.len() && selected(#[trigger] cs[i]) && cs[i].2.len() == 0
}

/// The error that the user hooks directory `dir` gives, if any.
pub open spec fn user_hooks_error(dir: Option<Seq<CandidateModel>>) -> Option<HookError> {
    match dir {
        None => Some(HookError::UserHooksNotFound),
        Some(cs) => if !any_selected(cs) {
            Some(HookError::UserHooksNotFound)
        } else if any_selected_empty(cs) {
            Some(HookError::EmptyUserHook)
        } else {
            None
        },
    }
}

/// The content of the first candidate that serves hook `h`.
pub open spec fn user_script_for(cs: Seq<CandidateModel>, h: HookName) -> Option<Seq<u8>>
    decreases cs.len(),
{
    if cs.len() == 0 {
        None
    } else if serves(cs[0], h) {
        Some(cs[0].2)
    } else {
        user_script_for(cs.drop_first(), h)
    }
}

/// The lines `ls` with the banner `b` as third line, or after the last line
/// when there are fewer than two.
pub open spec fn with_banner_line(ls: Seq<Seq<u8>>, b: Seq<u8>) -> Seq<Seq<u8>> {
    if ls.len() >= 2 {
        ls.take(2) + seq![b] + ls.skip(2)
    } else {
        ls.push(b)
    }
}

/// A user script as it is installed: its lines, with the banner of `version`.
pub open spec fn stamped(u: Seq<u8>, version: Seq<u8>) -> Seq<u8> {
    text_of(with_banner_line(lines_of(u), banner_line(version)))
}

/// Checks the user hooks directory (`None`: there is none).
pub fn check_user_hooks(dir: Option<&Vec<Candidate>>) -> (r: Option<HookError>)
    ensures
        r == user_hooks_error(
            match dir {
                Some(d) => Some(candidates_view(d@)),
                None => None,
            },
        ),
{
    let d = match dir {
        None => {
            return Some(HookError::UserHooksNotFound);
        },
        Some(d) => d,
    };
    let ghost cs = candidates_view(d@);
    let mut any = false;
    let mut empty = false;
    let mut i: usize = 0;
    while i < d.len()
        invariant
            i <= d@.len(),
            cs == candidates_view(d@),
            any == exists|j: int| 0 <= j < i && selected(#[trigger] cs[j]),
            empty == exists|j: int| 0 <= j < i && selected(#[trigger] cs[j]) && cs[j].2.len() == 0,
        decreases d@.len() - i,
    {
        let c = &d[i];
        let hit = c.executable && HookName::from_file_name(c.name.as_slice()).is_some();
        proof {
            assert(cs[i as int] == c@);
            if c.executable && hit {
                let h = choose|h: HookName| hook_file_name(h) == c.name@;
                assert(serves(c@, h));
            }
        }
        assert(hit == selected(cs[i as int]));
        if hit {
            any = true;
            if c.content.len() == 0 {
                empty = true;
            }
        }
        i = i + 1;
    }
    assert(any == any_selected(cs));
    assert(empty == any_selected_empty(cs));
    if !any {
        Some(HookError::UserHooksNotFound)
    } else if empty {
        Some(HookError::EmptyUserHook)
    } else {
        None
    }
}

/// The content of the first candidate that serves hook `h`.
pub fn find_user_script(d: &Vec<Candidate>, h: HookName) -> (r: Option<&Vec<u8>>)
    ensures
        match r {
            Some(u) => user_script_for(candidates_view(d@), h) == Some(u@),
            None => user_script_for(candidates_view(d@), h).is_none(),
        },
{
    let ghost cs = candidates_view(d@);
    let name = h.file_name().as_bytes();
    let mut i: usize = 0;
    assert(cs.skip(0) =~= cs);
    while i < d.len()
        invariant
            i <= d@.len(),
            cs == candidates_view(d@),
            name@ == hook_file_name(h),
            user_script_for(cs, h) == user_script_for(cs.skip(i as int), h),
        decreases d@.len() - i,
    {
        let c = &d[i];
        assert(cs.skip(i as int)[0] == c@);
        assert(cs.skip(i as int).drop_first() =~= cs.skip(i + 1));
        if c.executable && crate::text::bytes_eq(c.name.as_slice(), name) {
            return Some(&c.content);
        }
        i = i + 1;
    }
    None
}

/// The user script `u` with the banner of `version` as its third line.
pub fn stamp(u: &[u8], version: &ToolVersion) -> (r: Vec<u8>)
    ensures
        r@ == stamped(u@, version.text@),
{
    let ghost ls = lines_of(u@);
    let ghost b = banner_line(version.text@);
    let bl = banner(version);
    let mut out: Vec<u8> = Vec::new();
    let ghost mut acc: Seq<Seq<u8>> = Seq::empty();
    let mut pos: usize = 0;
    let mut j: usize = 0;
    assert(u@.skip(0) =~= u@);
    while pos < u.len()
        invariant
            pos <= u@.len(),
            u@.len() == u.len(),
            j <= ls.len(),
            j <= pos,
            ls == lines_of(u@),
            bl@ == b,
            lines_of(u@.skip(pos as int)) == ls.skip(j as int),
            out@ == text_of(acc),
            acc == (if j >= 2 {
                ls.take(2) + seq![b] + ls.subrange(2, j as int)
            } else {
                ls.take(j as int)
            }),
        decreases u@.len() - pos,
    {
        let ghost rest = u@.skip(pos as int);
        let k = find_newline(u, pos);
        let line = crate::text::copy_range(u, pos, k);
        proof {
            lemma_first_index_bounds(rest, NEWLINE);
            assert(rest.len() > 0);
            if first_newline(rest) >= rest.len() {
                assert(rest.take(rest.len() as int) =~= rest);
            }
            assert(rest.take(first_newline(rest) as int) =~= line@);
            assert(lines_of(rest).len() >= 1);
            assert(lines_of(rest)[0] == line@);
            assert(ls.skip(j as int).len() >= 1);
            assert(ls.skip(j as int)[0] == line@);
            assert(ls[j as int] == line@);
        }
        push_line(&mut out, line.as_slice());
        proof {
            lemma_text_of_push(acc, line@);
            acc = acc.push(line@);
        }
        let ghost old_j = j;
        if k < u.len() {
            pos = k + 1;
            assert(rest.skip(first_newline(rest) + 1int) =~= u@.skip(pos as int));
        } else {
            pos = u.len();
            assert(ls.skip(old_j as int).len() == 1);
            assert(u@.skip(pos as int) =~= Seq::<u8>::empty());
        }
        assert(ls.skip(old_j as int).drop_first() =~= ls.skip(old_j + 1));
        j = j + 1;
        if j == 2 {
            push_line(&mut out, bl.as_slice());
            proof {
                lemma_text_of_push(acc, b);
                acc = acc.push(b);
            }
        }
        proof {
            if j >= 2 {
                assert(acc =~= ls.take(2) + seq![b] + ls.subrange(2, j as int));
            } else {
                assert(acc =~= ls.take(j as int));
            }
        }
    }
    assert(j == ls.len()) by {
        assert(u@.skip(pos as int) =~= Seq::<u8>::empty());
        assert(ls.skip(j as int).len() == 0);
    }
    if j < 2 {
        push_line(&mut out, bl.as_slice());
        proof {
            lemma_text_of_push(acc, b);
            acc = acc.push(b);
            assert(acc =~= ls.push(b));
        }
    } else {
        assert(acc =~= ls.take(2) + seq![b] + ls.skip(2));
    }
    out
}

} // verus!
