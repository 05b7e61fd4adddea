//! Paths inside a repository, as bytes with `/` between components.
use vstd::prelude::*;
use vstd::string::StringSliceAdditionalSpecFns;
use crate::hook::{hook_file_name, HookName};

verus! {

/// The byte `b'/'`.
pub const SLASH: u8 = 47;

/// `name` under `dir`, with one separator between them unless `dir` is empty
/// or already ends with one.
pub open spec fn joined(dir: Seq<u8>, name: Seq<u8>) -> Seq<u8> {
    if dir.len() == 0 || dir.last() == SLASH {
        dir + name
    } else {
        dir + seq![SLASH] + name
    }
}

/// The path of hook `h` in the repository at `root`: `root/.git/hooks/<h>`.
pub open spec fn hook_path_of(root: Seq<u8>, h: HookName) -> Seq<u8> {
    joined(joined(joined(root, ".git".spec_bytes()), "hooks".spec_bytes()), hook_file_name(h))
}

/// `name` under `dir`.
pub fn join_path(dir: &[u8], name: &[u8]) -> (r: Vec<u8>)
    ensures
        r@ == joined(dir@, name@),
{
    let mut r: Vec<u8> = Vec::new();
    r.extend_from_slice(dir);
    if dir.len() > 0 && dir[dir.len() - 1] != SLASH {
        r.push(SLASH);
    }
    r.extend_from_slice(name);
    r
}

/// The path of hook `h` in the repository at `root`.
pub fn hook_path(root: &[u8], h: HookName) -> (r: Vec<u8>)
    ensures
        r@ == hook_path_of(root@, h),
{
    let git = join_path(root, ".git".as_bytes());
    let hooks = join_path(git.as_slice(), "hooks".as_bytes());
    join_path(hooks.as_slice(), h.file_name().as_bytes())
}

/// The scratch directory called `name` under `root`, where new hook scripts
/// are put together before they are moved into place.
pub fn tmpdir_for(root: &[u8], name: &[u8]) -> (r: Vec<u8>)
    ensures
        r@ == joined(root@, name@),
{
    join_path(root, name)
}

} // verus!
