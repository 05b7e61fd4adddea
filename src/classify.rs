//! Telling apart a missing hook, a foreign one, and one that this tool wrote.
use vstd::prelude::*;
use crate::script::{banner_line, banner_prefix, banner_suffix};
use crate::text::{
    copy_range, find_byte, first_index, holds_at, lacks, lemma_first_index_after, third_line,
    third_line_range,
};
use crate::version::{semver_parse, Version, VersionModel};

verus! {

/// The byte `b':'`, which ends the version in a banner.
pub const COLON: u8 = 58;

/// The version text of a banner line: what follows the banner's prefix, up to
/// the first colon.
pub open spec fn banner_version_of(l: Seq<u8>) -> Option<Seq<u8>> {
    let p = banner_prefix().len() as int;
    if l.len() >= p && l.take(p) == banner_prefix() && first_index(l.skip(p), COLON) < l.len()
        - p {
        Some(l.skip(p).take(first_index(l.skip(p), COLON) as int))
    } else {
        None
    }
}

/// The version text stamped on the third line of `c`, if that line is a banner.
pub open spec fn banner_version(c: Seq<u8>) -> Option<Seq<u8>> {
    match third_line(c) {
        Some(l) => banner_version_of(l),
        None => None,
    }
}

/// The version of this tool that wrote `c`, if `c` carries a banner with a
/// version that parses.
pub open spec fn owner_version(c: Seq<u8>) -> Option<VersionModel> {
    match banner_version(c) {
        Some(t) => semver_parse(t),
        None => None,
    }
}

/// What stands at a hook's path.
pub enum Installed {
    /// No file.
    Absent,
    /// A file that this tool did not write, or whose banner does not parse.
    Foreign,
    /// A file that this tool wrote at the given version.
    Owned(Version),
}

/// Classifies the content at a hook's path (`None`: no file there).
pub fn classify(content: Option<&[u8]>) -> (r: Installed)
    ensures
        match content {
            None => r is Absent,
            Some(c) => match owner_version(c@) {
                Some(v) => r is Owned && r->Owned_0@ == v,
                None => r is Foreign,
            },
        },
{
    let c = match content {
        None => {
            return Installed::Absent;
        },
        Some(c) => c,
    };
    let (s, e) = match third_line_range(c) {
        None => {
            return Installed::Foreign;
        },
        Some(range) => range,
    };
    let ghost l = c@.subrange(s as int, e as int);
    let prefix = "# This hook was set by cargo-husky v".as_bytes();
    let ghost p = prefix@.len() as int;
    if prefix.len() > e - s || !holds_at(c, s, prefix) {
        proof {
            if l.len() >= p {
                assert(l.take(p) =~= c@.subrange(s as int, s + p));
            }
        }
        return Installed::Foreign;
    }
    let vs = s + prefix.len();
    let k = find_byte(c, vs, e, COLON);
    assert(l.take(p) =~= c@.subrange(s as int, vs as int));
    assert(l.skip(p) =~= c@.subrange(vs as int, e as int));
    if k >= e {
        return Installed::Foreign;
    }
    let text = copy_range(c, vs, k);
    assert(l.skip(p).take(first_index(l.skip(p), COLON) as int) =~= text@);
    match Version::parse(text.as_slice()) {
        Some(v) => Installed::Owned(v),
        None => Installed::Foreign,
    }
}

/// A banner line gives back the version it was made with.
pub proof fn lemma_banner_version_of_banner(v: Seq<u8>)
    requires
        lacks(v, COLON),
    ensures
        banner_version_of(banner_line(v)) == Some(v),
{
    crate::script::lemma_fixed_lines_single();
    let l = banner_line(v);
    let p = banner_prefix().len() as int;
    assert(l.take(p) =~= banner_prefix());
    let rest = l.skip(p);
    let tail = banner_suffix().drop_first();
    assert(rest =~= v + seq![COLON] + tail);
    lemma_first_index_after(v, COLON, tail);
    assert(rest.take(v.len() as int) =~= v);
}

} // verus!
