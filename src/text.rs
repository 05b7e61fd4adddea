//! Byte-level line model of a hook script: splitting content into lines and
//! joining lines back into content.
use vstd::prelude::*;

verus! {

/// The line terminator, `b'\n'`.
pub const NEWLINE: u8 = 10;

/// Offset of the first `b` in `c`, or `c.len()` when there is none.
pub open spec fn first_index(c: Seq<u8>, b: u8) -> nat
    decreases c.len(),
{
    if c.len() == 0 {
        0
    } else if c[0] == b {
        0
    } else {
        1 + first_index(c.drop_first(), b)
    }
}

/// Offset of the first newline in `c`, or `c.len()` when there is none.
pub open spec fn first_newline(c: Seq<u8>) -> nat {
    first_index(c, NEWLINE)
}

pub open spec fn lacks(l: Seq<u8>, b: u8) -> bool {
    forall|i: int| 0 <= i < l.len() ==> l[i] != b
}

/// The lines of `c`, split at each newline. As with `str::lines`, a final
/// newline does not start an extra empty line.
pub open spec fn lines_of(c: Seq<u8>) -> Seq<Seq<u8>>
    decreases c.len(),
{
    if c.len() == 0 {
        Seq::empty()
    } else if first_newline(c) >= c.len() {
        seq![c]
    } else {
        let k = first_newline(c) as int;
        seq![c.take(k)] + lines_of(c.skip(k + 1))
    }
}

/// Each line followed by a newline, concatenated.
pub open spec fn text_of(ls: Seq<Seq<u8>>) -> Seq<u8>
    decreases ls.len(),
{
    if ls.len() == 0 {
        Seq::empty()
    } else {
        ls[0] + seq![NEWLINE] + text_of(ls.drop_first())
    }
}

pub open spec fn no_newline(l: Seq<u8>) -> bool {
    lacks(l, NEWLINE)
}

pub open spec fn all_single_lines(ls: Seq<Seq<u8>>) -> bool {
    forall|j: int| 0 <= j < ls.len() ==> no_newline(#[trigger] ls[j])
}

/// The third line of `c`, if it has one.
pub open spec fn third_line(c: Seq<u8>) -> Option<Seq<u8>> {
    if lines_of(c).len() >= 3 {
        Some(lines_of(c)[2])
    } else {
        None
    }
}

pub proof fn lemma_first_index_bounds(c: Seq<u8>, b: u8)
    ensures
        first_index(c, b) <= c.len(),
        first_index(c, b) < c.len() ==> c[first_index(c, b) as int] == b,
        lacks(c.take(first_index(c, b) as int), b),
    decreases c.len(),
{
    if c.len() > 0 && c[0] != b {
        lemma_first_index_bounds(c.drop_first(), b);
        let k = first_index(c, b) as int;
        assert forall|i: int| 0 <= i < k implies c.take(k)[i] != b by {
            if i > 0 {
                assert(c.take(k)[i] == c.drop_first().take(k - 1)[i - 1]);
            }
        }
    }
}

pub proof fn lemma_first_index_after(a: Seq<u8>, b: u8, rest: Seq<u8>)
    requires
        lacks(a, b),
    ensures
        first_index(a + seq![b] + rest, b) == a.len(),
    decreases a.len(),
{
    let c = a + seq![b] + rest;
    if a.len() > 0 {
        assert(c.drop_first() =~= a.drop_first() + seq![b] + rest);
        lemma_first_index_after(a.drop_first(), b, rest);
    }
}

/// Every line that `lines_of` gives is free of newlines.
pub proof fn lemma_lines_are_single(c: Seq<u8>)
    ensures
        all_single_lines(lines_of(c)),
    decreases c.len(),
{
    if c.len() > 0 {
        lemma_first_index_bounds(c, NEWLINE);
        if first_newline(c) < c.len() {
            let k = first_newline(c) as int;
            lemma_lines_are_single(c.skip(k + 1));
            let ls = lines_of(c);
            assert forall|j: int| 0 <= j < ls.len() implies no_newline(#[trigger] ls[j]) by {
                if j > 0 {
                    assert(ls[j] == lines_of(c.skip(k + 1))[j - 1]);
                } else {
                    assert(ls[j] == c.take(k));
                }
            }
        } else {
            assert(c.take(c.len() as int) =~= c);
            assert(lines_of(c)[0] == c);
        }
    }
}

/// Splitting the text of newline-free lines gives those lines back.
pub proof fn lemma_lines_of_text(ls: Seq<Seq<u8>>)
    requires
        all_single_lines(ls),
    ensures
        lines_of(text_of(ls)) == ls,
    decreases ls.len(),
{
    if ls.len() > 0 {
        let rest = ls.drop_first();
        assert(all_single_lines(rest)) by {
            assert forall|j: int| 0 <= j < rest.len() implies no_newline(#[trigger] rest[j]) by {
                assert(rest[j] == ls[j + 1]);
            }
        }
        lemma_lines_of_text(rest);
        let c = text_of(ls);
        assert(no_newline(ls[0]));
        lemma_first_index_after(ls[0], NEWLINE, text_of(rest));
        let k = ls[0].len() as int;
        assert(c.take(k) =~= ls[0]);
        assert(c.skip(k + 1) =~= text_of(rest));
        assert(lines_of(c) =~= ls);
    }
}

pub proof fn lemma_text_of_append(a: Seq<Seq<u8>>, b: Seq<Seq<u8>>)
    ensures
        text_of(a + b) == text_of(a) + text_of(b),
    decreases a.len(),
{
    if a.len() == 0 {
        assert(a + b =~= b);
        assert(text_of(a) + text_of(b) =~= text_of(b));
    } else {
        assert((a + b).drop_first() =~= a.drop_first() + b);
        lemma_text_of_append(a.drop_first(), b);
        assert(text_of(a + b) =~= text_of(a) + text_of(b));
    }
}

pub proof fn lemma_text_of_one(l: Seq<u8>)
    ensures
        text_of(seq![l]) == l + seq![NEWLINE],
{
    assert(seq![l].drop_first() =~= Seq::<Seq<u8>>::empty());
    assert(text_of(Seq::<Seq<u8>>::empty()) == Seq::<u8>::empty());
    assert(text_of(seq![l]) =~= l + seq![NEWLINE]);
}

pub proof fn lemma_text_of_push(ls: Seq<Seq<u8>>, l: Seq<u8>)
    ensures
        text_of(ls.push(l)) == text_of(ls) + l + seq![NEWLINE],
{
    lemma_text_of_append(ls, seq![l]);
    lemma_text_of_one(l);
    assert(ls + seq![l] =~= ls.push(l));
    assert(text_of(ls) + (l + seq![NEWLINE]) =~= text_of(ls) + l + seq![NEWLINE]);
}

/// Offset of the first `b` in `c[start..end]`, or `end` when there is none.
pub fn find_byte(c: &[u8], start: usize, end: usize, b: u8) -> (r: usize)
    requires
        start <= end <= c@.len(),
    ensures
        r == start + first_index(c@.subrange(start as int, end as int), b),
        r <= end,
{
    let mut i: usize = start;
    while i < end && c[i] != b
        invariant
            start <= i <= end <= c@.len(),
            first_index(c@.subrange(start as int, end as int), b) == (i - start) + first_index(
                c@.subrange(i as int, end as int),
                b,
            ),
        decreases end - i,
    {
        assert(c@.subrange(i as int, end as int).drop_first() =~= c@.subrange(i + 1, end as int));
        i = i + 1;
    }
    proof {
        lemma_first_index_bounds(c@.subrange(start as int, end as int), b);
    }
    i
}

/// Offset of the first newline at or after `start`, or `c.len()`.
pub fn find_newline(c: &[u8], start: usize) -> (r: usize)
    requires
        start <= c@.len(),
    ensures
        r == start + first_newline(c@.skip(start as int)),
        r <= c@.len(),
{
    assert(c@.subrange(start as int, c@.len() as int) =~= c@.skip(start as int));
    find_byte(c, start, c.len(), NEWLINE)
}

/// Whether `a` and `b` hold the same bytes.
pub fn bytes_eq(a: &[u8], b: &[u8]) -> (r: bool)
    ensures
        r == (a@ == b@),
{
    if a.len() != b.len() {
        return false;
    }
    let r = holds_at(a, 0, b);
    assert(a@.subrange(0, b@.len() as int) =~= a@);
    r
}

/// Where the third line of `c` starts and ends, if `c` has a third line.
pub fn third_line_range(c: &[u8]) -> (r: Option<(usize, usize)>)
    ensures
        match r {
            Some((s, e)) => s <= e <= c@.len() && third_line(c@) == Some(c@.subrange(
                s as int,
                e as int,
            )),
            None => third_line(c@).is_none(),
        },
{
    let ghost c0 = c@;
    if c.len() == 0 {
        return None;
    }
    let k0 = find_newline(c, 0);
    assert(c0.skip(0) =~= c0);
    if k0 >= c.len() {
        return None;
    }
    let s1 = k0 + 1;
    let ghost c1 = c0.skip(s1 as int);
    assert(lines_of(c0) == seq![c0.take(k0 as int)] + lines_of(c1));
    let k1 = find_newline(c, s1);
    if k1 >= c.len() {
        assert(c1.len() == 0 || first_newline(c1) >= c1.len());
        assert(lines_of(c1).len() <= 1);
        return None;
    }
    let s2 = k1 + 1;
    let ghost c2 = c0.skip(s2 as int);
    assert(c1.skip(first_newline(c1) + 1int) =~= c2);
    assert(lines_of(c1) == seq![c1.take(first_newline(c1) as int)] + lines_of(c2));
    if s2 >= c.len() {
        assert(c2.len() == 0);
        return None;
    }
    let k2 = find_newline(c, s2);
    proof {
        lemma_first_index_bounds(c2, NEWLINE);
        if first_newline(c2) >= c2.len() {
            assert(c2.take(first_newline(c2) as int) =~= c2);
        }
        assert(lines_of(c2)[0] == c2.take(first_newline(c2) as int));
        assert(c2.take(first_newline(c2) as int) =~= c0.subrange(s2 as int, k2 as int));
        assert(lines_of(c0)[2] == lines_of(c2)[0]);
    }
    Some((s2, k2))
}

/// Whether `c` holds `pat` at offset `at`.
pub fn holds_at(c: &[u8], at: usize, pat: &[u8]) -> (r: bool)
    requires
        at <= c@.len(),
    ensures
        r == (at + pat@.len() <= c@.len() && c@.subrange(at as int, at + pat@.len()) == pat@),
{
    if pat.len() > c.len() - at {
        return false;
    }
    let mut i: usize = 0;
    while i < pat.len()
        invariant
            i <= pat@.len(),
            at + pat@.len() <= c@.len(),
            c@.len() == c.len(),
            forall|j: int| 0 <= j < i ==> c@[at + j] == pat@[j],
        decreases pat@.len() - i,
    {
        if c[at + i] != pat[i] {
            assert(c@.subrange(at as int, at + pat@.len())[i as int] != pat@[i as int]);
            return false;
        }
        i = i + 1;
    }
    assert(c@.subrange(at as int, at + pat@.len()) =~= pat@);
    true
}

/// Copies `c[s..e]` into a new vector.
pub fn copy_range(c: &[u8], s: usize, e: usize) -> (r: Vec<u8>)
    requires
        s <= e <= c@.len(),
    ensures
        r@ == c@.subrange(s as int, e as int),
{
    let mut r: Vec<u8> = Vec::new();
    let mut i: usize = s;
    while i < e
        invariant
            s <= i <= e <= c@.len(),
            r@ == c@.subrange(s as int, i as int),
        decreases e - i,
    {
        r.push(c[i]);
        assert(r@ =~= c@.subrange(s as int, i + 1));
        i = i + 1;
    }
    r
}

/// Appends `line` and a newline to `out`.
pub fn push_line(out: &mut Vec<u8>, line: &[u8])
    ensures
        final(out)@ == old(out)@ + line@ + seq![NEWLINE],
{
    out.extend_from_slice(line);
    out.push(NEWLINE);
}

} // verus!
