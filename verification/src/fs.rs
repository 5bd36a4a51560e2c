//! Paths as a file system that is rooted in a directory takes them: cut into
//! their segments and freed of what cannot stand in a name.
use crate::text::{char_len, find_sep, first_sep, is_sep, lemma_first_sep, slice, split_path as segments_of};
use vstd::prelude::*;
use vstd::string::*;

verus! {

/// A character that counts as white space.
pub open spec fn is_white_space(c: char) -> bool {
    let n = c as u32;
    ||| 0x09 <= n <= 0x0d
    ||| n == 0x20
    ||| n == 0x85
    ||| n == 0xa0
    ||| n == 0x1680
    ||| 0x2000 <= n <= 0x200a
    ||| n == 0x2028
    ||| n == 0x2029
    ||| n == 0x202f
    ||| n == 0x205f
    ||| n == 0x3000
}

/// A text that holds nothing but white space.
pub open spec fn is_blank(s: Seq<char>) -> bool {
    forall|i: int| 0 <= i < s.len() ==> is_white_space(#[trigger] s[i])
}

/// A text without its colons.
pub open spec fn without_colons(s: Seq<char>) -> Seq<char> {
    s.filter(|c: char| c != ':')
}

/// The segments of the texts that are not blank, each without its colons,
/// in their order.
pub open spec fn cleaned(pieces: Seq<Seq<char>>) -> Seq<Seq<char>>
    decreases pieces.len(),
{
    if pieces.len() == 0 {
        Seq::<Seq<char>>::empty()
    } else if is_blank(pieces[0]) {
        cleaned(pieces.drop_first())
    } else {
        seq![without_colons(pieces[0])] + cleaned(pieces.drop_first())
    }
}

/// Whether a character separates the segments of a path.
pub fn split_path(chr: char) -> (r: bool)
    ensures
        r == is_sep(chr),
{
    chr == '\\' || chr == '/'
}

/// Whether a character counts as white space.
fn white_space(c: char) -> (r: bool)
    ensures
        r == is_white_space(c),
{
    let n = c as u32;
    (0x09 <= n && n <= 0x0d) || n == 0x20 || n == 0x85 || n == 0xa0 || n == 0x1680 || (0x2000 <= n
        && n <= 0x200a) || n == 0x2028 || n == 0x2029 || n == 0x202f || n == 0x205f || n == 0x3000
}

/// Whether a text holds nothing but white space.
fn blank(s: &str) -> (r: bool)
    ensures
        r == is_blank(s@),
{
    for c in it: s.chars()
        invariant
            it.seq() == s@,
            forall|i: int| 0 <= i < it.index() ==> is_white_space(#[trigger] s@[i]),
    {
        if !white_space(c) {
            return false;
        }
    }
    true
}

/// The text without its colons.
fn remove_colons(s: &str) -> (r: String)
    ensures
        r@ == without_colons(s@),
{
    let n = char_len(s);
    let ghost keep = |c: char| c != ':';
    let mut r = String::new();
    let mut from: usize = 0;
    let mut i: usize = 0;
    proof {
        reveal(Seq::filter);
        assert(s@.take(0) =~= Seq::<char>::empty());
    }
    // `r` holds what stands before `from` without its colons; what stands
    // from there up to `i` holds no colon.
    for c in it: s.chars()
        invariant
            it.seq() == s@,
            n == s@.len(),
            i == it.index(),
            from <= i,
            keep == |c: char| c != ':',
            r@ + s@.subrange(from as int, i as int) == s@.take(i as int).filter(keep),
    {
        proof {
            reveal(Seq::filter);
            let now = s@.take(i + 1);
            assert(now.drop_last() =~= s@.take(i as int));
            assert(now.last() == c);
        }
        if c == ':' {
            r.append(slice(s, from, i));
            from = i + 1;
            assert(s@.subrange(from as int, from as int) =~= Seq::<char>::empty());
            assert(r@ + s@.subrange(from as int, from as int) =~= r@);
        } else {
            assert(s@.subrange(from as int, i + 1) =~= s@.subrange(from as int, i as int).push(c));
            assert(r@ + s@.subrange(from as int, i as int).push(c) =~= (r@ + s@.subrange(
                from as int,
                i as int,
            )).push(c));
        }
        i = i + 1;
    }
    r.append(slice(s, from, n));
    assert(s@.take(n as int) =~= s@);
    r
}

/// The segments of one component of a path as they are put below the
/// root: the component is cut at its separators, segments that are blank
/// are left out, and colons are taken out of the others.
pub fn normalize_prefix(component: &str) -> (r: Vec<String>)
    ensures
        r@.map_values(|s: String| s@) == cleaned(segments_of(component@)),
{
    let mut r: Vec<String> = Vec::new();
    let mut rest: &str = component;
    let ghost mut done: Seq<Seq<char>> = Seq::empty();
    loop
        invariant
            r@.map_values(|s: String| s@) == done,
            done + cleaned(segments_of(rest@)) == cleaned(segments_of(component@)),
        decreases rest@.len(),
    {
        let n = char_len(rest);
        let i = find_sep(rest);
        let piece = slice(rest, 0, i);
        proof {
            lemma_first_sep(rest@);
        }
        let ghost pieces = segments_of(rest@);
        let ghost before = done;
        if !blank(piece) {
            let ghost old_r = r@;
            r.push(remove_colons(piece));
            proof {
                done = done.push(without_colons(piece@));
                assert(r@.map_values(|s: String| s@) =~= old_r.map_values(|s: String| s@).push(
                    without_colons(piece@),
                ));
            }
        }
        if i >= n {
            proof {
                assert(piece@ =~= rest@);
                assert(pieces =~= seq![rest@]);
                assert(pieces.drop_first() =~= Seq::<Seq<char>>::empty());
                assert(cleaned(pieces.drop_first()) =~= Seq::<Seq<char>>::empty());
                assert(done =~= before + cleaned(pieces));
            }
            return r;
        }
        proof {
            let tail = segments_of(rest@.skip(i + 1));
            assert(pieces =~= seq![rest@.take(i as int)] + tail);
            assert(pieces[0] == piece@);
            assert(pieces.drop_first() =~= tail);
            assert(before + cleaned(pieces) =~= done + cleaned(tail));
        }
        rest = slice(rest, i + 1, n);
    }
}

} // verus!
