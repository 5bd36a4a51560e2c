//! Verified primitives on text: ordering, prefixes, separators and slicing.
//!
//! Text is modelled as `Seq<char>`, the view of `str` and `String`. All
//! positions are counted in characters.
use vstd::prelude::*;
use vstd::std_specs::iter::IteratorSpec;
use vstd::string::*;

verus! {

/// How one text stands to another in the lexicographic order by code point.
#[derive(Clone, Copy, Debug, PartialEq, Eq, Structural)]
pub enum Order3 {
    Less,
    Equal,
    Greater,
}

/// `a` comes strictly before `b` in the lexicographic order by code point:
/// at the first position where they part, `a` has ended or holds the smaller
/// character.
pub open spec fn lex_lt(a: Seq<char>, b: Seq<char>) -> bool {
    exists|k: int| #[trigger] parts_at(a, b, k)
}

/// `a` and `b` agree on their first `k` characters, and at position `k`
/// either `a` ends while `b` goes on, or `a` holds the smaller character.
pub open spec fn parts_at(a: Seq<char>, b: Seq<char>, k: int) -> bool {
    &&& 0 <= k <= a.len()
    &&& k < b.len()
    &&& a.take(k) == b.take(k)
    &&& (k == a.len() || a[k] < b[k])
}

/// The names of a sequence stand in strictly increasing order.
pub open spec fn strictly_sorted(names: Seq<Seq<char>>) -> bool {
    forall|i: int, j: int| 0 <= i < j < names.len() ==> lex_lt(#[trigger] names[i], #[trigger] names[j])
}

/// `suffix` is what `s` ends with.
pub open spec fn is_suffix_of(suffix: Seq<char>, s: Seq<char>) -> bool {
    suffix.len() <= s.len() && s.skip(s.len() - suffix.len()) == suffix
}

/// Either of the two characters that separate the segments of a path.
pub open spec fn is_sep(c: char) -> bool {
    c == '/' || c == '\\'
}

/// The position of the first separator of `s`, or the length of `s` where it
/// holds none.
pub open spec fn first_sep(s: Seq<char>) -> int
    decreases s.len(),
{
    if s.len() == 0 {
        0
    } else if is_sep(s[0]) {
        0
    } else {
        1 + first_sep(s.drop_first())
    }
}

/// The position of the first occurrence of `c` in `s`, or the length of `s`
/// where `c` does not occur.
pub open spec fn first_index_of(s: Seq<char>, c: char) -> int
    decreases s.len(),
{
    if s.len() == 0 {
        0
    } else if s[0] == c {
        0
    } else {
        1 + first_index_of(s.drop_first(), c)
    }
}

/// The position after the last occurrence of `c` in `s`, or 0 where `c` does
/// not occur: where the final segment of `s` begins.
pub open spec fn after_last(s: Seq<char>, c: char) -> int
    decreases s.len(),
{
    if s.len() == 0 {
        0
    } else if s.last() == c {
        s.len() as int
    } else {
        after_last(s.drop_last(), c)
    }
}

/// The segments of a path: the pieces between its separators, in order. A
/// path with `k` separators has `k + 1` segments, some of which may be empty.
pub open spec fn split_path(s: Seq<char>) -> Seq<Seq<char>>
    decreases s.len(),
{
    let i = first_sep(s);
    if 0 <= i < s.len() {
        seq![s.take(i)] + split_path(s.skip(i + 1))
    } else {
        seq![s]
    }
}

/// No separator stands before the first separator, and one stands at its
/// position where that lies within the text.
pub proof fn lemma_first_sep(s: Seq<char>)
    ensures
        0 <= first_sep(s) <= s.len(),
        forall|j: int| 0 <= j < first_sep(s) ==> !is_sep(#[trigger] s[j]),
        first_sep(s) < s.len() ==> is_sep(s[first_sep(s)]),
    decreases s.len(),
{
    if s.len() > 0 && !is_sep(s[0]) {
        let t = s.drop_first();
        lemma_first_sep(t);
        assert forall|j: int| 0 <= j < first_sep(s) implies !is_sep(#[trigger] s[j]) by {
            if j > 0 {
                assert(s[j] == t[j - 1]);
            }
        }
        if first_sep(s) < s.len() {
            assert(s[first_sep(s)] == t[first_sep(t)]);
        }
    }
}

/// A position before which no separator stands, and which is the end of the
/// text or holds a separator, is the position of the first separator.
pub proof fn lemma_first_sep_is(s: Seq<char>, i: int)
    requires
        0 <= i <= s.len(),
        forall|j: int| 0 <= j < i ==> !is_sep(#[trigger] s[j]),
        i < s.len() ==> is_sep(s[i]),
    ensures
        first_sep(s) == i,
{
    lemma_first_sep(s);
    let f = first_sep(s);
    if f < i {
        assert(!is_sep(s[f]));
    } else if f > i {
        assert(!is_sep(s[i]));
    }
}

/// The character does not occur before its first occurrence, and occurs at
/// that position where it lies within the text.
pub proof fn lemma_first_index_of(s: Seq<char>, c: char)
    ensures
        0 <= first_index_of(s, c) <= s.len(),
        forall|j: int| 0 <= j < first_index_of(s, c) ==> #[trigger] s[j] != c,
        first_index_of(s, c) < s.len() ==> s[first_index_of(s, c)] == c,
    decreases s.len(),
{
    if s.len() > 0 && s[0] != c {
        let t = s.drop_first();
        lemma_first_index_of(t, c);
        assert forall|j: int| 0 <= j < first_index_of(s, c) implies #[trigger] s[j] != c by {
            if j > 0 {
                assert(s[j] == t[j - 1]);
            }
        }
        if first_index_of(s, c) < s.len() {
            assert(s[first_index_of(s, c)] == t[first_index_of(t, c)]);
        }
    }
}

/// A position before which the character does not occur, and which is the
/// end of the text or holds the character, is that of its first occurrence.
pub proof fn lemma_first_index_of_is(s: Seq<char>, c: char, i: int)
    requires
        0 <= i <= s.len(),
        forall|j: int| 0 <= j < i ==> #[trigger] s[j] != c,
        i < s.len() ==> s[i] == c,
    ensures
        first_index_of(s, c) == i,
{
    lemma_first_index_of(s, c);
    let f = first_index_of(s, c);
    if f < i {
        assert(s[f] != c);
    } else if f > i {
        assert(s[i] != c);
    }
}

/// The character does not occur from the position after its last
/// occurrence on, and occurs just before that position where it is not 0.
pub proof fn lemma_after_last(s: Seq<char>, c: char)
    ensures
        0 <= after_last(s, c) <= s.len(),
        forall|j: int| after_last(s, c) <= j < s.len() ==> #[trigger] s[j] != c,
        after_last(s, c) > 0 ==> s[after_last(s, c) - 1] == c,
    decreases s.len(),
{
    if s.len() > 0 && s.last() != c {
        let t = s.drop_last();
        lemma_after_last(t, c);
        assert forall|j: int| after_last(s, c) <= j < s.len() implies #[trigger] s[j] != c by {
            if j < s.len() - 1 {
                assert(s[j] == t[j]);
            }
        }
        if after_last(s, c) > 0 {
            assert(s[after_last(s, c) - 1] == t[after_last(t, c) - 1]);
        }
    }
}

/// A position from which on the character does not occur, and just before
/// which it occurs where the position is not 0, is that after its last
/// occurrence.
pub proof fn lemma_after_last_is(s: Seq<char>, c: char, i: int)
    requires
        0 <= i <= s.len(),
        forall|j: int| i <= j < s.len() ==> #[trigger] s[j] != c,
        i > 0 ==> s[i - 1] == c,
    ensures
        after_last(s, c) == i,
{
    lemma_after_last(s, c);
    let f = after_last(s, c);
    if f < i {
        assert(s[i - 1] != c);
    } else if f > i {
        assert(s[f - 1] != c);
    }
}

/// No text comes before itself.
pub proof fn lemma_lex_lt_irreflexive(a: Seq<char>)
    ensures
        !lex_lt(a, a),
{
    if lex_lt(a, a) {
        let k = choose|k: int| #[trigger] parts_at(a, a, k);
        assert(false);
    }
}

/// The order is transitive.
pub proof fn lemma_lex_lt_transitive(a: Seq<char>, b: Seq<char>, c: Seq<char>)
    requires
        lex_lt(a, b),
        lex_lt(b, c),
    ensures
        lex_lt(a, c),
{
    let k1 = choose|k: int| #[trigger] parts_at(a, b, k);
    let k2 = choose|k: int| #[trigger] parts_at(b, c, k);
    let k = if k1 <= k2 { k1 } else { k2 };
    assert(a.take(k) =~= c.take(k)) by {
        assert forall|i: int| 0 <= i < k implies a[i] == c[i] by {
            assert(a.take(k1)[i] == b.take(k1)[i]);
            assert(b.take(k2)[i] == c.take(k2)[i]);
        }
    }
    if k1 < k2 {
        assert(b.take(k2)[k1] == c.take(k2)[k1]);
    } else if k2 < k1 {
        assert(a.take(k1)[k2] == b.take(k1)[k2]);
    }
    assert(parts_at(a, c, k));
}

/// Two texts that agree up to `k` and part there cannot be equal, and the
/// side the smaller character is on decides the order.
pub proof fn lemma_lex_decided(a: Seq<char>, b: Seq<char>, k: int)
    requires
        parts_at(a, b, k),
    ensures
        lex_lt(a, b),
        !lex_lt(b, a),
        a != b,
{
    if lex_lt(b, a) {
        let j = choose|j: int| #[trigger] parts_at(b, a, j);
        if j < k {
            assert(a.take(k)[j] == b.take(k)[j]);
        } else if j > k {
            assert(b.take(j)[k] == a.take(j)[k]);
        }
        assert(false);
    }
}

/// The number of characters of `s`.
pub fn char_len(s: &str) -> (n: usize)
    ensures
        n == s@.len(),
{
    s.unicode_len()
}

/// The part of `s` from character `from` up to character `to`.
pub fn slice<'a>(s: &'a str, from: usize, to: usize) -> (r: &'a str)
    requires
        from <= to <= s@.len(),
    ensures
        r@ == s@.subrange(from as int, to as int),
{
    s.substring_char(from, to)
}

/// Compares two texts in the lexicographic order by code point.
pub fn str_order(a: &str, b: &str) -> (r: Order3)
    ensures
        r == Order3::Equal <==> a@ == b@,
        r == Order3::Less <==> lex_lt(a@, b@),
        r == Order3::Greater <==> lex_lt(b@, a@),
{
    let mut ia = a.chars();
    let mut ib = b.chars();
    let ghost mut k: int = 0;
    proof {
        lemma_lex_lt_irreflexive(a@);
    }
    loop
        invariant
            0 <= k <= a@.len(),
            k <= b@.len(),
            ia.remaining() == a@.skip(k),
            ib.remaining() == b@.skip(k),
            a@.take(k) == b@.take(k),
            ia.obeys_prophetic_iter_laws(),
            ib.obeys_prophetic_iter_laws(),
            ia.decrease() is Some,
            !lex_lt(a@, a@),
        decreases ia.decrease()->0,
    {
        let x = ia.next();
        let y = ib.next();
        match (x, y) {
            (None, None) => {
                assert(a@ == a@.take(k));
                assert(b@ == b@.take(k));
                return Order3::Equal;
            },
            (None, Some(_)) => {
                proof {
                    lemma_lex_decided(a@, b@, k);
                }
                return Order3::Less;
            },
            (Some(_), None) => {
                proof {
                    lemma_lex_decided(b@, a@, k);
                }
                return Order3::Greater;
            },
            (Some(c), Some(d)) => {
                assert(a@.skip(k)[0] == a@[k]);
                assert(b@.skip(k)[0] == b@[k]);
                if c < d {
                    proof {
                        lemma_lex_decided(a@, b@, k);
                    }
                    return Order3::Less;
                }
                if d < c {
                    proof {
                        lemma_lex_decided(b@, a@, k);
                    }
                    return Order3::Greater;
                }
                proof {
                    assert(a@.take(k + 1) == a@.take(k).push(a@[k]));
                    assert(b@.take(k + 1) == b@.take(k).push(b@[k]));
                    assert(a@.skip(k).drop_first() == a@.skip(k + 1));
                    assert(b@.skip(k).drop_first() == b@.skip(k + 1));
                    k = k + 1;
                }
            },
        }
    }
}

/// Whether two texts hold the same characters.
pub fn str_eq(a: &str, b: &str) -> (r: bool)
    ensures
        r == (a@ == b@),
{
    str_order(a, b) == Order3::Equal
}

/// Whether `s` begins with `prefix`.
pub fn starts_with(s: &str, prefix: &str) -> (r: bool)
    ensures
        r == prefix@.is_prefix_of(s@),
{
    let mut is = s.chars();
    let mut ip = prefix.chars();
    let ghost mut k: int = 0;
    loop
        invariant
            0 <= k <= s@.len(),
            k <= prefix@.len(),
            is.remaining() == s@.skip(k),
            ip.remaining() == prefix@.skip(k),
            s@.take(k) == prefix@.take(k),
            is.obeys_prophetic_iter_laws(),
            ip.obeys_prophetic_iter_laws(),
            ip.decrease() is Some,
        decreases ip.decrease()->0,
    {
        let y = ip.next();
        match y {
            None => {
                assert(prefix@ == prefix@.take(k));
                assert(s@.take(k) == s@.subrange(0, k));
                return true;
            },
            Some(d) => {
                let x = is.next();
                match x {
                    None => {
                        return false;
                    },
                    Some(c) => {
                        assert(s@.skip(k)[0] == s@[k]);
                        assert(prefix@.skip(k)[0] == prefix@[k]);
                        if c != d {
                            proof {
                                if prefix@.len() <= s@.len() {
                                    assert(s@.subrange(0, prefix@.len() as int)[k] == s@[k]);
                                }
                            }
                            return false;
                        }
                    },
                }
                proof {
                    assert(s@.take(k + 1) == s@.take(k).push(s@[k]));
                    assert(prefix@.take(k + 1) == prefix@.take(k).push(prefix@[k]));
                    assert(s@.skip(k).drop_first() == s@.skip(k + 1));
                    assert(prefix@.skip(k).drop_first() == prefix@.skip(k + 1));
                    k = k + 1;
                }
            },
        }
    }
}

/// The position of the first separator of `s`, or its length in characters
/// where it holds none.
pub fn find_sep(s: &str) -> (i: usize)
    ensures
        i == first_sep(s@),
        i <= s@.len(),
{
    let len = char_len(s);
    let mut i: usize = 0;
    for c in it: s.chars()
        invariant
            it.seq() == s@,
            len == s@.len(),
            i == it.index(),
            forall|j: int| 0 <= j < i ==> !is_sep(#[trigger] s@[j]),
    {
        if c == '/' || c == '\\' {
            proof {
                lemma_first_sep_is(s@, i as int);
            }
            return i;
        }
        i = i + 1;
    }
    proof {
        lemma_first_sep_is(s@, i as int);
    }
    i
}

/// Splits `s` at its first separator into what stands before it and what
/// stands after it; `None` where `s` holds no separator.
pub fn split_once_sep<'a>(s: &'a str) -> (r: Option<(&'a str, &'a str)>)
    ensures
        match r {
            Some((head, tail)) => {
                &&& 0 <= first_sep(s@) < s@.len()
                &&& head@ == s@.take(first_sep(s@))
                &&& tail@ == s@.skip(first_sep(s@) + 1)
            },
            None => first_sep(s@) == s@.len(),
        },
{
    let n = char_len(s);
    let i = find_sep(s);
    if i < n {
        Some((slice(s, 0, i), slice(s, i + 1, n)))
    } else {
        None
    }
}

/// Whether `s` ends with `suffix`.
pub fn ends_with(s: &str, suffix: &str) -> (r: bool)
    ensures
        r == is_suffix_of(suffix@, s@),
{
    let n = char_len(s);
    let m = char_len(suffix);
    if m > n {
        return false;
    }
    str_eq(slice(s, n - m, n), suffix)
}

/// The position of the first occurrence of `c` in `s`, or the length of `s`
/// in characters where `c` does not occur.
pub fn find_char(s: &str, c: char) -> (i: usize)
    ensures
        i == first_index_of(s@, c),
        i <= s@.len(),
{
    let len = char_len(s);
    let mut i: usize = 0;
    for d in it: s.chars()
        invariant
            it.seq() == s@,
            len == s@.len(),
            i == it.index(),
            forall|j: int| 0 <= j < i ==> #[trigger] s@[j] != c,
    {
        if d == c {
            proof {
                lemma_first_index_of_is(s@, c, i as int);
            }
            return i;
        }
        i = i + 1;
    }
    proof {
        lemma_first_index_of_is(s@, c, i as int);
    }
    i
}

/// The position after the last occurrence of `c` in `s`, or 0 where `c` does
/// not occur.
pub fn find_after_last(s: &str, c: char) -> (i: usize)
    ensures
        i == after_last(s@, c),
        i <= s@.len(),
{
    let len = char_len(s);
    let mut i: usize = 0;
    let mut n: usize = 0;
    for d in it: s.chars()
        invariant
            it.seq() == s@,
            len == s@.len(),
            n == it.index(),
            i <= n,
            forall|j: int| i <= j < n ==> #[trigger] s@[j] != c,
            i > 0 ==> s@[i - 1] == c,
    {
        n = n + 1;
        if d == c {
            i = n;
        }
    }
    proof {
        lemma_after_last_is(s@, c, i as int);
    }
    i
}

/// The character that stands for a decimal digit.
pub open spec fn digit_char(d: int) -> char {
    if d == 0 {
        '0'
    } else if d == 1 {
        '1'
    } else if d == 2 {
        '2'
    } else if d == 3 {
        '3'
    } else if d == 4 {
        '4'
    } else if d == 5 {
        '5'
    } else if d == 6 {
        '6'
    } else if d == 7 {
        '7'
    } else if d == 8 {
        '8'
    } else {
        '9'
    }
}

/// A number written in decimal, without sign or leading zeros.
pub open spec fn decimal(n: nat) -> Seq<char>
    decreases n,
{
    if n < 10 {
        seq![digit_char(n as int)]
    } else {
        decimal(n / 10).push(digit_char((n % 10) as int))
    }
}

/// `width` zeros.
pub open spec fn zeros(width: nat) -> Seq<char> {
    Seq::new(width, |i: int| '0')
}

/// A number written in decimal, with zeros in front where it has fewer than
/// `width` digits.
pub open spec fn decimal_padded(n: nat, width: nat) -> Seq<char> {
    if decimal(n).len() >= width {
        decimal(n)
    } else {
        zeros((width - decimal(n).len()) as nat) + decimal(n)
    }
}

/// The text of one decimal digit.
pub fn digit_str(d: u8) -> (r: &'static str)
    requires
        d < 10,
    ensures
        r@ == seq![digit_char(d as int)],
{
    proof {
        reveal_strlit("0");
        reveal_strlit("1");
        reveal_strlit("2");
        reveal_strlit("3");
        reveal_strlit("4");
        reveal_strlit("5");
        reveal_strlit("6");
        reveal_strlit("7");
        reveal_strlit("8");
        reveal_strlit("9");
    }
    let r = if d == 0 {
        "0"
    } else if d == 1 {
        "1"
    } else if d == 2 {
        "2"
    } else if d == 3 {
        "3"
    } else if d == 4 {
        "4"
    } else if d == 5 {
        "5"
    } else if d == 6 {
        "6"
    } else if d == 7 {
        "7"
    } else if d == 8 {
        "8"
    } else {
        "9"
    };
    assert(r@ =~= seq![digit_char(d as int)]);
    r
}

/// Writes a number in decimal.
pub fn u64_to_decimal(n: u64) -> (r: String)
    ensures
        r@ == decimal(n as nat),
{
    let mut rest: u64 = n / 10;
    let mut r = String::from_str(digit_str((n % 10) as u8));
    let ghost mut low: Seq<char> = seq![digit_char((n % 10) as int)];
    proof {
        assert(r@ == low);
    }
    // `r` holds the digits of `n` below those of `rest`.
    while rest > 0
        invariant
            r@ == low,
            decimal(n as nat) == if rest == 0 {
                low
            } else {
                decimal(rest as nat) + low
            },
            low.len() > 0,
        decreases rest,
    {
        let d = digit_str((rest % 10) as u8);
        proof {
            let c = digit_char((rest % 10) as int);
            if rest < 10 {
                assert(decimal(rest as nat) =~= seq![c]);
                assert(decimal(n as nat) =~= seq![c] + low);
            } else {
                assert(decimal(rest as nat) == decimal((rest / 10) as nat).push(c));
                assert(decimal(n as nat) =~= decimal((rest / 10) as nat) + (seq![c] + low));
            }
            low = seq![c] + low;
        }
        r = String::from_str(d).concat(r.as_str());
        rest = rest / 10;
    }
    proof {
        if n < 10 {
            assert(decimal(n as nat) =~= low);
        }
    }
    r
}

/// Writes a number in decimal, with zeros in front where it has fewer than
/// `width` digits.
pub fn u64_to_decimal_padded(n: u64, width: usize) -> (r: String)
    ensures
        r@ == decimal_padded(n as nat, width as nat),
{
    let digits = u64_to_decimal(n);
    let len = char_len(digits.as_str());
    if len >= width {
        return digits;
    }
    let mut r = String::new();
    let mut i: usize = 0;
    proof {
        reveal_strlit("0");
    }
    while i < width - len
        invariant
            len < width,
            i <= width - len,
            r@ == zeros(i as nat),
            "0"@ == seq!['0'],
        decreases width - len - i,
    {
        r.append("0");
        i = i + 1;
        assert(r@ =~= zeros(i as nat));
    }
    r.append(digits.as_str());
    r
}

/// A small letter of the basic Latin alphabet as its capital; any other
/// character as it is.
pub open spec fn ascii_upper(c: char) -> char {
    if c == 'a' {
        'A'
    } else if c == 'b' {
        'B'
    } else if c == 'c' {
        'C'
    } else if c == 'd' {
        'D'
    } else if c == 'e' {
        'E'
    } else if c == 'f' {
        'F'
    } else if c == 'g' {
        'G'
    } else if c == 'h' {
        'H'
    } else if c == 'i' {
        'I'
    } else if c == 'j' {
        'J'
    } else if c == 'k' {
        'K'
    } else if c == 'l' {
        'L'
    } else if c == 'm' {
        'M'
    } else if c == 'n' {
        'N'
    } else if c == 'o' {
        'O'
    } else if c == 'p' {
        'P'
    } else if c == 'q' {
        'Q'
    } else if c == 'r' {
        'R'
    } else if c == 's' {
        'S'
    } else if c == 't' {
        'T'
    } else if c == 'u' {
        'U'
    } else if c == 'v' {
        'V'
    } else if c == 'w' {
        'W'
    } else if c == 'x' {
        'X'
    } else if c == 'y' {
        'Y'
    } else if c == 'z' {
        'Z'
    } else {
        c
    }
}

/// A text with its small basic Latin letters as capitals.
pub open spec fn ascii_upper_text(s: Seq<char>) -> Seq<char> {
    s.map_values(|c: char| ascii_upper(c))
}

/// The capital of a small letter of the basic Latin alphabet, as text; of
/// any other character, nothing.
fn capital_of(c: char) -> (r: Option<&'static str>)
    ensures
        match r {
            Some(s) => s@ == seq![ascii_upper(c)] && ascii_upper(c) != c,
            None => ascii_upper(c) == c,
        },
{
    proof {
        reveal_strlit("A");
        reveal_strlit("B");
        reveal_strlit("C");
        reveal_strlit("D");
        reveal_strlit("E");
        reveal_strlit("F");
        reveal_strlit("G");
        reveal_strlit("H");
        reveal_strlit("I");
        reveal_strlit("J");
        reveal_strlit("K");
        reveal_strlit("L");
        reveal_strlit("M");
        reveal_strlit("N");
        reveal_strlit("O");
        reveal_strlit("P");
        reveal_strlit("Q");
        reveal_strlit("R");
        reveal_strlit("S");
        reveal_strlit("T");
        reveal_strlit("U");
        reveal_strlit("V");
        reveal_strlit("W");
        reveal_strlit("X");
        reveal_strlit("Y");
        reveal_strlit("Z");
    }
    let r = if c == 'a' {
        Some("A")
    } else if c == 'b' {
        Some("B")
    } else if c == 'c' {
        Some("C")
    } else if c == 'd' {
        Some("D")
    } else if c == 'e' {
        Some("E")
    } else if c == 'f' {
        Some("F")
    } else if c == 'g' {
        Some("G")
    } else if c == 'h' {
        Some("H")
    } else if c == 'i' {
        Some("I")
    } else if c == 'j' {
        Some("J")
    } else if c == 'k' {
        Some("K")
    } else if c == 'l' {
        Some("L")
    } else if c == 'm' {
        Some("M")
    } else if c == 'n' {
        Some("N")
    } else if c == 'o' {
        Some("O")
    } else if c == 'p' {
        Some("P")
    } else if c == 'q' {
        Some("Q")
    } else if c == 'r' {
        Some("R")
    } else if c == 's' {
        Some("S")
    } else if c == 't' {
        Some("T")
    } else if c == 'u' {
        Some("U")
    } else if c == 'v' {
        Some("V")
    } else if c == 'w' {
        Some("W")
    } else if c == 'x' {
        Some("X")
    } else if c == 'y' {
        Some("Y")
    } else if c == 'z' {
        Some("Z")
    } else {
        None
    };
    match r {
        Some(s) => {
            assert(s@ =~= seq![ascii_upper(c)]);
        },
        None => {},
    }
    r
}

/// The text with its small basic Latin letters as capitals.
pub fn ascii_uppercase(s: &str) -> (r: String)
    ensures
        r@ == ascii_upper_text(s@),
{
    let n = char_len(s);
    let mut r = String::new();
    let mut from: usize = 0;
    let mut i: usize = 0;
    // `r` holds the capitals of what stands before `from`; what stands from
    // there up to `i` holds no small letter.
    for c in it: s.chars()
        invariant
            it.seq() == s@,
            n == s@.len(),
            i == it.index(),
            from <= i,
            r@ == ascii_upper_text(s@.take(from as int)),
            forall|j: int| from <= j < i ==> ascii_upper(#[trigger] s@[j]) == s@[j],
    {
        match capital_of(c) {
            Some(capital) => {
                r.append(slice(s, from, i));
                r.append(capital);
                assert(r@ =~= ascii_upper_text(s@.take(i + 1)));
                from = i + 1;
            },
            None => {},
        }
        i = i + 1;
    }
    r.append(slice(s, from, n));
    assert(r@ =~= ascii_upper_text(s@));
    r
}

/// The position of the first pair of colons in `s`, or the length of `s`
/// where it holds none.
pub open spec fn first_double_colon(s: Seq<char>) -> int
    decreases s.len(),
{
    if s.len() < 2 {
        s.len() as int
    } else if s[0] == ':' && s[1] == ':' {
        0
    } else {
        1 + first_double_colon(s.drop_first())
    }
}

/// No pair of colons begins before the first pair, and a pair stands at its
/// position where that lies within the text.
pub proof fn lemma_first_double_colon(s: Seq<char>)
    ensures
        0 <= first_double_colon(s) <= s.len(),
        first_double_colon(s) < s.len() ==> first_double_colon(s) + 1 < s.len() && s[first_double_colon(
            s,
        )] == ':' && s[first_double_colon(s) + 1] == ':',
        forall|j: int|
            0 <= j < first_double_colon(s) && j + 1 < s.len() ==> !(#[trigger] s[j] == ':' && s[j
                + 1] == ':'),
    decreases s.len(),
{
    if s.len() >= 2 && !(s[0] == ':' && s[1] == ':') {
        let t = s.drop_first();
        lemma_first_double_colon(t);
        let f = first_double_colon(t);
        if f < t.len() {
            assert(s[f + 1] == t[f]);
            assert(s[f + 2] == t[f + 1]);
        }
        assert forall|j: int| 0 <= j < first_double_colon(s) && j + 1 < s.len() implies !(
        #[trigger] s[j] == ':' && s[j + 1] == ':') by {
            if j > 0 {
                assert(s[j] == t[j - 1]);
                assert(s[j + 1] == t[j]);
            }
        }
    }
}

/// A position that holds the first pair of colons, or the length where
/// there is no pair, is what `first_double_colon` gives.
pub proof fn lemma_first_double_colon_is(s: Seq<char>, i: int)
    requires
        0 <= i <= s.len(),
        i < s.len() ==> i + 1 < s.len() && s[i] == ':' && s[i + 1] == ':',
        forall|j: int| 0 <= j < i && j + 1 < s.len() ==> !(#[trigger] s[j] == ':' && s[j + 1] == ':'),
    ensures
        first_double_colon(s) == i,
{
    lemma_first_double_colon(s);
    let f = first_double_colon(s);
    if f < i {
        assert(!(s[f] == ':' && s[f + 1] == ':'));
    } else if f > i {
        assert(!(s[i] == ':' && s[i + 1] == ':'));
    }
}

/// Splits `s` at its first pair of colons into what stands before the pair
/// and what stands after it; `None` where `s` holds no such pair.
pub fn split_once_double_colon<'a>(s: &'a str) -> (r: Option<(&'a str, &'a str)>)
    ensures
        match r {
            Some((head, tail)) => {
                &&& 0 <= first_double_colon(s@) < s@.len()
                &&& head@ == s@.take(first_double_colon(s@))
                &&& tail@ == s@.skip(first_double_colon(s@) + 2)
            },
            None => first_double_colon(s@) == s@.len(),
        },
{
    let n = char_len(s);
    let mut i: usize = 0;
    let mut after_colon = false;
    for c in it: s.chars()
        invariant
            it.seq() == s@,
            n == s@.len(),
            i == it.index(),
            after_colon == (i > 0 && s@[i - 1] == ':'),
            forall|j: int| 0 <= j < i - 1 ==> !(#[trigger] s@[j] == ':' && s@[j + 1] == ':'),
    {
        if after_colon && c == ':' {
            proof {
                lemma_first_double_colon_is(s@, i - 1);
            }
            return Some((slice(s, 0, i - 1), slice(s, i + 1, n)));
        }
        after_colon = c == ':';
        i = i + 1;
    }
    proof {
        lemma_first_double_colon_is(s@, n as int);
    }
    None
}

/// The fields of a text: the pieces between the occurrences of `c`, in
/// order. A text in which `c` occurs `k` times has `k + 1` fields.
pub open spec fn split_on(s: Seq<char>, c: char) -> Seq<Seq<char>>
    decreases s.len(),
{
    let i = first_index_of(s, c);
    if 0 <= i < s.len() {
        seq![s.take(i)] + split_on(s.skip(i + 1), c)
    } else {
        seq![s]
    }
}

/// Cuts a text into its fields at the occurrences of `c`.
pub fn split_fields<'a>(s: &'a str, c: char) -> (r: Vec<&'a str>)
    ensures
        r@.map_values(|f: &str| f@) == split_on(s@, c),
{
    let mut r: Vec<&'a str> = Vec::new();
    let mut rest: &'a str = s;
    let ghost mut done: Seq<Seq<char>> = Seq::empty();
    loop
        invariant
            r@.map_values(|f: &str| f@) == done,
            done + split_on(rest@, c) == split_on(s@, c),
        decreases rest@.len(),
    {
        let n = char_len(rest);
        let i = find_char(rest, c);
        let ghost old_r = r@;
        proof {
            lemma_first_index_of(rest@, c);
        }
        if i >= n {
            r.push(rest);
            proof {
                assert(r@.map_values(|f: &str| f@) =~= old_r.map_values(|f: &str| f@).push(rest@));
                assert(done.push(rest@) =~= done + seq![rest@]);
            }
            return r;
        }
        let field = slice(rest, 0, i);
        r.push(field);
        proof {
            assert(r@.map_values(|f: &str| f@) =~= old_r.map_values(|f: &str| f@).push(field@));
            assert(field@ =~= rest@.take(i as int));
            assert(done.push(field@) + split_on(rest@.skip(i + 1), c) =~= done + (seq![field@]
                + split_on(rest@.skip(i + 1), c)));
            done = done.push(field@);
        }
        rest = slice(rest, i + 1, n);
    }
}

} // verus!
