//! Addresses of the internet protocol as numbers: packing them from their
//! bytes, writing them as text, and telling which are local.
use crate::text::{
    char_len, decimal, digit_char, first_index_of, lemma_first_double_colon_is,
    lemma_first_index_of_is, first_double_colon, split_fields, split_on, split_once_double_colon,
    u64_to_decimal,
};
use crate::traits::registry::{join, joined, texts};
use vstd::prelude::*;
use vstd::string::*;

verus! {

/// The number that the low bytes of the first `count` parts spell, most
/// significant first.
pub open spec fn packed(parts: Seq<u32>, count: int) -> nat
    decreases count,
{
    if count <= 0 {
        0
    } else {
        256 * packed(parts, count - 1) + (parts[count - 1] % 256) as nat
    }
}

/// An address of version 4 in dotted decimal notation.
pub open spec fn ipv4_text(ip: u32) -> Seq<char> {
    decimal((ip / 0x100_0000) as nat) + "."@ + decimal(((ip / 0x1_0000) % 256) as nat) + "."@
        + decimal(((ip / 0x100) % 256) as nat) + "."@ + decimal((ip % 256) as nat)
}

/// What is packed from `count` parts is below 256 to the power of `count`.
proof fn lemma_packed_bound(parts: Seq<u32>, count: int)
    requires
        0 <= count <= 16,
    ensures
        count == 0 ==> packed(parts, count) == 0,
        count == 1 ==> packed(parts, count) < 0x100,
        count == 2 ==> packed(parts, count) < 0x1_0000,
        count == 3 ==> packed(parts, count) < 0x100_0000,
        count == 4 ==> packed(parts, count) < 0x1_0000_0000,
        count == 5 ==> packed(parts, count) < 0x100_0000_0000,
        count == 6 ==> packed(parts, count) < 0x1_0000_0000_0000,
        count == 7 ==> packed(parts, count) < 0x100_0000_0000_0000,
        count == 8 ==> packed(parts, count) < 0x1_0000_0000_0000_0000,
        count == 9 ==> packed(parts, count) < 0x100_0000_0000_0000_0000,
        count == 10 ==> packed(parts, count) < 0x1_0000_0000_0000_0000_0000,
        count == 11 ==> packed(parts, count) < 0x100_0000_0000_0000_0000_0000,
        count == 12 ==> packed(parts, count) < 0x1_0000_0000_0000_0000_0000_0000,
        count == 13 ==> packed(parts, count) < 0x100_0000_0000_0000_0000_0000_0000,
        count == 14 ==> packed(parts, count) < 0x1_0000_0000_0000_0000_0000_0000_0000,
        count == 15 ==> packed(parts, count) < 0x100_0000_0000_0000_0000_0000_0000_0000,
        count == 16 ==> packed(parts, count) < 0x1_0000_0000_0000_0000_0000_0000_0000_0000,
    decreases count,
{
    if count > 0 {
        lemma_packed_bound(parts, count - 1);
    }
}

/// The address of version 4 whose four bytes are the low bytes of the
/// parts, the most significant first.
pub fn ipv4_from_parts(parts: [u32; 4]) -> (ip: u32)
    ensures
        ip == packed(parts@, 4),
{
    let mut ip: u32 = 0;
    let mut i: usize = 0;
    while i < 4
        invariant
            i <= 4,
            ip == packed(parts@, i as int),
        decreases 4 - i,
    {
        proof {
            lemma_packed_bound(parts@, i as int);
        }
        ip = ip * 256 + parts[i] % 256;
        i = i + 1;
    }
    ip
}

/// The address of version 6 whose sixteen bytes are the low bytes of the
/// parts, the most significant first.
pub fn ipv6_from_parts(parts: [u32; 16]) -> (ip: u128)
    ensures
        ip == packed(parts@, 16),
{
    let mut ip: u128 = 0;
    let mut i: usize = 0;
    while i < 16
        invariant
            i <= 16,
            ip == packed(parts@, i as int),
        decreases 16 - i,
    {
        proof {
            lemma_packed_bound(parts@, i as int);
        }
        ip = ip * 256 + (parts[i] % 256) as u128;
        i = i + 1;
    }
    ip
}

/// Writes an address of version 4 in dotted decimal notation.
pub fn ipv4_to_str(ip: u32) -> (s: String)
    ensures
        s@ == ipv4_text(ip),
{
    let mut s = u64_to_decimal((ip / 0x100_0000) as u64);
    s.append(".");
    s.append(u64_to_decimal(((ip / 0x1_0000) % 256) as u64).as_str());
    s.append(".");
    s.append(u64_to_decimal(((ip / 0x100) % 256) as u64).as_str());
    s.append(".");
    s.append(u64_to_decimal((ip % 256) as u64).as_str());
    s
}

/// The character that stands for a hexadecimal digit, in small letters.
pub open spec fn hex_digit_char(d: int) -> char {
    if d == 0 {
        '0'
    } else if d == 1 {
        '1'
    } else if d == 2 {
        '2'
    } else if d == 3 {
        '3'
    } else if d == 4 {
        '4'
    } else if d == 5 {
        '5'
    } else if d == 6 {
        '6'
    } else if d == 7 {
        '7'
    } else if d == 8 {
        '8'
    } else if d == 9 {
        '9'
    } else if d == 10 {
        'a'
    } else if d == 11 {
        'b'
    } else if d == 12 {
        'c'
    } else if d == 13 {
        'd'
    } else if d == 14 {
        'e'
    } else {
        'f'
    }
}

/// A number written in hexadecimal, without leading zeros.
pub open spec fn hexadecimal(n: nat) -> Seq<char>
    decreases n,
{
    if n < 16 {
        seq![hex_digit_char(n as int)]
    } else {
        hexadecimal(n / 16).push(hex_digit_char((n % 16) as int))
    }
}

/// The last `count` groups of 16 bits of a number, the most significant
/// first.
pub open spec fn groups_of(n: nat, count: nat) -> Seq<u16>
    decreases count,
{
    if count == 0 {
        Seq::<u16>::empty()
    } else {
        groups_of(n / 0x1_0000, (count - 1) as nat).push((n % 0x1_0000) as u16)
    }
}

/// How many groups from position `from` on are zero without a break.
pub open spec fn zero_run(groups: Seq<u16>, from: int) -> int
    decreases groups.len() - from,
{
    if from < 0 || from >= groups.len() || groups[from] != 0 {
        0
    } else {
        1 + zero_run(groups, from + 1)
    }
}

/// Among the first `upto` positions the first at which the longest run of
/// zero groups begins.
pub open spec fn longest_run_start(groups: Seq<u16>, upto: int) -> int
    decreases upto,
{
    if upto <= 1 {
        0
    } else {
        let before = longest_run_start(groups, upto - 1);
        if zero_run(groups, upto - 1) > zero_run(groups, before) {
            upto - 1
        } else {
            before
        }
    }
}

/// The groups, each written in hexadecimal.
pub open spec fn hex_groups(groups: Seq<u16>) -> Seq<Seq<char>> {
    groups.map_values(|g: u16| hexadecimal(g as nat))
}

/// An address of version 6 as text: its eight groups of 16 bits in
/// hexadecimal with colons between them, where the first of the longest
/// runs of two or more zero groups is left out and only two colons stand
/// for it.
pub open spec fn ipv6_text(ip: u128) -> Seq<char> {
    let groups = groups_of(ip as nat, 8);
    let start = longest_run_start(groups, 8);
    let len = zero_run(groups, start);
    if len >= 2 {
        joined(hex_groups(groups.take(start)), ":"@) + "::"@ + joined(
            hex_groups(groups.skip(start + len)),
            ":"@,
        )
    } else {
        joined(hex_groups(groups), ":"@)
    }
}

/// The text of one hexadecimal digit.
fn hex_digit_str(d: u8) -> (r: &'static str)
    requires
        d < 16,
    ensures
        r@ == seq![hex_digit_char(d as int)],
{
    proof {
        reveal_strlit("0");
        reveal_strlit("1");
        reveal_strlit("2");
        reveal_strlit("3");
        reveal_strlit("4");
        reveal_strlit("5");
        reveal_strlit("6");
        reveal_strlit("7");
        reveal_strlit("8");
        reveal_strlit("9");
        reveal_strlit("a");
        reveal_strlit("b");
        reveal_strlit("c");
        reveal_strlit("d");
        reveal_strlit("e");
        reveal_strlit("f");
    }
    let r = if d == 0 {
        "0"
    } else if d == 1 {
        "1"
    } else if d == 2 {
        "2"
    } else if d == 3 {
        "3"
    } else if d == 4 {
        "4"
    } else if d == 5 {
        "5"
    } else if d == 6 {
        "6"
    } else if d == 7 {
        "7"
    } else if d == 8 {
        "8"
    } else if d == 9 {
        "9"
    } else if d == 10 {
        "a"
    } else if d == 11 {
        "b"
    } else if d == 12 {
        "c"
    } else if d == 13 {
        "d"
    } else if d == 14 {
        "e"
    } else {
        "f"
    };
    assert(r@ =~= seq![hex_digit_char(d as int)]);
    r
}

/// Writes a group in hexadecimal.
fn u16_to_hex(n: u16) -> (r: String)
    ensures
        r@ == hexadecimal(n as nat),
{
    let mut rest: u16 = n / 16;
    let mut r = String::from_str(hex_digit_str((n % 16) as u8));
    let ghost mut low: Seq<char> = seq![hex_digit_char((n % 16) as int)];
    // `r` holds the digits of `n` below those of `rest`.
    while rest > 0
        invariant
            r@ == low,
            hexadecimal(n as nat) == if rest == 0 {
                low
            } else {
                hexadecimal(rest as nat) + low
            },
            low.len() > 0,
        decreases rest,
    {
        let d = hex_digit_str((rest % 16) as u8);
        proof {
            let c = hex_digit_char((rest % 16) as int);
            if rest < 16 {
                assert(hexadecimal(rest as nat) =~= seq![c]);
                assert(hexadecimal(n as nat) =~= seq![c] + low);
            } else {
                assert(hexadecimal(rest as nat) == hexadecimal((rest / 16) as nat).push(c));
                assert(hexadecimal(n as nat) =~= hexadecimal((rest / 16) as nat) + (seq![c]
                    + low));
            }
            low = seq![c] + low;
        }
        r = String::from_str(d).concat(r.as_str());
        rest = rest / 16;
    }
    proof {
        if n < 16 {
            assert(hexadecimal(n as nat) =~= low);
        }
    }
    r
}

/// The eight groups of an address of version 6.
fn groups(ip: u128) -> (g: Vec<u16>)
    ensures
        g@ == groups_of(ip as nat, 8),
        g@.len() == 8,
{
    let g7 = (ip % 0x1_0000) as u16;
    let n1 = ip / 0x1_0000;
    let g6 = (n1 % 0x1_0000) as u16;
    let n2 = n1 / 0x1_0000;
    let g5 = (n2 % 0x1_0000) as u16;
    let n3 = n2 / 0x1_0000;
    let g4 = (n3 % 0x1_0000) as u16;
    let n4 = n3 / 0x1_0000;
    let g3 = (n4 % 0x1_0000) as u16;
    let n5 = n4 / 0x1_0000;
    let g2 = (n5 % 0x1_0000) as u16;
    let n6 = n5 / 0x1_0000;
    let g1 = (n6 % 0x1_0000) as u16;
    let n7 = n6 / 0x1_0000;
    let g0 = (n7 % 0x1_0000) as u16;
    let g: Vec<u16> = vec![g0, g1, g2, g3, g4, g5, g6, g7];
    proof {
        assert(groups_of((n7 / 0x1_0000) as nat, 0) =~= Seq::<u16>::empty());
        assert(groups_of(n7 as nat, 1) =~= seq![g0]);
        assert(groups_of(n6 as nat, 2) =~= seq![g0, g1]);
        assert(groups_of(n5 as nat, 3) =~= seq![g0, g1, g2]);
        assert(groups_of(n4 as nat, 4) =~= seq![g0, g1, g2, g3]);
        assert(groups_of(n3 as nat, 5) =~= seq![g0, g1, g2, g3, g4]);
        assert(groups_of(n2 as nat, 6) =~= seq![g0, g1, g2, g3, g4, g5]);
        assert(groups_of(n1 as nat, 7) =~= seq![g0, g1, g2, g3, g4, g5, g6]);
        assert(groups_of(ip as nat, 8) =~= seq![g0, g1, g2, g3, g4, g5, g6, g7]);
        assert(g@ =~= seq![g0, g1, g2, g3, g4, g5, g6, g7]);
    }
    g
}

/// How many groups from position `from` on are zero without a break.
fn count_zero_run(groups: &Vec<u16>, from: usize) -> (r: usize)
    requires
        from <= groups@.len(),
    ensures
        r == zero_run(groups@, from as int),
        from + r <= groups@.len(),
    decreases groups@.len() - from,
{
    if from >= groups.len() || groups[from] != 0 {
        0
    } else {
        1 + count_zero_run(groups, from + 1)
    }
}

/// The groups from `from` up to `to`, each written in hexadecimal, with
/// colons between them.
fn write_groups(groups: &Vec<u16>, from: usize, to: usize) -> (r: String)
    requires
        from <= to <= groups@.len(),
    ensures
        r@ == joined(hex_groups(groups@.subrange(from as int, to as int)), ":"@),
{
    let mut parts: Vec<String> = Vec::new();
    let mut i: usize = from;
    while i < to
        invariant
            from <= i <= to <= groups@.len(),
            texts(parts@) == hex_groups(groups@.subrange(from as int, i as int)),
        decreases to - i,
    {
        let ghost before = texts(parts@);
        parts.push(u16_to_hex(groups[i]));
        proof {
            assert(texts(parts@) =~= before.push(hexadecimal(groups@[i as int] as nat)));
            assert(groups@.subrange(from as int, i + 1) =~= groups@.subrange(
                from as int,
                i as int,
            ).push(groups@[i as int]));
            assert(hex_groups(groups@.subrange(from as int, i + 1)) =~= hex_groups(
                groups@.subrange(from as int, i as int),
            ).push(hexadecimal(groups@[i as int] as nat)));
        }
        i = i + 1;
    }
    join(&parts, ":")
}

/// Writes an address of version 6 as text, with the first of its longest
/// runs of zero groups left out.
pub fn ipv6_to_str(ip: u128) -> (s: String)
    ensures
        s@ == ipv6_text(ip),
{
    let g = groups(ip);
    let mut start: usize = 0;
    let mut len: usize = count_zero_run(&g, 0);
    let mut i: usize = 1;
    while i < 8
        invariant
            1 <= i <= 8,
            g@.len() == 8,
            start == longest_run_start(g@, i as int),
            len == zero_run(g@, start as int),
            start < i,
            start + len <= 8,
        decreases 8 - i,
    {
        let here = count_zero_run(&g, i);
        if here > len {
            start = i;
            len = here;
        }
        i = i + 1;
    }
    if len >= 2 {
        let mut s = write_groups(&g, 0, start);
        s.append("::");
        s.append(write_groups(&g, start + len, 8).as_str());
        proof {
            assert(g@.subrange(0, start as int) =~= g@.take(start as int));
            assert(g@.subrange(start + len, 8) =~= g@.skip(start + len));
        }
        s
    } else {
        proof {
            assert(g@.subrange(0, 8) =~= g@);
        }
        write_groups(&g, 0, 8)
    }
}

/// The address 10.0.0.0.
pub const PRIVATE_10: u32 = 0x0a00_0000;

/// The address 172.16.0.0.
pub const PRIVATE_172: u32 = 0xac10_0000;

/// The address 192.168.0.0.
pub const PRIVATE_192: u32 = 0xc0a8_0000;

/// The address 127.0.0.0.
pub const LOOPBACK_127: u32 = 0x7f00_0000;

/// The address 169.254.0.0.
pub const LINK_LOCAL_169: u32 = 0xa9fe_0000;

/// An address of version 4 is local where it belongs to one of the private
/// networks 10.0.0.0/8, 172.16.0.0/12 and 192.168.0.0/16, to the machine
/// itself (127.0.0.0/8) or to the local link (169.254.0.0/16).
pub open spec fn local_ipv4(ip: u32) -> bool {
    ||| 0x0a00_0000 <= ip <= 0x0aff_ffff
    ||| 0xac10_0000 <= ip <= 0xac1f_ffff
    ||| 0xc0a8_0000 <= ip <= 0xc0a8_ffff
    ||| 0x7f00_0000 <= ip <= 0x7fff_ffff
    ||| 0xa9fe_0000 <= ip <= 0xa9fe_ffff
}

/// An address of version 6 is local where it is that of the machine itself
/// (::1), a unique local address (fc00::/7) or an address of the local link
/// (fe80::/10).
pub open spec fn local_ipv6(ip: u128) -> bool {
    ||| ip == 1
    ||| 0xfc00_0000_0000_0000_0000_0000_0000_0000 <= ip <= 0xfdff_ffff_ffff_ffff_ffff_ffff_ffff_ffff
    ||| 0xfe80_0000_0000_0000_0000_0000_0000_0000 <= ip <= 0xfebf_ffff_ffff_ffff_ffff_ffff_ffff_ffff
}

/// Whether an address of version 4 is local.
pub fn is_local_ipv4(ip: u32) -> (r: bool)
    ensures
        r == local_ipv4(ip),
{
    (PRIVATE_10 <= ip && ip <= 0x0aff_ffff) || (PRIVATE_172 <= ip && ip <= 0xac1f_ffff) || (
    PRIVATE_192 <= ip && ip <= 0xc0a8_ffff) || (LOOPBACK_127 <= ip && ip <= 0x7fff_ffff) || (
    LINK_LOCAL_169 <= ip && ip <= 0xa9fe_ffff)
}

/// Whether an address of version 6 is local.
pub fn is_local_ipv6(ip: u128) -> (r: bool)
    ensures
        r == local_ipv6(ip),
{
    ip == 1 || (0xfc00_0000_0000_0000_0000_0000_0000_0000 <= ip && ip
        <= 0xfdff_ffff_ffff_ffff_ffff_ffff_ffff_ffff) || (0xfe80_0000_0000_0000_0000_0000_0000_0000
        <= ip && ip <= 0xfebf_ffff_ffff_ffff_ffff_ffff_ffff_ffff)
}

/// The number that a decimal digit stands for; no number for any other
/// character.
pub open spec fn decimal_digit(c: char) -> Option<nat> {
    if '0' <= c <= '9' {
        Some((c as u32 - '0' as u32) as nat)
    } else {
        None
    }
}

/// The number that a hexadecimal digit stands for, in small or capital
/// letters; no number for any other character.
pub open spec fn hex_digit(c: char) -> Option<nat> {
    if '0' <= c <= '9' {
        Some((c as u32 - '0' as u32) as nat)
    } else if 'a' <= c <= 'f' {
        Some((c as u32 - 'a' as u32 + 10) as nat)
    } else if 'A' <= c <= 'F' {
        Some((c as u32 - 'A' as u32 + 10) as nat)
    } else {
        None
    }
}

/// The number that the digits of a text spell in the given base, where
/// `digit` tells the number of each; no number where a character is no
/// digit.
pub open spec fn digits_value(f: Seq<char>, base: nat, digit: spec_fn(char) -> Option<nat>) -> Option<
    nat,
>
    decreases f.len(),
{
    if f.len() == 0 {
        Some(0)
    } else {
        match (digits_value(f.drop_last(), base, digit), digit(f.last())) {
            (Some(high), Some(low)) => Some(high * base + low),
            _ => None,
        }
    }
}

/// The base of decimal or of hexadecimal numbers.
pub open spec fn base_of(hexadecimal: bool) -> nat {
    if hexadecimal {
        16
    } else {
        10
    }
}

/// What tells the number of a decimal or of a hexadecimal digit.
pub open spec fn digit_in(hexadecimal: bool) -> spec_fn(char) -> Option<nat> {
    if hexadecimal {
        |c: char| hex_digit(c)
    } else {
        |c: char| decimal_digit(c)
    }
}

/// The number that a field spells in decimal or in hexadecimal digits.
pub open spec fn field_number(f: Seq<char>, hexadecimal: bool) -> Option<nat> {
    digits_value(f, base_of(hexadecimal), digit_in(hexadecimal))
}

/// The byte that a field of an address of version 4 names: one to three
/// decimal digits without a zero in front of another digit, of a number up
/// to 255.
pub open spec fn octet_value(f: Seq<char>) -> Option<u32> {
    match field_number(f, false) {
        Some(v) => if 1 <= f.len() <= 3 && (f.len() == 1 || f[0] != '0') && v <= 255 {
            Some(v as u32)
        } else {
            None
        },
        None => None,
    }
}

/// The address of version 4 that a text in dotted decimal notation names:
/// four bytes with dots between them.
pub open spec fn ipv4_value(s: Seq<char>) -> Option<u32> {
    let f = split_on(s, '.');
    if f.len() == 4 && octet_value(f[0]) is Some && octet_value(f[1]) is Some && octet_value(
        f[2],
    ) is Some && octet_value(f[3]) is Some {
        Some(
            (((octet_value(f[0])->0 * 256 + octet_value(f[1])->0) * 256 + octet_value(f[2])->0)
                * 256 + octet_value(f[3])->0) as u32,
        )
    } else {
        None
    }
}

/// The group that a field of an address of version 6 names: one to four
/// hexadecimal digits.
pub open spec fn group_value(f: Seq<char>) -> Option<u16> {
    match field_number(f, true) {
        Some(v) => if 1 <= f.len() <= 4 && v <= 0xffff {
            Some(v as u16)
        } else {
            None
        },
        None => None,
    }
}

/// The groups that a text names: groups with colons between them, or none
/// where the text is empty.
pub open spec fn groups_value(t: Seq<char>) -> Option<Seq<u16>> {
    let f = split_on(t, ':');
    if t.len() == 0 {
        Some(Seq::<u16>::empty())
    } else if forall|i: int| 0 <= i < f.len() ==> group_value(#[trigger] f[i]) is Some {
        Some(f.map_values(|x: Seq<char>| group_value(x)->0))
    } else {
        None
    }
}

/// The number that groups of 16 bits spell, the most significant first.
pub open spec fn from_groups(groups: Seq<u16>) -> nat
    decreases groups.len(),
{
    if groups.len() == 0 {
        0
    } else {
        from_groups(groups.drop_last()) * 0x1_0000 + groups.last() as nat
    }
}

/// The eight groups that stand for groups before and after a pair of
/// colons: zero groups fill the gap between them.
pub open spec fn filled(head: Seq<u16>, tail: Seq<u16>) -> Seq<u16> {
    head + Seq::new((8 - head.len() - tail.len()) as nat, |i: int| 0u16) + tail
}

/// The address of version 6 that a text names: eight groups with colons
/// between them, or fewer with one pair of colons that stands for the zero
/// groups that are left out. The notation with a dotted address of version 4
/// at the end is not read.
pub open spec fn ipv6_value(s: Seq<char>) -> Option<u128> {
    let p = first_double_colon(s);
    if p < s.len() {
        match (groups_value(s.take(p)), groups_value(s.skip(p + 2))) {
            (Some(head), Some(tail)) => if head.len() + tail.len() <= 7 {
                Some(from_groups(filled(head, tail)) as u128)
            } else {
                None
            },
            _ => None,
        }
    } else {
        match groups_value(s) {
            Some(groups) => if groups.len() == 8 {
                Some(from_groups(groups) as u128)
            } else {
                None
            },
            None => None,
        }
    }
}

/// The number of a decimal digit.
fn decimal_digit_of(c: char) -> (r: Option<u32>)
    ensures
        match r {
            Some(d) => decimal_digit(c) == Some(d as nat) && d < 10,
            None => decimal_digit(c) is None,
        },
{
    if '0' <= c && c <= '9' {
        Some(c as u32 - '0' as u32)
    } else {
        None
    }
}

/// The number of a hexadecimal digit.
fn hex_digit_of(c: char) -> (r: Option<u32>)
    ensures
        match r {
            Some(d) => hex_digit(c) == Some(d as nat) && d < 16,
            None => hex_digit(c) is None,
        },
{
    if '0' <= c && c <= '9' {
        Some(c as u32 - '0' as u32)
    } else if 'a' <= c && c <= 'f' {
        Some(c as u32 - 'a' as u32 + 10)
    } else if 'A' <= c && c <= 'F' {
        Some(c as u32 - 'A' as u32 + 10)
    } else {
        None
    }
}

/// The number that up to four digits of a field spell in base 10 or 16.
fn field_value(field: &str, hexadecimal: bool) -> (r: Option<u32>)
    ensures
        match r {
            Some(v) => 1 <= field@.len() <= 4 && field_number(field@, hexadecimal) == Some(
                v as nat,
            ) && v <= 0xffff,
            None => !(1 <= field@.len() <= 4) || field_number(field@, hexadecimal) is None,
        },
{
    let n = char_len(field);
    if n < 1 || n > 4 {
        return None;
    }
    let ghost base = base_of(hexadecimal);
    let ghost digit = digit_in(hexadecimal);
    let mut value: u32 = 0;
    let mut i: usize = 0;
    assert(field@.take(0) =~= Seq::<char>::empty());
    for c in it: field.chars()
        invariant
            it.seq() == field@,
            n == field@.len(),
            n <= 4,
            i == it.index(),
            base == base_of(hexadecimal),
            digit == digit_in(hexadecimal),
            digits_value(field@.take(i as int), base, digit) == Some(value as nat),
            i == 0 ==> value == 0,
            i == 1 ==> value < 16,
            i == 2 ==> value < 256,
            i == 3 ==> value < 4096,
            i == 4 ==> value < 65536,
    {
        let d = if hexadecimal {
            hex_digit_of(c)
        } else {
            decimal_digit_of(c)
        };
        proof {
            let now = field@.take(i + 1);
            assert(now.drop_last() =~= field@.take(i as int));
            assert(now.last() == c);
        }
        match d {
            Some(d) => {
                value = if hexadecimal {
                    value * 16 + d
                } else {
                    value * 10 + d
                };
            },
            None => {
                proof {
                    lemma_digits_value_prefix(field@, i + 1, base, digit);
                }
                return None;
            },
        }
        i = i + 1;
    }
    assert(field@.take(n as int) =~= field@);
    Some(value)
}

/// Where the first `k` characters of a text spell no number, the text
/// spells none.
proof fn lemma_digits_value_prefix(
    f: Seq<char>,
    k: int,
    base: nat,
    digit: spec_fn(char) -> Option<nat>,
)
    requires
        0 <= k <= f.len(),
        digits_value(f.take(k), base, digit) is None,
    ensures
        digits_value(f, base, digit) is None,
    decreases f.len(),
{
    if k < f.len() {
        assert(f.drop_last().take(k) =~= f.take(k));
        lemma_digits_value_prefix(f.drop_last(), k, base, digit);
    } else {
        assert(f.take(k) =~= f);
    }
}

/// The byte that a field of an address of version 4 names.
fn parse_octet(field: &str) -> (r: Option<u32>)
    ensures
        r == octet_value(field@),
{
    let n = char_len(field);
    let v = field_value(field, false)?;
    if n > 3 || (n > 1 && field.get_char(0) == '0') || v > 255 {
        return None;
    }
    Some(v)
}

/// The address of version 4 that a text in dotted decimal notation names.
pub fn ipv4_from_str(val: &str) -> (r: Option<u32>)
    ensures
        r == ipv4_value(val@),
{
    let fields = split_fields(val, '.');
    if fields.len() != 4 {
        return None;
    }
    proof {
        let f = split_on(val@, '.');
        assert(f[0] == fields@[0]@);
        assert(f[1] == fields@[1]@);
        assert(f[2] == fields@[2]@);
        assert(f[3] == fields@[3]@);
    }
    let a = parse_octet(fields[0])?;
    let b = parse_octet(fields[1])?;
    let c = parse_octet(fields[2])?;
    let d = parse_octet(fields[3])?;
    Some(((a * 256 + b) * 256 + c) * 256 + d)
}

/// The groups that a text names.
fn parse_groups(text: &str) -> (r: Option<Vec<u16>>)
    ensures
        match r {
            Some(g) => groups_value(text@) == Some(g@),
            None => groups_value(text@) is None,
        },
{
    let mut groups: Vec<u16> = Vec::new();
    if text.is_empty() {
        return Some(groups);
    }
    let fields = split_fields(text, ':');
    let ghost f = split_on(text@, ':');
    let mut i: usize = 0;
    while i < fields.len()
        invariant
            i <= fields@.len(),
            text@.len() > 0,
            f == split_on(text@, ':'),
            fields@.map_values(|x: &str| x@) == f,
            groups@.len() == i,
            forall|j: int| 0 <= j < i ==> group_value(#[trigger] f[j]) == Some(groups@[j]),
        decreases fields@.len() - i,
    {
        assert(f[i as int] == fields@[i as int]@);
        match field_value(fields[i], true) {
            Some(v) => {
                groups.push(v as u16);
            },
            None => {
                assert(group_value(f[i as int]) is None);
                return None;
            },
        }
        i = i + 1;
    }
    assert(groups@ =~= f.map_values(|x: Seq<char>| group_value(x)->0));
    Some(groups)
}

/// What groups spell is below 65536 to the power of their number.
proof fn lemma_from_groups_bound(groups: Seq<u16>)
    requires
        groups.len() <= 8,
    ensures
        groups.len() == 0 ==> from_groups(groups) == 0,
        groups.len() == 1 ==> from_groups(groups) < 0x1_0000,
        groups.len() == 2 ==> from_groups(groups) < 0x1_0000_0000,
        groups.len() == 3 ==> from_groups(groups) < 0x1_0000_0000_0000,
        groups.len() == 4 ==> from_groups(groups) < 0x1_0000_0000_0000_0000,
        groups.len() == 5 ==> from_groups(groups) < 0x1_0000_0000_0000_0000_0000,
        groups.len() == 6 ==> from_groups(groups) < 0x1_0000_0000_0000_0000_0000_0000,
        groups.len() == 7 ==> from_groups(groups) < 0x1_0000_0000_0000_0000_0000_0000_0000,
        groups.len() == 8 ==> from_groups(groups) < 0x1_0000_0000_0000_0000_0000_0000_0000_0000,
    decreases groups.len(),
{
    if groups.len() > 0 {
        lemma_from_groups_bound(groups.drop_last());
    }
}

/// The number that eight groups at most spell.
fn pack_groups(groups: &Vec<u16>) -> (r: u128)
    requires
        groups@.len() <= 8,
    ensures
        r == from_groups(groups@),
{
    let mut r: u128 = 0;
    let mut i: usize = 0;
    assert(groups@.take(0) =~= Seq::<u16>::empty());
    while i < groups.len()
        invariant
            i <= groups@.len() <= 8,
            r == from_groups(groups@.take(i as int)),
        decreases groups@.len() - i,
    {
        proof {
            lemma_from_groups_bound(groups@.take(i as int));
            let now = groups@.take(i + 1);
            assert(now.drop_last() =~= groups@.take(i as int));
            assert(now.last() == groups@[i as int]);
        }
        r = r * 0x1_0000 + groups[i] as u128;
        i = i + 1;
    }
    assert(groups@.take(groups@.len() as int) =~= groups@);
    r
}

/// The address of version 6 that a text names.
pub fn ipv6_from_str(val: &str) -> (r: Option<u128>)
    ensures
        r == ipv6_value(val@),
{
    match split_once_double_colon(val) {
        Some((head_text, tail_text)) => {
            let head = parse_groups(head_text)?;
            let mut tail = parse_groups(tail_text)?;
            if head.len() > 7 || tail.len() > 7 - head.len() {
                return None;
            }
            let ghost h = head@;
            let ghost t = tail@;
            let mut all = head;
            let mut i: usize = all.len() + tail.len();
            while i < 8
                invariant
                    h.len() + t.len() <= i <= 8,
                    tail@ == t,
                    all@ == h + Seq::new((i - h.len() - t.len()) as nat, |j: int| 0u16),
                decreases 8 - i,
            {
                all.push(0);
                i = i + 1;
                assert(all@ =~= h + Seq::new((i - h.len() - t.len()) as nat, |j: int| 0u16));
            }
            all.append(&mut tail);
            assert(all@ =~= filled(h, t));
            Some(pack_groups(&all))
        },
        None => {
            let groups = parse_groups(val)?;
            if groups.len() != 8 {
                return None;
            }
            Some(pack_groups(&groups))
        },
    }
}

/// A number written in decimal is made of digits and spells the number; it
/// has one digit where the number is below 10 and begins with no zero
/// else, and it has three digits at most where the number is up to 255.
proof fn lemma_decimal_is_read_back(n: nat)
    ensures
        decimal(n).len() >= 1,
        forall|i: int| 0 <= i < decimal(n).len() ==> '0' <= #[trigger] decimal(n)[i] <= '9',
        field_number(decimal(n), false) == Some(n),
        n < 10 ==> decimal(n).len() == 1,
        n >= 10 ==> decimal(n)[0] != '0',
        n < 100 ==> decimal(n).len() <= 2,
        n < 1000 ==> decimal(n).len() <= 3,
    decreases n,
{
    let d = decimal(n);
    let low = digit_char((n % 10) as int);
    let digit = digit_in(false);
    assert(decimal_digit(low) == Some(n % 10));
    assert(digit(low) == decimal_digit(low));
    if n < 10 {
        assert(d =~= seq![low]);
        assert(d.drop_last() =~= Seq::<char>::empty());
        assert(d.last() == low);
        assert(digits_value(d.drop_last(), 10, digit) == Some(0nat));
        assert(digits_value(d, 10, digit) == Some(n));
    } else {
        lemma_decimal_is_read_back(n / 10);
        let high = decimal(n / 10);
        assert(d == high.push(low));
        assert(d.drop_last() =~= high);
        assert(d.last() == low);
        assert(d[0] == high[0]);
        assert(digits_value(d.drop_last(), 10, digit) == Some(n / 10));
        assert(digits_value(d, 10, digit) == Some((n / 10) * 10 + n % 10));
        if n / 10 < 10 {
            assert(high =~= seq![digit_char((n / 10) as int)]);
        }
        assert forall|i: int| 0 <= i < d.len() implies '0' <= #[trigger] d[i] <= '9' by {
            if i < high.len() {
                assert(d[i] == high[i]);
            }
        }
    }
}

/// A text that holds no `c`, with `c` and another text after it, has that
/// text as its first field and the fields of the other after it.
proof fn lemma_split_on_first(a: Seq<char>, c: char, rest: Seq<char>)
    requires
        forall|i: int| 0 <= i < a.len() ==> #[trigger] a[i] != c,
    ensures
        split_on(a + seq![c] + rest, c) == seq![a] + split_on(rest, c),
        split_on(a, c) == seq![a],
{
    let whole = a + seq![c] + rest;
    assert forall|i: int| 0 <= i < a.len() implies #[trigger] whole[i] != c by {
        assert(whole[i] == a[i]);
    }
    assert(whole[a.len() as int] == c);
    lemma_first_index_of_is(whole, c, a.len() as int);
    lemma_first_index_of_is(a, c, a.len() as int);
    assert(whole.take(a.len() as int) =~= a);
    assert(whole.skip(a.len() as int + 1) =~= rest);
}

/// What is written is read back: the text of an address of version 4 names
/// that address.
pub proof fn lemma_ipv4_text_is_read_back(ip: u32)
    ensures
        ipv4_value(ipv4_text(ip)) == Some(ip),
{
    let a = (ip / 0x100_0000) as nat;
    let b = ((ip / 0x1_0000) % 256) as nat;
    let c = ((ip / 0x100) % 256) as nat;
    let d = (ip % 256) as nat;
    reveal_strlit(".");
    assert("."@ =~= seq!['.']);
    lemma_decimal_is_read_back(a);
    lemma_decimal_is_read_back(b);
    lemma_decimal_is_read_back(c);
    lemma_decimal_is_read_back(d);
    let ta = decimal(a);
    let tb = decimal(b);
    let tc = decimal(c);
    let td = decimal(d);
    let text = ipv4_text(ip);
    assert(text =~= ta + seq!['.'] + (tb + seq!['.'] + (tc + seq!['.'] + td)));
    lemma_split_on_first(ta, '.', tb + seq!['.'] + (tc + seq!['.'] + td));
    lemma_split_on_first(tb, '.', tc + seq!['.'] + td);
    lemma_split_on_first(tc, '.', td);
    lemma_split_on_first(td, '.', Seq::<char>::empty());
    let fields = split_on(text, '.');
    assert(fields =~= seq![ta, tb, tc, td]);
    assert(octet_value(ta) == Some(a as u32));
    assert(octet_value(tb) == Some(b as u32));
    assert(octet_value(tc) == Some(c as u32));
    assert(octet_value(td) == Some(d as u32));
    assert(((a * 256 + b) * 256 + c) * 256 + d == ip);
}

/// A hexadecimal digit, as it is written, stands for its number.
proof fn lemma_hex_digit_is_read_back(d: nat)
    requires
        d < 16,
    ensures
        hex_digit(hex_digit_char(d as int)) == Some(d),
        hex_digit_char(d as int) != ':',
{
}

/// A group written in hexadecimal is made of one to four hexadecimal digits
/// and spells the group.
proof fn lemma_hexadecimal_is_read_back(n: nat)
    ensures
        hexadecimal(n).len() >= 1,
        forall|i: int| 0 <= i < hexadecimal(n).len() ==> #[trigger] hexadecimal(n)[i] != ':',
        field_number(hexadecimal(n), true) == Some(n),
        n < 0x10 ==> hexadecimal(n).len() == 1,
        n < 0x100 ==> hexadecimal(n).len() <= 2,
        n < 0x1000 ==> hexadecimal(n).len() <= 3,
        n < 0x1_0000 ==> hexadecimal(n).len() <= 4,
    decreases n,
{
    let d = hexadecimal(n);
    let low = hex_digit_char((n % 16) as int);
    let digit = digit_in(true);
    lemma_hex_digit_is_read_back(n % 16);
    assert(digit(low) == hex_digit(low));
    if n < 16 {
        assert(d =~= seq![low]);
        assert(d.drop_last() =~= Seq::<char>::empty());
        assert(d.last() == low);
        assert(digits_value(d.drop_last(), 16, digit) == Some(0nat));
        assert(digits_value(d, 16, digit) == Some(n));
    } else {
        lemma_hexadecimal_is_read_back(n / 16);
        let high = hexadecimal(n / 16);
        assert(d == high.push(low));
        assert(d.drop_last() =~= high);
        assert(d.last() == low);
        assert(digits_value(d.drop_last(), 16, digit) == Some(n / 16));
        assert(digits_value(d, 16, digit) == Some((n / 16) * 16 + n % 16));
        assert forall|i: int| 0 <= i < d.len() implies #[trigger] d[i] != ':' by {
            if i < high.len() {
                assert(d[i] == high[i]);
            }
        }
    }
}

/// A text with `c` and a text that holds no `c` after it has the fields of
/// the first and then the second.
proof fn lemma_split_on_last(a: Seq<char>, c: char, last: Seq<char>)
    requires
        forall|i: int| 0 <= i < last.len() ==> #[trigger] last[i] != c,
    ensures
        split_on(a + seq![c] + last, c) == split_on(a, c) + seq![last],
    decreases a.len(),
{
    let whole = a + seq![c] + last;
    crate::text::lemma_first_index_of(a, c);
    let i = first_index_of(a, c);
    assert forall|j: int| 0 <= j < i implies #[trigger] whole[j] != c by {
        assert(whole[j] == a[j]);
    }
    if i < a.len() {
        assert(whole[i] == a[i]);
        lemma_first_index_of_is(whole, c, i);
        assert(whole.take(i) =~= a.take(i));
        assert(whole.skip(i + 1) =~= a.skip(i + 1) + seq![c] + last);
        lemma_split_on_last(a.skip(i + 1), c, last);
        assert(split_on(whole, c) == seq![a.take(i)] + split_on(whole.skip(i + 1), c));
        assert(split_on(a, c) == seq![a.take(i)] + split_on(a.skip(i + 1), c));
        assert(seq![a.take(i)] + (split_on(a.skip(i + 1), c) + seq![last]) =~= (seq![a.take(i)]
            + split_on(a.skip(i + 1), c)) + seq![last]);
    } else {
        assert(whole[i] == c);
        lemma_first_index_of_is(whole, c, i);
        assert(whole.take(i) =~= a);
        assert(whole.skip(i + 1) =~= last);
        lemma_first_index_of_is(last, c, last.len() as int);
        assert(split_on(last, c) == seq![last]);
        assert(split_on(a, c) == seq![a]);
        assert(split_on(whole, c) == seq![a] + split_on(last, c));
    }
}

/// Groups that are written with colons between them: the text is not empty
/// where there is a group, it neither begins nor ends with a colon, no two
/// colons stand side by side in it, and its fields are the groups as they
/// are written.
proof fn lemma_joined_groups(groups: Seq<u16>)
    ensures
        ({
            let text = joined(hex_groups(groups), ":"@);
            &&& groups.len() > 0 ==> text.len() > 0 && text[0] != ':' && text.last() != ':'
            &&& groups.len() == 0 ==> text.len() == 0
            &&& forall|j: int|
                0 <= j && j + 1 < text.len() ==> !(#[trigger] text[j] == ':' && text[j + 1] == ':')
            &&& groups.len() > 0 ==> split_on(text, ':') == hex_groups(groups)
            &&& groups_value(text) == Some(groups)
        }),
    decreases groups.len(),
{
    reveal_strlit(":");
    assert(":"@ =~= seq![':']);
    let parts = hex_groups(groups);
    let text = joined(parts, ":"@);
    if groups.len() == 0 {
        assert(groups =~= Seq::<u16>::empty());
    } else {
        let last = hexadecimal(groups.last() as nat);
        lemma_hexadecimal_is_read_back(groups.last() as nat);
        assert(parts.last() == last);
        assert(group_value(last) == Some(groups.last()));
        if groups.len() == 1 {
            assert(text == parts[0]);
            lemma_first_index_of_is(last, ':', last.len() as int);
            assert(split_on(text, ':') =~= seq![last]);
            assert(parts =~= seq![last]);
        } else {
            let before = groups.drop_last();
            lemma_joined_groups(before);
            assert(parts.drop_last() =~= hex_groups(before));
            let head = joined(hex_groups(before), ":"@);
            assert(text == head + seq![':'] + last);
            lemma_split_on_last(head, ':', last);
            assert(split_on(text, ':') =~= hex_groups(before) + seq![last]);
            assert(parts =~= hex_groups(before) + seq![last]);
            assert forall|j: int| 0 <= j && j + 1 < text.len() implies !(#[trigger] text[j] == ':'
                && text[j + 1] == ':') by {
                if j + 1 < head.len() {
                    assert(text[j] == head[j]);
                    assert(text[j + 1] == head[j + 1]);
                } else if j + 1 == head.len() {
                    assert(text[j] == head.last());
                } else if j == head.len() {
                    assert(text[j + 1] == last[0]);
                } else {
                    assert(text[j] == last[j - head.len() - 1]);
                }
            }
            assert(text[0] == head[0]);
            assert(text.last() == last.last());
        }
        let fields = split_on(text, ':');
        assert forall|i: int| 0 <= i < fields.len() implies group_value(#[trigger] fields[i])
            == Some(groups[i]) by {
            lemma_hexadecimal_is_read_back(groups[i] as nat);
            assert(fields[i] == hexadecimal(groups[i] as nat));
        }
        assert(fields.map_values(|x: Seq<char>| group_value(x)->0) =~= groups);
    }
}

/// The groups from a position on that `zero_run` counts are zero.
proof fn lemma_zero_run(groups: Seq<u16>, from: int)
    requires
        0 <= from <= groups.len(),
    ensures
        0 <= zero_run(groups, from),
        from + zero_run(groups, from) <= groups.len(),
        forall|j: int| from <= j < from + zero_run(groups, from) ==> #[trigger] groups[j] == 0,
    decreases groups.len() - from,
{
    if from < groups.len() && groups[from] == 0 {
        lemma_zero_run(groups, from + 1);
    }
}

/// The position at which the longest run begins lies among the positions
/// that were looked at.
proof fn lemma_longest_run_start(groups: Seq<u16>, upto: int)
    requires
        1 <= upto,
    ensures
        0 <= longest_run_start(groups, upto) < upto,
    decreases upto,
{
    if upto > 1 {
        lemma_longest_run_start(groups, upto - 1);
    }
}

/// The groups of a number spell the number.
proof fn lemma_groups_spell(n: nat, count: nat)
    ensures
        groups_of(n, count).len() == count,
        count == 8 && n < 0x1_0000_0000_0000_0000_0000_0000_0000_0000 ==> from_groups(
            groups_of(n, count),
        ) == n,
{
    lemma_groups_len(n, count);
    if count == 8 && n < 0x1_0000_0000_0000_0000_0000_0000_0000_0000 {
        lemma_groups_value(n, 8);
        let n1 = n / 0x1_0000;
        let n2 = n1 / 0x1_0000;
        let n3 = n2 / 0x1_0000;
        let n4 = n3 / 0x1_0000;
        let n5 = n4 / 0x1_0000;
        let n6 = n5 / 0x1_0000;
        let n7 = n6 / 0x1_0000;
        let n8 = n7 / 0x1_0000;
        assert(n8 == 0);
        assert(high_part(n8, 0) == n8);
        assert(high_part(n7, 1) == n8);
        assert(high_part(n6, 2) == n8);
        assert(high_part(n5, 3) == n8);
        assert(high_part(n4, 4) == n8);
        assert(high_part(n3, 5) == n8);
        assert(high_part(n2, 6) == n8);
        assert(high_part(n1, 7) == n8);
        assert(high_part(n, 8) == n8);
        assert(high_part(n, 8) * weight(8) == 0) by (nonlinear_arith)
            requires
                high_part(n, 8) == 0,
        ;
    }
}

/// A number has as many groups as are asked for.
proof fn lemma_groups_len(n: nat, count: nat)
    ensures
        groups_of(n, count).len() == count,
    decreases count,
{
    if count > 0 {
        lemma_groups_len(n / 0x1_0000, (count - 1) as nat);
    }
}

/// The last `count` groups of a number spell what is left of the number
/// when the groups above them are taken off.
proof fn lemma_groups_value(n: nat, count: nat)
    ensures
        from_groups(groups_of(n, count)) + high_part(n, count) * weight(count) == n,
    decreases count,
{
    if count > 0 {
        let g = groups_of(n, count);
        let before = groups_of(n / 0x1_0000, (count - 1) as nat);
        lemma_groups_value(n / 0x1_0000, (count - 1) as nat);
        assert(g.drop_last() =~= before);
        assert(g.last() == (n % 0x1_0000) as u16);
        let fb = from_groups(before);
        let h = high_part(n, count);
        let w = weight((count - 1) as nat);
        assert(from_groups(g) == fb * 0x1_0000 + n % 0x1_0000);
        assert(h == high_part(n / 0x1_0000, (count - 1) as nat));
        assert(weight(count) == w * 0x1_0000);
        assert(fb + h * w == n / 0x1_0000);
        assert(h * weight(count) == (h * w) * 0x1_0000) by (nonlinear_arith)
            requires
                weight(count) == w * 0x1_0000,
        ;
        assert((fb + h * w) * 0x1_0000 == fb * 0x1_0000 + (h * w) * 0x1_0000) by (nonlinear_arith);
        assert((n / 0x1_0000) * 0x1_0000 + n % 0x1_0000 == n);
    } else {
        assert(groups_of(n, count) =~= Seq::<u16>::empty());
        assert(high_part(n, count) == n);
        assert(weight(count) == 1);
        assert(n * 1 == n);
    }
}

/// What is written is read back: the text of an address of version 6 names
/// that address.
pub proof fn lemma_ipv6_text_is_read_back(ip: u128)
    ensures
        ipv6_value(ipv6_text(ip)) == Some(ip),
{
    let groups = groups_of(ip as nat, 8);
    lemma_groups_spell(ip as nat, 8);
    lemma_longest_run_start(groups, 8);
    let start = longest_run_start(groups, 8);
    lemma_zero_run(groups, start);
    let len = zero_run(groups, start);
    reveal_strlit("::");
    reveal_strlit(":");
    assert("::"@ =~= seq![':', ':']);
    let text = ipv6_text(ip);
    if len >= 2 {
        let head = groups.take(start);
        let tail = groups.skip(start + len);
        lemma_joined_groups(head);
        lemma_joined_groups(tail);
        let h = joined(hex_groups(head), ":"@);
        let t = joined(hex_groups(tail), ":"@);
        assert(text == h + seq![':', ':'] + t);
        let p = h.len() as int;
        assert(text[p] == ':');
        assert(text[p + 1] == ':');
        assert forall|j: int| 0 <= j < p && j + 1 < text.len() implies !(#[trigger] text[j] == ':'
            && text[j + 1] == ':') by {
            assert(text[j] == h[j]);
            if j + 1 < p {
                assert(text[j + 1] == h[j + 1]);
            } else {
                assert(h[j] == h.last());
            }
        }
        lemma_first_double_colon_is(text, p);
        assert(text.take(p) =~= h);
        assert(text.skip(p + 2) =~= t);
        assert(filled(head, tail) =~= groups) by {
            assert forall|j: int| 0 <= j < 8 implies filled(head, tail)[j] == groups[j] by {
                if start <= j < start + len {
                    assert(groups[j] == 0);
                }
            }
        }
    } else {
        lemma_joined_groups(groups);
        lemma_first_double_colon_is(text, text.len() as int);
    }
}

/// A text that holds a digit of no kind spells no number.
proof fn lemma_no_number(f: Seq<char>, k: int, hexadecimal: bool)
    requires
        0 <= k < f.len(),
        digit_in(hexadecimal)(f[k]) is None,
    ensures
        field_number(f, hexadecimal) is None,
    decreases f.len(),
{
    if k < f.len() - 1 {
        assert(f.drop_last()[k] == f[k]);
        lemma_no_number(f.drop_last(), k, hexadecimal);
    }
}

/// A character of a text that is not `c` stands in one of the fields of the
/// text.
proof fn lemma_field_holds(s: Seq<char>, c: char, k: int) -> (at: (int, int))
    requires
        0 <= k < s.len(),
        s[k] != c,
    ensures
        0 <= at.0 < split_on(s, c).len(),
        0 <= at.1 < split_on(s, c)[at.0].len(),
        split_on(s, c)[at.0][at.1] == s[k],
    decreases s.len(),
{
    crate::text::lemma_first_index_of(s, c);
    let i = first_index_of(s, c);
    if i < s.len() {
        if k < i {
            assert(s.take(i)[k] == s[k]);
            (0, k)
        } else {
            let rest = s.skip(i + 1);
            assert(rest[k - i - 1] == s[k]);
            let at = lemma_field_holds(rest, c, k - i - 1);
            let fields = seq![s.take(i)] + split_on(rest, c);
            assert(fields[at.0 + 1] == split_on(rest, c)[at.0]);
            (at.0 + 1, at.1)
        }
    } else {
        (0, k)
    }
}

/// A text that holds a colon names no address of version 4.
pub proof fn lemma_colon_is_no_ipv4(s: Seq<char>, k: int)
    requires
        0 <= k < s.len(),
        s[k] == ':',
    ensures
        ipv4_value(s) is None,
{
    let at = lemma_field_holds(s, '.', k);
    let fields = split_on(s, '.');
    if fields.len() == 4 {
        let f = fields[at.0];
        assert(digit_in(false)(f[at.1]) == decimal_digit(':'));
        lemma_no_number(f, at.1, false);
        assert(octet_value(f) is None);
    }
}

/// The text of an address of version 6 holds a colon, so it names no
/// address of version 4.
pub proof fn lemma_ipv6_text_is_no_ipv4(ip: u128)
    ensures
        ipv4_value(ipv6_text(ip)) is None,
{
    let groups = groups_of(ip as nat, 8);
    lemma_groups_len(ip as nat, 8);
    lemma_longest_run_start(groups, 8);
    let start = longest_run_start(groups, 8);
    let len = zero_run(groups, start);
    reveal_strlit("::");
    reveal_strlit(":");
    assert("::"@ =~= seq![':', ':']);
    assert(":"@ =~= seq![':']);
    let text = ipv6_text(ip);
    if len >= 2 {
        let h = joined(hex_groups(groups.take(start)), ":"@);
        assert(text[h.len() as int] == ':');
        lemma_colon_is_no_ipv4(text, h.len() as int);
    } else {
        let parts = hex_groups(groups);
        let before = joined(parts.drop_last(), ":"@);
        assert(text == before + seq![':'] + parts.last());
        assert(text[before.len() as int] == ':');
        lemma_colon_is_no_ipv4(text, before.len() as int);
    }
}

/// What is left of a number above its last `count` groups.
pub open spec fn high_part(n: nat, count: nat) -> nat
    decreases count,
{
    if count == 0 {
        n
    } else {
        high_part(n / 0x1_0000, (count - 1) as nat)
    }
}

/// What a group above `count` groups counts for.
pub open spec fn weight(count: nat) -> nat
    decreases count,
{
    if count == 0 {
        1
    } else {
        weight((count - 1) as nat) * 0x1_0000
    }
}

} // verus!
