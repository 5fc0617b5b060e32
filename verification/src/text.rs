//! Text helpers: labels, clock readings and hexadecimal names.
use vstd::prelude::*;
use vstd::string::*;
use vstd::utf8::*;

use crate::names::texts;

verus! {

/// The character for one digit, in any base up to sixteen.
pub open spec fn digit_char(d: nat) -> char {
    if d < 10 {
        (48 + d) as char
    } else {
        (87 + d) as char
    }
}

/// A number in decimal, without leading zeros.
pub open spec fn decimal(n: nat) -> Seq<char>
    decreases n,
{
    if n < 10 {
        seq![digit_char(n)]
    } else {
        decimal(n / 10).push(digit_char(n % 10))
    }
}

/// The last `width` hexadecimal digits of a number, lower case.
pub open spec fn hex(n: nat, width: nat) -> Seq<char>
    decreases width,
{
    if width == 0 {
        Seq::empty()
    } else {
        hex(n / 16, (width - 1) as nat).push(digit_char(n % 16))
    }
}

/// Minutes and two-digit seconds of a time in microseconds.
pub open spec fn time_text(us: u64) -> Seq<char> {
    let secs = us as nat / 1_000_000;
    decimal(secs / 60) + seq![':', digit_char(secs % 60 / 10), digit_char(secs % 60 % 10)]
}

/// A label cut to `max` characters, with an ellipsis where something was cut.
pub open spec fn truncated(s: Seq<char>, max: nat) -> Seq<char> {
    if s.len() > max {
        s.take(max as int).push('\u{2026}')
    } else {
        s
    }
}

fn digit_str(d: u8) -> (r: &'static str)
    requires
        d < 16,
    ensures
        r@ == seq![digit_char(d as nat)],
{
    proof {
        reveal_strlit("0");
        reveal_strlit("1");
        reveal_strlit("2");
        reveal_strlit("3");
        reveal_strlit("4");
        reveal_strlit("5");
        reveal_strlit("6");
        reveal_strlit("7");
        reveal_strlit("8");
        reveal_strlit("9");
        reveal_strlit("a");
        reveal_strlit("b");
        reveal_strlit("c");
        reveal_strlit("d");
        reveal_strlit("e");
        reveal_strlit("f");
    }
    match d {
        0 => "0",
        1 => "1",
        2 => "2",
        3 => "3",
        4 => "4",
        5 => "5",
        6 => "6",
        7 => "7",
        8 => "8",
        9 => "9",
        10 => "a",
        11 => "b",
        12 => "c",
        13 => "d",
        14 => "e",
        _ => "f",
    }
}

/// Appends a number in decimal.
pub fn append_decimal(out: &mut String, n: u64)
    ensures
        final(out)@ == old(out)@ + decimal(n as nat),
    decreases n,
{
    if n >= 10 {
        append_decimal(out, n / 10);
    }
    out.append(digit_str((n % 10) as u8));
    assert(out@ =~= old(out)@ + decimal(n as nat));
}

/// Appends the last `width` hexadecimal digits of a number.
pub fn append_hex(out: &mut String, n: u64, width: u8)
    ensures
        final(out)@ == old(out)@ + hex(n as nat, width as nat),
    decreases width,
{
    if width > 0 {
        append_hex(out, n / 16, width - 1);
        out.append(digit_str((n % 16) as u8));
    }
    assert(out@ =~= old(out)@ + hex(n as nat, width as nat));
}

/// A time in microseconds as `minutes:seconds`, the seconds always two digits.
pub fn format_time(us: u64) -> (r: String)
    ensures
        r@ == time_text(us),
{
    let secs: u64 = us / 1_000_000;
    let mins: u64 = secs / 60;
    let rest: u64 = secs % 60;
    let mut out = String::new();
    append_decimal(&mut out, mins);
    out.append(":");
    out.append(digit_str((rest / 10) as u8));
    out.append(digit_str((rest % 10) as u8));
    proof {
        reveal_strlit(":");
        assert(out@ =~= time_text(us));
    }
    out
}

/// At most `max_chars` characters of a label, counted as characters and not as
/// bytes; an ellipsis marks a label that was cut.
pub fn truncate_label(s: &str, max_chars: usize) -> (r: String)
    ensures
        r@ == truncated(s@, max_chars as nat),
{
    if s.unicode_len() > max_chars {
        let mut out = s.substring_char(0, max_chars).to_owned();
        out.append("\u{2026}");
        proof {
            reveal_strlit("\u{2026}");
            assert(out@ =~= truncated(s@, max_chars as nat));
        }
        out
    } else {
        s.to_owned()
    }
}

/// Whether two texts are the same.
pub fn same_text(a: &str, b: &str) -> (r: bool)
    ensures
        r == (a@ == b@),
{
    let x = a.as_bytes();
    let y = b.as_bytes();
    proof {
        encode_utf8_decode_utf8(a@);
        encode_utf8_decode_utf8(b@);
    }
    if x.len() != y.len() {
        return false;
    }
    let mut i: usize = 0;
    while i < x.len()
        invariant
            i <= x.len(),
            x@ == encode_utf8(a@),
            y@ == encode_utf8(b@),
            x.len() == y.len(),
            forall|k: int| 0 <= k < i ==> x@[k] == y@[k],
        decreases x.len() - i,
    {
        if x[i] != y[i] {
            return false;
        }
        i = i + 1;
    }
    assert(x@ =~= y@);
    true
}

/// What follows a prefix, where the text starts with it.
pub open spec fn after_prefix(s: Seq<char>, prefix: Seq<char>) -> Option<Seq<char>> {
    if prefix.is_prefix_of(s) {
        Some(s.skip(prefix.len() as int))
    } else {
        None
    }
}

/// The part of a text behind a prefix, or nothing where it starts otherwise.
pub fn strip_prefix<'a>(s: &'a str, prefix: &str) -> (r: Option<&'a str>)
    ensures
        match r {
            Some(rest) => after_prefix(s@, prefix@) == Some(rest@),
            None => after_prefix(s@, prefix@) is None,
        },
{
    let n: usize = prefix.unicode_len();
    let total: usize = s.unicode_len();
    if total < n {
        return None;
    }
    if same_text(s.substring_char(0, n), prefix) {
        let rest = s.substring_char(n, total);
        proof {
            assert(s@.subrange(0, n as int) == prefix@);
            assert(rest@ =~= s@.skip(n as int));
        }
        Some(rest)
    } else {
        proof {
            if prefix@.is_prefix_of(s@) {
                assert(s@.subrange(0, n as int) =~= prefix@);
            }
        }
        None
    }
}

/// Texts one behind the other, with a separator between each two.
pub open spec fn joined(list: Seq<Seq<char>>, sep: Seq<char>) -> Seq<char> {
    if list.len() == 0 {
        Seq::empty()
    } else {
        list.skip(1).fold_left(list[0], |acc: Seq<char>, t: Seq<char>| acc + sep + t)
    }
}

/// Joins texts with a separator.
pub fn join(list: &Vec<String>, sep: &str) -> (r: String)
    ensures
        r@ == joined(texts(list@), sep@),
{
    if list.len() == 0 {
        return String::new();
    }
    let ghost all = texts(list@);
    let ghost f = |acc: Seq<char>, t: Seq<char>| acc + sep@ + t;
    let mut out = list[0].clone();
    let mut i: usize = 1;
    assert(all.skip(1).take(0) =~= Seq::<Seq<char>>::empty());
    while i < list.len()
        invariant
            1 <= i <= list.len(),
            all == texts(list@),
            f == |acc: Seq<char>, t: Seq<char>| acc + sep@ + t,
            out@ == all.skip(1).take(i - 1).fold_left(all[0], f),
        decreases list.len() - i,
    {
        out.append(sep);
        out.append(list[i].as_str());
        proof {
            let part = all.skip(1).take(i as int);
            assert(part.drop_last() =~= all.skip(1).take(i - 1));
            assert(part.last() == all[i as int]);
        }
        i = i + 1;
    }
    assert(all.skip(1).take(i - 1) =~= all.skip(1));
    out
}

pub proof fn lemma_decimal_injective(a: nat, b: nat)
    requires
        decimal(a) == decimal(b),
    ensures
        a == b,
    decreases a,
{
    lemma_decimal_nonempty(a / 10);
    lemma_decimal_nonempty(b / 10);
    assert(decimal(a).last() == digit_char(a % 10));
    assert(decimal(b).last() == digit_char(b % 10));
    assert(a % 10 == b % 10);
    assert(decimal(a).len() == decimal(b).len());
    if a >= 10 {
        assert(b >= 10);
        assert(decimal(a).drop_last() =~= decimal(a / 10));
        assert(decimal(b).drop_last() =~= decimal(b / 10));
        lemma_decimal_injective(a / 10, b / 10);
    } else {
        assert(b < 10);
    }
}

pub proof fn lemma_decimal_nonempty(n: nat)
    ensures
        decimal(n).len() >= 1,
    decreases n,
{
    if n >= 10 {
        lemma_decimal_nonempty(n / 10);
    }
}

/// The clock reading shows the whole second and nothing finer: two times read
/// the same exactly when they fall in the same second.
pub proof fn law_time_shows_the_second(a: u64, b: u64)
    ensures
        time_text(a) == time_text(b) <==> a / 1_000_000 == b / 1_000_000,
{
    let x = a as nat / 1_000_000;
    let y = b as nat / 1_000_000;
    let tail_x = seq![':', digit_char(x % 60 / 10), digit_char(x % 60 % 10)];
    let tail_y = seq![':', digit_char(y % 60 / 10), digit_char(y % 60 % 10)];
    if time_text(a) == time_text(b) {
        let n = decimal(x / 60).len() as int;
        let t = time_text(a);
        assert(t.len() == n + 3);
        assert(t.take(n) =~= decimal(x / 60));
        assert(t.take(n) =~= decimal(y / 60));
        lemma_decimal_injective(x / 60, y / 60);
        assert(t[n + 1] == tail_x[1] && t[n + 1] == tail_y[1]);
        assert(t[n + 2] == tail_x[2] && t[n + 2] == tail_y[2]);
    }
}

/// The seconds of a clock reading are always two digits behind a colon.
pub proof fn law_time_pads_seconds(us: u64)
    ensures
        time_text(us).len() >= 4,
        time_text(us)[time_text(us).len() - 3] == ':',
        time_text(us)[time_text(us).len() - 2] == digit_char(us as nat / 1_000_000 % 60 / 10),
        time_text(us)[time_text(us).len() - 1] == digit_char(us as nat / 1_000_000 % 60 % 10),
{
    lemma_decimal_nonempty(us as nat / 1_000_000 / 60);
}

/// Cutting a label a second time to the same length changes nothing.
pub proof fn law_truncating_twice(s: Seq<char>, max: nat)
    ensures
        truncated(truncated(s, max), max) == truncated(s, max),
{
    if s.len() > max {
        assert(truncated(s, max).take(max as int) =~= s.take(max as int));
    }
}

/// A label keeps its first characters whole, and only a cut one gains the
/// ellipsis: nothing but the cut is ever lost.
pub proof fn law_truncated_keeps_the_start(s: Seq<char>, max: nat)
    ensures
        truncated(s, max).len() <= max + 1,
        s.len() <= max ==> truncated(s, max) == s,
        s.len() > max ==> s.take(max as int).is_prefix_of(truncated(s, max)),
        s.len() > max ==> truncated(s, max).last() == '\u{2026}',
{
}

/// Numbers below sixteen to the power of the width have different digits.
pub proof fn lemma_hex_injective(a: nat, b: nat, width: nat)
    requires
        a < vstd::arithmetic::power::pow(16, width),
        b < vstd::arithmetic::power::pow(16, width),
        hex(a, width) == hex(b, width),
    ensures
        a == b,
    decreases width,
{
    reveal(vstd::arithmetic::power::pow);
    if width > 0 {
        let w = (width - 1) as nat;
        assert(hex(a, width).last() == digit_char(a % 16));
        assert(hex(b, width).last() == digit_char(b % 16));
        assert(hex(a, width).drop_last() =~= hex(a / 16, w));
        assert(hex(b, width).drop_last() =~= hex(b / 16, w));
        assert(a % 16 == b % 16);
        lemma_hex_injective(a / 16, b / 16, w);
    }
}

pub proof fn lemma_hex_len(n: nat, width: nat)
    ensures
        hex(n, width).len() == width,
    decreases width,
{
    if width > 0 {
        lemma_hex_len(n / 16, (width - 1) as nat);
    }
}

} // verus!
