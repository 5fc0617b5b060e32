//! What the texts say: numbers read back, labels, prefixes, lists and orders.
use vstd::arithmetic::power::pow;
use vstd::prelude::*;
use vstd::utf8::*;

use crate::metadata::{leading_year, track_of, year_of, Entry};
use crate::names::{bytes_le, lemma_sorted_names, name_order, sorted_names};
use crate::text::{
    after_prefix, decimal, digit_char, hex, joined, lemma_decimal_nonempty, lemma_hex_len,
    time_text, truncated,
};

verus! {

/// The digit that a character stands for.
pub open spec fn digit_read(c: char) -> int {
    if '0' <= c && c <= '9' {
        c as int - 48
    } else {
        c as int - 87
    }
}

/// The number that digits stand for.
pub open spec fn number_read(s: Seq<char>, base: int) -> int
    decreases s.len(),
{
    if s.len() == 0 {
        0
    } else {
        number_read(s.drop_last(), base) * base + digit_read(s.last())
    }
}

/// A number in decimal reads back as itself, in digits alone and without a
/// leading zero.
pub proof fn law_decimal_reads_back(n: nat)
    ensures
        number_read(decimal(n), 10) == n,
        forall|i: int|
            0 <= i < decimal(n).len() ==> '0' <= #[trigger] decimal(n)[i] && decimal(n)[i] <= '9',
        decimal(n).len() > 0,
        decimal(n)[0] == '0' ==> n == 0 && decimal(n).len() == 1,
    decreases n,
{
    let t = decimal(n);
    if n < 10 {
        assert(t.drop_last() =~= Seq::<char>::empty());
        assert(t.last() == digit_char(n));
        assert(number_read(t.drop_last(), 10) == 0);
    } else {
        law_decimal_reads_back(n / 10);
        assert(t.drop_last() =~= decimal(n / 10));
        assert(t.last() == digit_char(n % 10));
        assert forall|i: int| 0 <= i < t.len() implies '0' <= #[trigger] t[i] && t[i] <= '9' by {
            if i < t.len() - 1 {
                assert(t[i] == decimal(n / 10)[i]);
            }
        }
        assert(t[0] == decimal(n / 10)[0]);
    }
}

/// A number in hexadecimal digits of its width reads back as itself.
pub proof fn law_hex_reads_back(n: nat, width: nat)
    requires
        n < pow(16, width),
    ensures
        hex(n, width).len() == width,
        number_read(hex(n, width), 16) == n,
        forall|i: int|
            0 <= i < width ==> {
                let c = #[trigger] hex(n, width)[i];
                ('0' <= c && c <= '9') || ('a' <= c && c <= 'f')
            },
    decreases width,
{
    reveal(pow);
    lemma_hex_len(n, width);
    if width > 0 {
        let w = (width - 1) as nat;
        let t = hex(n, width);
        assert(n / 16 < pow(16, w));
        law_hex_reads_back(n / 16, w);
        assert(t.drop_last() =~= hex(n / 16, w));
        assert(t.last() == digit_char(n % 16));
        assert forall|i: int| 0 <= i < width implies {
            let c = #[trigger] t[i];
            ('0' <= c && c <= '9') || ('a' <= c && c <= 'f')
        } by {
            if i < w {
                assert(t[i] == hex(n / 16, w)[i]);
            }
        }
    }
}

/// A clock reading reads back: the whole minutes, a colon, and two digits of
/// seconds.
pub proof fn law_time_reads_back(us: u64)
    ensures
        ({
            let t = time_text(us);
            let n = t.len() - 3;
            &&& n > 0
            &&& number_read(t.take(n), 10) == us as int / 60_000_000
            &&& t[n] == ':'
            &&& number_read(t.skip(n + 1), 10) == us as int / 1_000_000 % 60
            &&& '0' <= t[n + 1] && t[n + 1] <= '5'
            &&& '0' <= t[n + 2] && t[n + 2] <= '9'
        }),
{
    let t = time_text(us);
    let secs = us as nat / 1_000_000;
    let n = t.len() - 3;
    lemma_decimal_nonempty(secs / 60);
    law_decimal_reads_back(secs / 60);
    assert(t.take(n) =~= decimal(secs / 60));
    let two = t.skip(n + 1);
    assert(two.len() == 2);
    let one = two.drop_last();
    assert(one.drop_last() =~= Seq::<char>::empty());
    assert(number_read(one.drop_last(), 10) == 0);
    assert(one.last() == digit_char(secs % 60 / 10));
    assert(two.last() == digit_char(secs % 60 % 10));
    assert(number_read(one, 10) == secs % 60 / 10);
    assert(number_read(two, 10) == (secs % 60 / 10) * 10 + secs % 60 % 10);
}

/// A label within the limit is whole. One beyond it has exactly the limit's
/// characters of its start, and an ellipsis behind them.
pub proof fn law_label_is_cut_at_the_limit(s: Seq<char>, max: nat)
    ensures
        s.len() <= max ==> truncated(s, max) == s,
        s.len() > max ==> {
            &&& truncated(s, max).len() == max + 1
            &&& forall|i: int| 0 <= i < max ==> #[trigger] truncated(s, max)[i] == s[i]
            &&& truncated(s, max)[max as int] == '\u{2026}'
        },
{
}

/// What is behind a prefix makes the text up again, and only a text that starts
/// otherwise has nothing there.
pub proof fn law_prefix_and_rest_make_the_text(s: Seq<char>, prefix: Seq<char>, rest: Seq<char>)
    ensures
        after_prefix(s, prefix) == Some(rest) <==> s == prefix + rest,
{
    if after_prefix(s, prefix) == Some(rest) {
        assert(s =~= prefix + rest);
    }
    if s == prefix + rest {
        assert(s.skip(prefix.len() as int) =~= rest);
    }
}

/// A list is joined in order: nothing of nothing, a lone text as it is, and each
/// further one behind a separator.
pub proof fn law_joining_appends(list: Seq<Seq<char>>, sep: Seq<char>, t: Seq<char>)
    ensures
        joined(Seq::empty(), sep) == Seq::<char>::empty(),
        joined(seq![t], sep) == t,
        list.len() > 0 ==> joined(list.push(t), sep) == joined(list, sep) + sep + t,
{
    let f = |acc: Seq<char>, u: Seq<char>| acc + sep + u;
    assert(seq![t].skip(1) =~= Seq::<Seq<char>>::empty());
    if list.len() > 0 {
        let all = list.push(t).skip(1);
        assert(all.drop_last() =~= list.skip(1));
        assert(all.last() == t);
    }
}

/// Whether one byte string stands before another in a dictionary, or is the
/// same.
pub open spec fn dictionary_order(a: Seq<u8>, b: Seq<u8>) -> bool {
    a.is_prefix_of(b) || exists|k: int|
        0 <= k < a.len() && k < b.len() && #[trigger] a[k] < b[k] && a.take(k) == b.take(k)
}

proof fn lemma_bytes_le_is_dictionary_order(a: Seq<u8>, b: Seq<u8>)
    requires
        bytes_le(a, b),
    ensures
        dictionary_order(a, b),
    decreases a.len(),
{
    if a.len() > 0 {
        if a[0] < b[0] {
            assert(a.take(0) =~= b.take(0));
        } else {
            let x = a.drop_first();
            let y = b.drop_first();
            lemma_bytes_le_is_dictionary_order(x, y);
            if x.is_prefix_of(y) {
                assert forall|i: int| 0 <= i < a.len() implies a[i] == b[i] by {
                    if i > 0 {
                        assert(x[i - 1] == y[i - 1]);
                    }
                }
                assert(a =~= b.subrange(0, a.len() as int));
            } else {
                let k = choose|k: int|
                    0 <= k < x.len() && k < y.len() && #[trigger] x[k] < y[k] && x.take(k)
                        == y.take(k);
                assert(a[k + 1] < b[k + 1]);
                assert forall|i: int| 0 <= i < k + 1 implies a[i] == b[i] by {
                    if i > 0 {
                        assert(x.take(k)[i - 1] == y.take(k)[i - 1]);
                    }
                }
                assert(a.take(k + 1) =~= b.take(k + 1));
            }
        }
    } else {
        assert(a =~= b.subrange(0, 0));
    }
}

/// Sorted names are the same names as often as before, in the order of their
/// bytes in a dictionary.
pub proof fn law_names_come_in_dictionary_order(names: Seq<Seq<char>>, i: int, j: int)
    requires
        0 <= i < j < sorted_names(names).len(),
    ensures
        sorted_names(names).to_multiset() == names.to_multiset(),
        dictionary_order(
            encode_utf8(sorted_names(names)[i]),
            encode_utf8(sorted_names(names)[j]),
        ),
{
    lemma_sorted_names(names);
    let s = sorted_names(names);
    assert(name_order()(s[i], s[j]));
    lemma_bytes_le_is_dictionary_order(encode_utf8(s[i]), encode_utf8(s[j]));
}

/// A date that starts with four digits gives the year that they read as, and one
/// that starts with a plus sign and three digits the year that those read as. No
/// other date gives a year.
pub proof fn law_date_starts_with_its_year(s: Seq<char>)
    ensures
        leading_year(s) is Some <==> s.len() >= 4 && (('0' <= s[0] && s[0] <= '9') || s[0] == '+')
            && forall|i: int| 1 <= i < 4 ==> '0' <= #[trigger] s[i] && s[i] <= '9',
        leading_year(s) matches Some(year) ==> year == number_read(
            if s[0] == '+' {
                s.subrange(1, 4)
            } else {
                s.take(4)
            },
            10,
        ),
{
    if leading_year(s) is Some {
        let a = s.subrange(1, 2);
        let b = s.subrange(1, 3);
        let c = s.subrange(1, 4);
        reveal_with_fuel(number_read, 5);
        assert(c.drop_last() =~= b);
        assert(b.drop_last() =~= a);
        assert(a.drop_last() =~= Seq::<char>::empty());
        assert(a.last() == s[1] && b.last() == s[2] && c.last() == s[3]);
        let d = s.take(4);
        assert(d.drop_last() =~= s.take(3));
        assert(s.take(3).drop_last() =~= s.take(2));
        assert(s.take(2).drop_last() =~= s.take(1));
        assert(s.take(1).drop_last() =~= Seq::<char>::empty());
        assert(d.last() == s[3] && s.take(3).last() == s[2] && s.take(2).last() == s[1]
            && s.take(1).last() == s[0]);
        assert(number_read(s.take(1), 10) == digit_read(s[0]));
        assert(number_read(s.take(2), 10) == digit_read(s[0]) * 10 + digit_read(s[1]));
        assert(number_read(s.take(3), 10) == digit_read(s[0]) * 100 + digit_read(s[1]) * 10
            + digit_read(s[2]));
        assert(number_read(a, 10) == digit_read(s[1]));
        assert(number_read(b, 10) == digit_read(s[1]) * 10 + digit_read(s[2]));
    }
    if s.len() >= 4 && (forall|i: int| 1 <= i < 4 ==> '0' <= #[trigger] s[i] && s[i] <= '9') {
        assert('0' <= s[1] && '0' <= s[2] && '0' <= s[3]);
    }
}

/// A number given for the year wins over the creation date, a signed one over an
/// unsigned one, and a negative one counts by its bits.
pub proof fn law_year_prefers_numbers(
    signed: Option<i32>,
    unsigned: Option<u32>,
    created: Option<Seq<char>>,
)
    ensures
        signed matches Some(n) ==> {
            &&& year_of(signed, unsigned, created) matches Some(year)
            &&& (year - n) % 0x1_0000_0000 == 0
        },
        signed is None && unsigned is Some ==> year_of(signed, unsigned, created) == unsigned,
        signed is None && unsigned is None ==> match created {
            Some(date) => year_of(signed, unsigned, created) == leading_year(date),
            None => year_of(signed, unsigned, created) is None,
        },
{
}

/// Whether a number of at most 32 bits stands at the key of the year.
pub open spec fn gives_year(m: Map<Seq<char>, Entry>) -> bool {
    m.contains_key("xesam:year"@) && (m["xesam:year"@] is I32 || m["xesam:year"@] is I16
        || m["xesam:year"@] is U32 || m["xesam:year"@] is U16 || m["xesam:year"@] is U8)
}

/// A track is read from the keys that players use for its parts: each part is
/// what stands at its key, and missing where nothing of its kind does.
pub proof fn law_track_is_what_stands_at_the_keys(m: Map<Seq<char>, Entry>)
    ensures
        track_of(m).title is Some <==> m.contains_key("xesam:title"@) && m["xesam:title"@] is Text,
        track_of(m).title matches Some(t) ==> m["xesam:title"@] == Entry::Text(t),
        track_of(m).album is Some <==> m.contains_key("xesam:album"@) && m["xesam:album"@] is Text,
        track_of(m).album matches Some(t) ==> m["xesam:album"@] == Entry::Text(t),
        track_of(m).art_url is Some <==> m.contains_key("mpris:artUrl"@)
            && m["mpris:artUrl"@] is Text,
        track_of(m).art_url matches Some(t) ==> m["mpris:artUrl"@] == Entry::Text(t),
        track_of(m).artists is Some <==> m.contains_key("xesam:artist"@) && (
        m["xesam:artist"@] is Texts || m["xesam:artist"@] is Text),
        track_of(m).artists matches Some(list) ==> m["xesam:artist"@] == Entry::Texts(list)
            || list.len() == 1 && m["xesam:artist"@] == Entry::Text(list[0]),
        track_of(m).length_us is Some <==> m.contains_key("mpris:length"@) && (
        m["mpris:length"@] is I64 || m["mpris:length"@] is U64),
        track_of(m).length_us matches Some(n) ==> match m["mpris:length"@] {
            Entry::I64(len) => (n - len) % 0x1_0000_0000_0000_0000 == 0,
            Entry::U64(len) => n == len,
            _ => false,
        },
        gives_year(m) ==> {
            &&& track_of(m).year matches Some(year)
            &&& match m["xesam:year"@] {
                Entry::I32(n) => (year - n) % 0x1_0000_0000 == 0,
                Entry::I16(n) => (year - n) % 0x1_0000_0000 == 0,
                Entry::U32(n) => year == n,
                Entry::U16(n) => year == n,
                Entry::U8(n) => year == n,
                _ => false,
            }
        },
        !gives_year(m) ==> track_of(m).year == if m.contains_key("xesam:contentCreated"@) {
            match m["xesam:contentCreated"@] {
                Entry::Text(date) => leading_year(date),
                _ => None,
            }
        } else {
            None
        },
{
    if let Some(n) = track_of(m).length_us {
        if let Entry::I64(len) = m["mpris:length"@] {
            if len < 0 {
                assert(n == len + 0x1_0000_0000_0000_0000);
            }
        }
    }
}

} // verus!
