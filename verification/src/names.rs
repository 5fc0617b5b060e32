//! Bus names in the order of their bytes.
use vstd::prelude::*;
use vstd::relations::*;
use vstd::seq_lib::*;
use vstd::utf8::*;

verus! {

/// The texts that a list of strings holds.
pub open spec fn texts(v: Seq<String>) -> Seq<Seq<char>> {
    v.map_values(|s: String| s@)
}

/// Byte strings in dictionary order.
pub open spec fn bytes_le(a: Seq<u8>, b: Seq<u8>) -> bool
    decreases a.len(),
{
    a.len() == 0 || (b.len() > 0 && (a[0] < b[0] || (a[0] == b[0] && bytes_le(
        a.drop_first(),
        b.drop_first(),
    ))))
}

/// The order of texts: that of their UTF-8 bytes.
pub open spec fn name_order() -> spec_fn(Seq<char>, Seq<char>) -> bool {
    |a: Seq<char>, b: Seq<char>| bytes_le(encode_utf8(a), encode_utf8(b))
}

/// The same names, in order.
pub open spec fn sorted_names(names: Seq<Seq<char>>) -> Seq<Seq<char>> {
    names.sort_by(name_order())
}

proof fn lemma_bytes_reflexive(a: Seq<u8>)
    ensures
        bytes_le(a, a),
    decreases a.len(),
{
    if a.len() > 0 {
        lemma_bytes_reflexive(a.drop_first());
    }
}

proof fn lemma_bytes_antisymmetric(a: Seq<u8>, b: Seq<u8>)
    requires
        bytes_le(a, b),
        bytes_le(b, a),
    ensures
        a == b,
    decreases a.len(),
{
    if a.len() > 0 {
        lemma_bytes_antisymmetric(a.drop_first(), b.drop_first());
        assert(a =~= seq![a[0]] + a.drop_first());
        assert(b =~= seq![b[0]] + b.drop_first());
    } else {
        assert(a =~= b);
    }
}

proof fn lemma_bytes_transitive(a: Seq<u8>, b: Seq<u8>, c: Seq<u8>)
    requires
        bytes_le(a, b),
        bytes_le(b, c),
    ensures
        bytes_le(a, c),
    decreases a.len(),
{
    if a.len() > 0 && a[0] == b[0] && b[0] == c[0] {
        lemma_bytes_transitive(a.drop_first(), b.drop_first(), c.drop_first());
    }
}

proof fn lemma_bytes_total(a: Seq<u8>, b: Seq<u8>)
    ensures
        bytes_le(a, b) || bytes_le(b, a),
    decreases a.len(),
{
    if a.len() > 0 && b.len() > 0 {
        lemma_bytes_total(a.drop_first(), b.drop_first());
    }
}

proof fn lemma_name_order_total()
    ensures
        total_ordering(name_order()),
{
    let le = name_order();
    assert forall|x: Seq<char>| #[trigger] le(x, x) by {
        lemma_bytes_reflexive(encode_utf8(x));
    }
    assert forall|x: Seq<char>, y: Seq<char>| #[trigger] le(x, y) && #[trigger] le(
        y,
        x,
    ) implies x == y by {
        lemma_bytes_antisymmetric(encode_utf8(x), encode_utf8(y));
        encode_utf8_decode_utf8(x);
        encode_utf8_decode_utf8(y);
    }
    assert forall|x: Seq<char>, y: Seq<char>, z: Seq<char>| #[trigger] le(x, y) && #[trigger] le(
        y,
        z,
    ) implies le(x, z) by {
        lemma_bytes_transitive(encode_utf8(x), encode_utf8(y), encode_utf8(z));
    }
    assert forall|x: Seq<char>, y: Seq<char>| #[trigger] le(x, y) || #[trigger] le(y, x) by {
        lemma_bytes_total(encode_utf8(x), encode_utf8(y));
    }
}

/// Whether one name stands before another, or is the same.
fn in_order(a: &str, b: &str) -> (r: bool)
    ensures
        r == name_order()(a@, b@),
{
    let x = a.as_bytes();
    let y = b.as_bytes();
    let mut i: usize = 0;
    assert(x@.skip(0) =~= x@);
    assert(y@.skip(0) =~= y@);
    while i < x.len() && i < y.len() && x[i] == y[i]
        invariant
            i <= x.len(),
            i <= y.len(),
            bytes_le(x@, y@) == bytes_le(x@.skip(i as int), y@.skip(i as int)),
        decreases x.len() - i,
    {
        assert(x@.skip(i as int).drop_first() =~= x@.skip(i + 1));
        assert(y@.skip(i as int).drop_first() =~= y@.skip(i + 1));
        i = i + 1;
    }
    if i == x.len() {
        true
    } else if i == y.len() {
        false
    } else {
        x[i] < y[i]
    }
}

/// Puts one name into its place among sorted ones.
fn insert_name(names: &mut Vec<String>, name: String)
    requires
        sorted_by(texts(old(names)@), name_order()),
    ensures
        sorted_by(texts(final(names)@), name_order()),
        texts(final(names)@).to_multiset() == texts(old(names)@).to_multiset().insert(name@),
{
    let ghost before = texts(names@);
    let ghost le = name_order();
    let mut i: usize = 0;
    while i < names.len() && in_order(names[i].as_str(), name.as_str())
        invariant
            i <= names.len(),
            le == name_order(),
            before == texts(names@),
            forall|k: int| 0 <= k < i ==> #[trigger] le(before[k], name@),
        decreases names.len() - i,
    {
        assert(names@[i as int]@ == before[i as int]);
        i = i + 1;
    }
    proof {
        lemma_name_order_total();
        if i < names.len() {
            assert(names@[i as int]@ == before[i as int]);
            assert(le(before[i as int], name@) || le(name@, before[i as int]));
            assert(le(name@, before[i as int]));
        }
        assert forall|k: int| i <= k < before.len() implies #[trigger] le(name@, before[k]) by {
            if k > i {
                assert(le(before[i as int], before[k]));
            }
        }
    }
    let ghost text = name@;
    names.insert(i, name);
    proof {
        let after = texts(names@);
        assert(after =~= before.insert(i as int, text));
        before.insert_ensures(i as int, text);
        assert forall|p: int, q: int| 0 <= p < q < after.len() implies #[trigger] le(
            after[p],
            after[q],
        ) by {
            if q < i {
                assert(le(before[p], before[q]));
            } else if p > i {
                assert(le(before[p - 1], before[q - 1]));
            } else if p == i {
                assert(le(text, before[q - 1]));
            } else if q == i {
                assert(le(before[p], text));
            } else {
                assert(le(before[p], before[q - 1]));
            }
        }
        broadcast use group_to_multiset_ensures;
    }
}

/// Sorts names by their bytes.
pub fn sort_names(names: Vec<String>) -> (r: Vec<String>)
    ensures
        texts(r@) == sorted_names(texts(names@)),
{
    let ghost le = name_order();
    let ghost all = texts(names@).to_multiset();
    let mut rest = names;
    let mut out: Vec<String> = Vec::new();
    proof {
        broadcast use group_to_multiset_ensures;

        assert(texts(out@) =~= Seq::<Seq<char>>::empty());
        assert(texts(out@).to_multiset().add(texts(rest@).to_multiset()) =~= all);
    }
    while rest.len() > 0
        invariant
            le == name_order(),
            sorted_by(texts(out@), le),
            texts(out@).to_multiset().add(texts(rest@).to_multiset()) == all,
        decreases rest.len(),
    {
        let ghost out0 = texts(out@).to_multiset();
        let ghost rest0 = texts(rest@);
        match rest.pop() {
            Some(name) => {
                proof {
                    broadcast use group_to_multiset_ensures;

                    assert(texts(rest@) =~= rest0.drop_last());
                    assert(rest0 =~= rest0.drop_last().push(name@));
                    assert(rest0.to_multiset() =~= texts(rest@).to_multiset().insert(name@));
                }
                insert_name(&mut out, name);
                proof {
                    assert(texts(out@).to_multiset().add(texts(rest@).to_multiset())
                        =~= out0.add(rest0.to_multiset()));
                }
            },
            None => {},
        }
    }
    proof {
        broadcast use group_to_multiset_ensures;

        lemma_name_order_total();
        assert(texts(rest@) =~= Seq::<Seq<char>>::empty());
        assert(texts(out@).to_multiset() =~= all);
        let given = texts(names@);
        given.lemma_sort_by_ensures(le);
        lemma_sorted_unique(texts(out@), given.sort_by(le), le);
    }
    out
}

/// Whether two lists hold the same names in the same order.
pub fn same_names(a: &Vec<String>, b: &Vec<String>) -> (r: bool)
    ensures
        r == (texts(a@) == texts(b@)),
{
    if a.len() != b.len() {
        assert(texts(a@).len() != texts(b@).len());
        return false;
    }
    let mut i: usize = 0;
    while i < a.len()
        invariant
            i <= a.len(),
            a.len() == b.len(),
            forall|k: int| 0 <= k < i ==> a@[k]@ == b@[k]@,
        decreases a.len() - i,
    {
        if a[i] != b[i] {
            assert(texts(a@)[i as int] != texts(b@)[i as int]);
            return false;
        }
        i = i + 1;
    }
    assert(texts(a@) =~= texts(b@));
    true
}

/// Sorting keeps the names, each as often as it stood there.
pub proof fn lemma_sorted_names(names: Seq<Seq<char>>)
    ensures
        sorted_by(sorted_names(names), name_order()),
        sorted_names(names).to_multiset() == names.to_multiset(),
{
    lemma_name_order_total();
    names.lemma_sort_by_ensures(name_order());
}

/// Sorting forgets the order in which names came: two lists sort to the same
/// one exactly when they hold the same names equally often.
pub proof fn law_sorting_forgets_order(a: Seq<Seq<char>>, b: Seq<Seq<char>>)
    ensures
        sorted_names(a) == sorted_names(b) <==> a.to_multiset() == b.to_multiset(),
{
    lemma_name_order_total();
    a.lemma_sort_by_ensures(name_order());
    b.lemma_sort_by_ensures(name_order());
    if a.to_multiset() == b.to_multiset() {
        lemma_sorted_unique(sorted_names(a), sorted_names(b), name_order());
    }
}

} // verus!
