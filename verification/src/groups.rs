//! Sets of group names, kept in ascending order without duplicates.

use crate::text::texts;
use vstd::prelude::*;
use vstd::utf8::{encode_utf8, encode_utf8_decode_utf8};

verus! {

/// Lexicographic order of byte sequences.
pub open spec fn bytes_less(a: Seq<u8>, b: Seq<u8>) -> bool
    decreases a.len(),
{
    if a.len() == 0 || b.len() == 0 {
        a.len() < b.len()
    } else {
        a[0] < b[0] || (a[0] == b[0] && bytes_less(a.drop_first(), b.drop_first()))
    }
}

/// The order of texts: lexicographic by the bytes of their UTF-8 encoding.
pub open spec fn text_less(a: Seq<char>, b: Seq<char>) -> bool {
    bytes_less(encode_utf8(a), encode_utf8(b))
}

/// Whether each text comes strictly before every later one.
pub open spec fn strictly_ascending(list: Seq<Seq<char>>) -> bool {
    forall|i: int, j: int| 0 <= i < j < list.len() ==> text_less(#[trigger] list[i], #[trigger] list[j])
}

/// Whether two lists hold the same texts, whatever their order and however often each occurs.
pub open spec fn same_members(a: Seq<Seq<char>>, b: Seq<Seq<char>>) -> bool {
    forall|text: Seq<char>| #[trigger] a.contains(text) <==> b.contains(text)
}

proof fn bytes_less_irreflexive(a: Seq<u8>)
    ensures
        !bytes_less(a, a),
    decreases a.len(),
{
    if a.len() > 0 {
        bytes_less_irreflexive(a.drop_first());
    }
}

proof fn bytes_less_transitive(a: Seq<u8>, b: Seq<u8>, c: Seq<u8>)
    requires
        bytes_less(a, b),
        bytes_less(b, c),
    ensures
        bytes_less(a, c),
    decreases a.len(),
{
    if a.len() > 0 && b.len() > 0 && c.len() > 0 && a[0] == b[0] && b[0] == c[0] {
        bytes_less_transitive(a.drop_first(), b.drop_first(), c.drop_first());
    }
}

proof fn bytes_less_total(a: Seq<u8>, b: Seq<u8>)
    ensures
        a == b || bytes_less(a, b) || bytes_less(b, a),
    decreases a.len(),
{
    if a.len() == 0 || b.len() == 0 {
        if a.len() == b.len() {
            assert(a =~= b);
        }
    } else if a[0] == b[0] {
        bytes_less_total(a.drop_first(), b.drop_first());
        if a.drop_first() == b.drop_first() {
            assert(a =~= seq![a[0]] + a.drop_first());
            assert(b =~= seq![b[0]] + b.drop_first());
        }
    }
}

proof fn bytes_less_at_first_difference(a: Seq<u8>, b: Seq<u8>)
    ensures
        bytes_less(a, b) <==> exists|k: int|
            {
                &&& 0 <= k <= a.len()
                &&& k < b.len()
                &&& #[trigger] a.take(k) == b.take(k)
                &&& k == a.len() || a[k] < b[k]
            },
    decreases a.len(),
{
    if a.len() == 0 || b.len() == 0 {
        if a.len() < b.len() {
            assert(a.take(0) =~= b.take(0));
        }
    } else {
        let (x, y) = (a.drop_first(), b.drop_first());
        bytes_less_at_first_difference(x, y);
        if bytes_less(a, b) {
            if a[0] < b[0] {
                assert(a.take(0) =~= b.take(0));
            } else {
                let k = choose|k: int|
                    {
                        &&& 0 <= k <= x.len()
                        &&& k < y.len()
                        &&& #[trigger] x.take(k) == y.take(k)
                        &&& k == x.len() || x[k] < y[k]
                    };
                assert(a.take(k + 1) =~= seq![a[0]] + x.take(k));
                assert(b.take(k + 1) =~= seq![b[0]] + y.take(k));
            }
        }
        if exists|k: int|
            {
                &&& 0 <= k <= a.len()
                &&& k < b.len()
                &&& #[trigger] a.take(k) == b.take(k)
                &&& k == a.len() || a[k] < b[k]
            } {
            let k = choose|k: int|
                {
                    &&& 0 <= k <= a.len()
                    &&& k < b.len()
                    &&& #[trigger] a.take(k) == b.take(k)
                    &&& k == a.len() || a[k] < b[k]
                };
            if k > 0 {
                assert(a[0] == a.take(k)[0]);
                assert(b[0] == b.take(k)[0]);
                assert(x.take(k - 1) =~= a.take(k).drop_first());
                assert(y.take(k - 1) =~= b.take(k).drop_first());
            }
        }
    }
}

/// One text comes before another exactly if their UTF-8 bytes agree up to some place at which the
/// first has ended and the second has not, or has the smaller byte.
pub proof fn text_less_at_first_difference(a: Seq<char>, b: Seq<char>)
    ensures
        text_less(a, b) <==> exists|k: int|
            {
                &&& 0 <= k <= encode_utf8(a).len()
                &&& k < encode_utf8(b).len()
                &&& #[trigger] encode_utf8(a).take(k) == encode_utf8(b).take(k)
                &&& k == encode_utf8(a).len() || encode_utf8(a)[k] < encode_utf8(b)[k]
            },
{
    bytes_less_at_first_difference(encode_utf8(a), encode_utf8(b));
}

/// No text comes before itself.
pub proof fn text_less_irreflexive(a: Seq<char>)
    ensures
        !text_less(a, a),
{
    bytes_less_irreflexive(encode_utf8(a));
}

/// The order of texts is transitive.
pub proof fn text_less_transitive(a: Seq<char>, b: Seq<char>, c: Seq<char>)
    requires
        text_less(a, b),
        text_less(b, c),
    ensures
        text_less(a, c),
{
    bytes_less_transitive(encode_utf8(a), encode_utf8(b), encode_utf8(c));
}

/// Of two different texts one comes before the other.
pub proof fn text_less_total(a: Seq<char>, b: Seq<char>)
    ensures
        a == b || text_less(a, b) || text_less(b, a),
{
    bytes_less_total(encode_utf8(a), encode_utf8(b));
    encode_utf8_decode_utf8(a);
    encode_utf8_decode_utf8(b);
}

/// A set of texts has only one ascending list: two ascending lists with the same members are
/// the same list.
pub proof fn ascending_list_is_unique(a: Seq<Seq<char>>, b: Seq<Seq<char>>)
    requires
        strictly_ascending(a),
        strictly_ascending(b),
        same_members(a, b),
    ensures
        a == b,
    decreases a.len(),
{
    if a.len() == 0 {
        if b.len() > 0 {
            assert(b.contains(b[0]));
            assert(a.contains(b[0]));
        }
        assert(a =~= b);
    } else {
        assert(a.contains(a.last()));
        assert(b.contains(a.last()));
        assert(b.contains(b.last()));
        assert(a.contains(b.last()));
        let i = choose|i: int| 0 <= i < a.len() && a[i] == b.last();
        let j = choose|j: int| 0 <= j < b.len() && b[j] == a.last();
        if a.last() != b.last() {
            assert(text_less(a[i], a[a.len() - 1]));
            assert(text_less(b[j], b[b.len() - 1]));
            text_less_transitive(a.last(), b.last(), a.last());
            text_less_irreflexive(a.last());
        }
        let last = a.last();
        let a1 = a.drop_last();
        let b1 = b.drop_last();
        assert forall|text: Seq<char>| #[trigger] a1.contains(text) <==> b1.contains(text) by {
            if a1.contains(text) {
                let k = choose|k: int| 0 <= k < a1.len() && a1[k] == text;
                assert(a[k] == text);
                assert(text_less(a[k], a[a.len() - 1]));
                text_less_irreflexive(last);
                assert(text != last);
                assert(a.contains(text));
                let m = choose|m: int| 0 <= m < b.len() && b[m] == text;
                assert(m != b.len() - 1);
                assert(b1[m] == text);
            }
            if b1.contains(text) {
                let k = choose|k: int| 0 <= k < b1.len() && b1[k] == text;
                assert(b[k] == text);
                assert(text_less(b[k], b[b.len() - 1]));
                text_less_irreflexive(last);
                assert(text != last);
                assert(b.contains(text));
                assert(a.contains(text));
                let m = choose|m: int| 0 <= m < a.len() && a[m] == text;
                assert(m != a.len() - 1);
                assert(a1[m] == text);
            }
        }
        ascending_list_is_unique(a1, b1);
        assert(a =~= a1.push(last));
        assert(b =~= b1.push(last));
    }
}

/// Whether the first text comes before the second.
fn precedes(a: &str, b: &str) -> (res: bool)
    ensures
        res == text_less(a@, b@),
{
    let left = a.as_bytes();
    let right = b.as_bytes();
    let mut i: usize = 0;
    assert(left@.skip(0) =~= left@);
    assert(right@.skip(0) =~= right@);
    while i < left.len() && i < right.len() && left[i] == right[i]
        invariant
            left@ == encode_utf8(a@),
            right@ == encode_utf8(b@),
            i <= left.len(),
            i <= right.len(),
            text_less(a@, b@) == bytes_less(left@.skip(i as int), right@.skip(i as int)),
        decreases left.len() - i,
    {
        assert(left@.skip(i as int).drop_first() =~= left@.skip(i + 1));
        assert(right@.skip(i as int).drop_first() =~= right@.skip(i + 1));
        i = i + 1;
    }
    if i < left.len() && i < right.len() {
        left[i] < right[i]
    } else {
        left.len() < right.len()
    }
}

/// Adds a name to an ascending list, unless the list holds it already.
fn insert_name(names: &mut Vec<String>, name: &String)
    requires
        strictly_ascending(texts(old(names)@)),
    ensures
        strictly_ascending(texts(final(names)@)),
        same_members(texts(final(names)@), texts(old(names)@).push(name@)),
{
    let ghost before = texts(names@);
    let mut at: usize = 0;
    while at < names.len() && precedes(names[at].as_str(), name.as_str())
        invariant
            before == texts(names@),
            at <= names.len(),
            forall|k: int| 0 <= k < at ==> text_less(#[trigger] before[k], name@),
        decreases names.len() - at,
    {
        assert(before[at as int] == names@[at as int]@);
        at = at + 1;
    }
    let present: bool = at < names.len() && names[at] == *name;
    if present {
        proof {
            assert(before[at as int] == name@);
            let target = before.push(name@);
            assert forall|text: Seq<char>| #[trigger] before.contains(text) <==> target.contains(text) by {
                if before.contains(text) {
                    let k = choose|k: int| 0 <= k < before.len() && before[k] == text;
                    assert(target[k] == text);
                }
                if target.contains(text) {
                    let k = choose|k: int| 0 <= k < target.len() && target[k] == text;
                    if k < before.len() {
                        assert(before[k] == text);
                    } else {
                        assert(before[at as int] == text);
                    }
                }
            }
        }
    } else {
        names.insert(at, name.clone());
        proof {
            let after = texts(names@);
            assert(after =~= before.insert(at as int, name@));
            assert forall|i: int, j: int| 0 <= i < j < after.len() implies text_less(
                #[trigger] after[i],
                #[trigger] after[j],
            ) by {
                if at < before.len() {
                    text_less_total(before[at as int], name@);
                }
                let i0: int = if i < at { i } else { i - 1 };
                let j0: int = if j < at { j } else { j - 1 };
                if i == at {
                    assert(after[j] == before[j0]);
                    if j0 > at {
                        assert(text_less(before[at as int], before[j0]));
                        text_less_transitive(name@, before[at as int], before[j0]);
                    }
                } else if j == at {
                    assert(after[i] == before[i]);
                } else {
                    assert(after[i] == before[i0] && after[j] == before[j0]);
                }
            }
            let target = before.push(name@);
            assert forall|text: Seq<char>| #[trigger] after.contains(text) <==> target.contains(text) by {
                if after.contains(text) {
                    let k = choose|k: int| 0 <= k < after.len() && after[k] == text;
                    if k < at {
                        assert(target[k] == text);
                    } else if k == at {
                        assert(target[before.len() as int] == text);
                    } else {
                        assert(target[k - 1] == text);
                    }
                }
                if target.contains(text) {
                    let k = choose|k: int| 0 <= k < target.len() && target[k] == text;
                    if k == before.len() {
                        assert(after[at as int] == text);
                    } else if k < at {
                        assert(after[k] == text);
                    } else {
                        assert(after[k + 1] == text);
                    }
                }
            }
        }
    }
}

/// The distinct names of a list, in ascending order.
pub(crate) fn distinct_names(list: &Vec<String>) -> (res: Vec<String>)
    ensures
        strictly_ascending(texts(res@)),
        same_members(texts(res@), texts(list@)),
{
    let mut res: Vec<String> = Vec::new();
    let mut i: usize = 0;
    assert(texts(list@).take(0) =~= texts(res@));
    while i < list.len()
        invariant
            i <= list.len(),
            strictly_ascending(texts(res@)),
            same_members(texts(res@), texts(list@).take(i as int)),
        decreases list.len() - i,
    {
        let ghost before = texts(res@);
        let ghost seen = texts(list@).take(i as int);
        insert_name(&mut res, &list[i]);
        proof {
            let name = list@[i as int]@;
            let after = texts(res@);
            assert(texts(list@).take(i + 1) =~= seen.push(name));
            assert forall|text: Seq<char>| #[trigger] after.contains(text) <==> seen.push(name).contains(text) by {
                assert(after.contains(text) <==> before.push(name).contains(text));
                push_contains(before, name, text);
                push_contains(seen, name, text);
                assert(before.contains(text) <==> seen.contains(text));
            }
        }
        i = i + 1;
    }
    assert(texts(list@).take(list@.len() as int) =~= texts(list@));
    res
}

proof fn push_contains(list: Seq<Seq<char>>, name: Seq<char>, text: Seq<char>)
    ensures
        list.push(name).contains(text) <==> list.contains(text) || name == text,
{
    let more = list.push(name);
    if list.contains(text) {
        let k = choose|k: int| 0 <= k < list.len() && list[k] == text;
        assert(more[k] == text);
    }
    if name == text {
        assert(more[list.len() as int] == text);
    }
    if more.contains(text) {
        let k = choose|k: int| 0 <= k < more.len() && more[k] == text;
        if k < list.len() {
            assert(list[k] == text);
        }
    }
}

} // verus!
