//! Lists of named values kept in the order of their names.
//!
//! Names are ordered as strings are: by code point, a proper prefix first.
//! Placing a value under a name that the list already holds replaces the
//! value, so a list built by placing holds each name once.

use vstd::prelude::*;
use crate::text::{
    chars_before, chars_of, same_chars, text_before, text_order_asymmetric, text_order_irreflexive,
    text_order_total, text_order_transitive,
};

verus! {

pub type Named<T> = Seq<(Seq<char>, T)>;

/// The list with `value` placed under `key`: in place of the first entry
/// of that name, or before the first entry whose name comes after `key`.
pub open spec fn placed<T>(list: Named<T>, key: Seq<char>, value: T) -> Named<T>
    decreases list.len(),
{
    if list.len() == 0 {
        seq![(key, value)]
    } else if list[0].0 == key {
        seq![(key, value)] + list.drop_first()
    } else if text_before(key, list[0].0) {
        seq![(key, value)] + list
    } else {
        seq![list[0]] + placed(list.drop_first(), key, value)
    }
}

/// The entries of `pairs` placed one after another into an empty list.
pub open spec fn arranged<T>(pairs: Named<T>) -> Named<T>
    decreases pairs.len(),
{
    if pairs.len() == 0 {
        Seq::empty()
    } else {
        placed(arranged(pairs.drop_last()), pairs.last().0, pairs.last().1)
    }
}

/// Each name comes strictly before the next.
pub open spec fn ascending<T>(list: Named<T>) -> bool {
    forall|i: int, j: int| 0 <= i < j < list.len() ==> text_before(list[i].0, list[j].0)
}

/// The names and values of a list of entries.
pub open spec fn named_view<V: View>(entries: Seq<(String, V)>) -> Named<V::V> {
    Seq::new(entries.len(), |i: int| (entries[i].0@, entries[i].1@))
}

proof fn placed_past<T>(list: Named<T>, key: Seq<char>, value: T, n: int)
    requires
        0 <= n <= list.len(),
        forall|i: int| 0 <= i < n ==> list[i].0 != key && !text_before(key, list[i].0),
    ensures
        placed(list, key, value) == list.take(n) + placed(list.skip(n), key, value),
    decreases n,
{
    if n == 0 {
        assert(list.skip(0) == list);
        assert(list.take(0) + placed(list, key, value) == placed(list, key, value));
    } else {
        let rest = list.drop_first();
        assert forall|i: int| 0 <= i < n - 1 implies rest[i].0 != key && !text_before(
            key,
            rest[i].0,
        ) by {
            assert(rest[i] == list[i + 1]);
        }
        placed_past(rest, key, value, n - 1);
        assert(rest.skip(n - 1) == list.skip(n));
        assert(seq![list[0]] + (rest.take(n - 1) + placed(list.skip(n), key, value)) == list.take(
            n,
        ) + placed(list.skip(n), key, value));
    }
}

/// Places `value` under `key`.
pub fn place<V: View>(list: &mut Vec<(String, V)>, key: String, value: V)
    ensures
        named_view(final(list)@) == placed(named_view(old(list)@), key@, value@),
{
    let ghost before = named_view(list@);
    let name = chars_of(key.as_str());
    let mut i: usize = 0;
    while i < list.len()
        invariant
            i <= list.len(),
            *list == *old(list),
            before == named_view(list@),
            name@ == key@,
            forall|k: int| 0 <= k < i ==> before[k].0 != key@ && !text_before(key@, before[k].0),
        decreases list.len() - i,
    {
        let here = chars_of(list[i].0.as_str());
        if same_chars(&here, &name) {
            proof {
                placed_past(before, key@, value@, i as int);
                assert(before.skip(i as int)[0] == before[i as int]);
            }
            let _ = list.remove(i);
            list.insert(i, (key, value));
            proof {
                let after = named_view(list@);
                let expect = before.take(i as int) + (seq![(key@, value@)] + before.skip(
                    i as int,
                ).drop_first());
                assert(after.len() == expect.len());
                assert forall|k: int| 0 <= k < after.len() implies after[k] == expect[k] by {
                    if k < i {
                        assert(list@[k] == old(list)@[k]);
                    } else if k > i {
                        assert(list@[k] == old(list)@[k]);
                    }
                }
                assert(after =~= expect);
            }
            return ;
        }
        if chars_before(&name, &here) {
            proof {
                placed_past(before, key@, value@, i as int);
                assert(before.skip(i as int)[0] == before[i as int]);
            }
            list.insert(i, (key, value));
            proof {
                let after = named_view(list@);
                let expect = before.take(i as int) + (seq![(key@, value@)] + before.skip(i as int));
                assert(after.len() == expect.len());
                assert forall|k: int| 0 <= k < after.len() implies after[k] == expect[k] by {
                    if k < i {
                        assert(list@[k] == old(list)@[k]);
                    } else if k > i {
                        assert(list@[k] == old(list)@[k - 1]);
                    }
                }
                assert(after =~= expect);
            }
            return ;
        }
        i = i + 1;
    }
    proof {
        placed_past(before, key@, value@, i as int);
        assert(before.skip(i as int) =~= Seq::empty());
        assert(before.take(i as int) == before);
    }
    list.push((key, value));
    proof {
        let after = named_view(list@);
        let expect = before + seq![(key@, value@)];
        assert(after.len() == expect.len());
        assert forall|k: int| 0 <= k < after.len() implies after[k] == expect[k] by {
            if k < i {
                assert(list@[k] == old(list)@[k]);
            }
        }
        assert(after =~= expect);
    }
}

/// The value of the first entry named `key`.
pub open spec fn first_named<T>(list: Named<T>, key: Seq<char>) -> Option<T>
    decreases list.len(),
{
    if list.len() == 0 {
        None
    } else if list[0].0 == key {
        Some(list[0].1)
    } else {
        first_named(list.drop_first(), key)
    }
}

/// The value of the first entry named `key`.
pub fn find_named<'a, V: View>(list: &'a Vec<(String, V)>, key: &str) -> (r: Option<&'a V>)
    ensures
        r is Some == first_named(named_view(list@), key@) is Some,
        r is Some ==> r->0@ == first_named(named_view(list@), key@)->0,
{
    let ghost all = named_view(list@);
    let name = chars_of(key);
    let mut i: usize = 0;
    assert(all.skip(0) == all);
    while i < list.len()
        invariant
            i <= list.len(),
            all == named_view(list@),
            name@ == key@,
            first_named(all, key@) == first_named(all.skip(i as int), key@),
        decreases list.len() - i,
    {
        let here = chars_of(list[i].0.as_str());
        proof {
            assert(all.skip(i as int)[0] == all[i as int]);
            assert(all.skip(i as int).drop_first() == all.skip(i + 1));
        }
        if same_chars(&here, &name) {
            return Some(&list[i].1);
        }
        i = i + 1;
    }
    None
}

// ---------------------------------------------------------------------------
// What arranging does
// ---------------------------------------------------------------------------
/// No two entries bear the same name.
pub open spec fn distinct_names<T>(list: Named<T>) -> bool {
    forall|i: int, j: int| 0 <= i < j < list.len() ==> list[i].0 != list[j].0
}

/// Each list holds every entry of the other.
pub open spec fn same_entries<T>(a: Named<T>, b: Named<T>) -> bool {
    &&& forall|i: int| 0 <= i < a.len() ==> b.contains(#[trigger] a[i])
    &&& forall|j: int| 0 <= j < b.len() ==> a.contains(#[trigger] b[j])
}

/// Placing under a new name keeps an ordered list ordered and adds the
/// entry to it.
pub proof fn placed_in_order<T>(list: Named<T>, key: Seq<char>, value: T)
    requires
        ascending(list),
        forall|i: int| 0 <= i < list.len() ==> (#[trigger] list[i]).0 != key,
    ensures
        ascending(placed(list, key, value)),
        placed(list, key, value).contains((key, value)),
        forall|i: int| 0 <= i < list.len() ==> placed(list, key, value).contains(#[trigger] list[i]),
        forall|j: int|
            0 <= j < placed(list, key, value).len() ==> (#[trigger] placed(list, key, value)[j]) == (
                key,
                value,
            ) || list.contains(placed(list, key, value)[j]),
    decreases list.len(),
{
    let out = placed(list, key, value);
    if list.len() == 0 {
        assert(out[0] == (key, value));
    } else if text_before(key, list[0].0) {
        assert(out =~= seq![(key, value)] + list);
        assert(out[0] == (key, value));
        assert forall|i: int, j: int| 0 <= i < j < out.len() implies text_before(
            out[i].0,
            out[j].0,
        ) by {
            assert(out[j] == list[j - 1]);
            if i == 0 {
                if j - 1 > 0 {
                    text_order_transitive(key, list[0].0, list[j - 1].0);
                }
            } else {
                assert(out[i] == list[i - 1]);
            }
        }
        assert forall|i: int| 0 <= i < list.len() implies out.contains(#[trigger] list[i]) by {
            assert(out[i + 1] == list[i]);
        }
        assert forall|j: int| 0 <= j < out.len() implies (#[trigger] out[j]) == (key, value)
            || list.contains(out[j]) by {
            if j > 0 {
                assert(out[j] == list[j - 1]);
            }
        }
    } else {
        let rest = list.drop_first();
        assert(list[0].0 != key);
        text_order_total(key, list[0].0);
        assert forall|i: int, j: int| 0 <= i < j < rest.len() implies text_before(
            rest[i].0,
            rest[j].0,
        ) by {
            assert(rest[i] == list[i + 1]);
            assert(rest[j] == list[j + 1]);
        }
        assert forall|i: int| 0 <= i < rest.len() implies (#[trigger] rest[i]).0 != key by {
            assert(rest[i] == list[i + 1]);
        }
        placed_in_order(rest, key, value);
        let tail = placed(rest, key, value);
        assert(out =~= seq![list[0]] + tail);
        assert forall|i: int, j: int| 0 <= i < j < out.len() implies text_before(
            out[i].0,
            out[j].0,
        ) by {
            assert(out[j] == tail[j - 1]);
            if i == 0 {
                if tail[j - 1] == (key, value) {
                } else {
                    assert(rest.contains(tail[j - 1]));
                    let k = choose|k: int| 0 <= k < rest.len() && rest[k] == tail[j - 1];
                    assert(rest[k] == list[k + 1]);
                }
            } else {
                assert(out[i] == tail[i - 1]);
            }
        }
        assert(tail.contains((key, value)));
        let at = choose|k: int| 0 <= k < tail.len() && tail[k] == (key, value);
        assert(out[at + 1] == (key, value));
        assert forall|i: int| 0 <= i < list.len() implies out.contains(#[trigger] list[i]) by {
            if i == 0 {
                assert(out[0] == list[0]);
            } else {
                assert(rest[i - 1] == list[i]);
                assert(tail.contains(rest[i - 1]));
                let k = choose|k: int| 0 <= k < tail.len() && tail[k] == rest[i - 1];
                assert(out[k + 1] == list[i]);
            }
        }
        assert forall|j: int| 0 <= j < out.len() implies (#[trigger] out[j]) == (key, value)
            || list.contains(out[j]) by {
            if j == 0 {
                assert(out[0] == list[0]);
            } else {
                assert(out[j] == tail[j - 1]);
                if tail[j - 1] != (key, value) {
                    assert(rest.contains(tail[j - 1]));
                    let k = choose|k: int| 0 <= k < rest.len() && rest[k] == tail[j - 1];
                    assert(list[k + 1] == out[j]);
                }
            }
        }
    }
}

/// Arranging entries of distinct names gives them in the order of their
/// names, all of them and no others.
pub proof fn arranged_in_order<T>(pairs: Named<T>)
    requires
        distinct_names(pairs),
    ensures
        ascending(arranged(pairs)),
        same_entries(pairs, arranged(pairs)),
    decreases pairs.len(),
{
    if pairs.len() > 0 {
        let init = pairs.drop_last();
        let last = pairs.last();
        assert forall|i: int, j: int| 0 <= i < j < init.len() implies init[i].0 != init[j].0 by {
            assert(init[i] == pairs[i]);
            assert(init[j] == pairs[j]);
        }
        arranged_in_order(init);
        let sorted = arranged(init);
        assert forall|i: int| 0 <= i < sorted.len() implies (#[trigger] sorted[i]).0 != last.0 by {
            assert(init.contains(sorted[i]));
            let k = choose|k: int| 0 <= k < init.len() && init[k] == sorted[i];
            assert(init[k] == pairs[k]);
        }
        placed_in_order(sorted, last.0, last.1);
        let out = arranged(pairs);
        assert(out == placed(sorted, last.0, last.1));
        assert forall|i: int| 0 <= i < pairs.len() implies out.contains(#[trigger] pairs[i]) by {
            if i == pairs.len() - 1 {
                assert(pairs[i] == (last.0, last.1));
            } else {
                assert(init[i] == pairs[i]);
                assert(sorted.contains(init[i]));
                let k = choose|k: int| 0 <= k < sorted.len() && sorted[k] == init[i];
                assert(out.contains(sorted[k]));
            }
        }
        assert forall|j: int| 0 <= j < out.len() implies pairs.contains(#[trigger] out[j]) by {
            if out[j] == (last.0, last.1) {
                assert(pairs[pairs.len() - 1] == out[j]);
            } else {
                assert(sorted.contains(out[j]));
                let k = choose|k: int| 0 <= k < sorted.len() && sorted[k] == out[j];
                assert(init.contains(sorted[k]));
                let m = choose|m: int| 0 <= m < init.len() && init[m] == sorted[k];
                assert(pairs[m] == out[j]);
            }
        }
    }
}

/// Two lists in the order of their names that hold the same entries are
/// the same list.
pub proof fn ordered_lists_agree<T>(a: Named<T>, b: Named<T>)
    requires
        ascending(a),
        ascending(b),
        same_entries(a, b),
    ensures
        a == b,
    decreases a.len(),
{
    if a.len() == 0 {
        if b.len() > 0 {
            assert(a.contains(b[0]));
        }
        assert(a =~= b);
    } else {
        assert(b.contains(a[0]));
        let j = choose|j: int| 0 <= j < b.len() && b[j] == a[0];
        assert(a.contains(b[0]));
        let i = choose|i: int| 0 <= i < a.len() && a[i] == b[0];
        if j > 0 {
            // b[0] comes before b[j] = a[0], and a[0] comes before or is a[i] = b[0]
            if i > 0 {
                text_order_asymmetric(a[0].0, a[i].0);
            } else {
                text_order_irreflexive(a[0].0);
            }
        }
        assert(a[0] == b[0]);
        let ta = a.drop_first();
        let tb = b.drop_first();
        assert forall|x: int, y: int| 0 <= x < y < ta.len() implies text_before(
            ta[x].0,
            ta[y].0,
        ) by {
            assert(ta[x] == a[x + 1]);
            assert(ta[y] == a[y + 1]);
        }
        assert forall|x: int, y: int| 0 <= x < y < tb.len() implies text_before(
            tb[x].0,
            tb[y].0,
        ) by {
            assert(tb[x] == b[x + 1]);
            assert(tb[y] == b[y + 1]);
        }
        assert forall|x: int| 0 <= x < ta.len() implies tb.contains(#[trigger] ta[x]) by {
            assert(ta[x] == a[x + 1]);
            assert(b.contains(a[x + 1]));
            let k = choose|k: int| 0 <= k < b.len() && b[k] == a[x + 1];
            if k == 0 {
                text_order_irreflexive(a[0].0);
            }
            assert(tb[k - 1] == b[k]);
        }
        assert forall|y: int| 0 <= y < tb.len() implies ta.contains(#[trigger] tb[y]) by {
            assert(tb[y] == b[y + 1]);
            assert(a.contains(b[y + 1]));
            let k = choose|k: int| 0 <= k < a.len() && a[k] == b[y + 1];
            if k == 0 {
                text_order_irreflexive(b[0].0);
            }
            assert(ta[k - 1] == a[k]);
        }
        ordered_lists_agree(ta, tb);
        assert(a =~= seq![a[0]] + ta);
        assert(b =~= seq![b[0]] + tb);
    }
}

/// Arranging does not depend on the order in which the entries are given:
/// lists of distinct names that hold the same entries are arranged alike.
pub proof fn arranging_ignores_order<T>(a: Named<T>, b: Named<T>)
    requires
        distinct_names(a),
        distinct_names(b),
        same_entries(a, b),
    ensures
        arranged(a) == arranged(b),
{
    arranged_in_order(a);
    arranged_in_order(b);
    let x = arranged(a);
    let y = arranged(b);
    assert forall|i: int| 0 <= i < x.len() implies y.contains(#[trigger] x[i]) by {
        assert(a.contains(x[i]));
        let k = choose|k: int| 0 <= k < a.len() && a[k] == x[i];
        assert(b.contains(a[k]));
        let m = choose|m: int| 0 <= m < b.len() && b[m] == a[k];
        assert(y.contains(b[m]));
    }
    assert forall|j: int| 0 <= j < y.len() implies x.contains(#[trigger] y[j]) by {
        assert(b.contains(y[j]));
        let k = choose|k: int| 0 <= k < b.len() && b[k] == y[j];
        assert(a.contains(b[k]));
        let m = choose|m: int| 0 <= m < a.len() && a[m] == b[k];
        assert(x.contains(a[m]));
    }
    ordered_lists_agree(x, y);
}

} // verus!
