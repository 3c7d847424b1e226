//! The order of texts, and stable sorting by a text key.
use vstd::prelude::*;

use crate::text;

verus! {

/// Whether `a` comes no later than `b`: character by character, by code point.
pub open spec fn text_le(a: Seq<char>, b: Seq<char>) -> bool
    decreases a.len(),
{
    if a.len() == 0 {
        true
    } else if b.len() == 0 {
        false
    } else if a[0] == b[0] {
        text_le(a.skip(1), b.skip(1))
    } else {
        a[0] < b[0]
    }
}

pub proof fn lemma_text_le_reflexive(a: Seq<char>)
    ensures
        text_le(a, a),
    decreases a.len(),
{
    if a.len() > 0 {
        lemma_text_le_reflexive(a.skip(1));
    }
}

pub proof fn lemma_text_le_total(a: Seq<char>, b: Seq<char>)
    ensures
        text_le(a, b) || text_le(b, a),
    decreases a.len(),
{
    if a.len() > 0 && b.len() > 0 {
        lemma_text_le_total(a.skip(1), b.skip(1));
    }
}

pub proof fn lemma_text_le_transitive(a: Seq<char>, b: Seq<char>, c: Seq<char>)
    requires
        text_le(a, b),
        text_le(b, c),
    ensures
        text_le(a, c),
    decreases a.len(),
{
    if a.len() > 0 && b.len() > 0 && c.len() > 0 && a[0] == b[0] && b[0] == c[0] {
        lemma_text_le_transitive(a.skip(1), b.skip(1), c.skip(1));
    }
}

pub proof fn lemma_text_le_antisymmetric(a: Seq<char>, b: Seq<char>)
    requires
        text_le(a, b),
        text_le(b, a),
    ensures
        a == b,
    decreases a.len(),
{
    if a.len() > 0 && b.len() > 0 {
        lemma_text_le_antisymmetric(a.skip(1), b.skip(1));
        assert(a == seq![a[0]] + a.skip(1));
        assert(b == seq![b[0]] + b.skip(1));
    } else {
        assert(a == b);
    }
}

/// Whether `a` comes no later than `b`.
pub fn text_not_after(a: &str, b: &str) -> (r: bool)
    ensures
        r == text_le(a@, b@),
{
    let x = text::chars_of(a);
    let y = text::chars_of(b);
    let mut i: usize = 0;
    proof {
        assert(x@.skip(0) == x@);
        assert(y@.skip(0) == y@);
    }
    while i < x.len()
        invariant
            i <= x.len(),
            i <= y.len(),
            x@ == a@,
            y@ == b@,
            text_le(a@, b@) == text_le(x@.skip(i as int), y@.skip(i as int)),
        decreases x.len() - i,
    {
        if i >= y.len() {
            return false;
        }
        if x[i] != y[i] {
            return x[i] < y[i];
        }
        assert(x@.skip(i as int).skip(1) == x@.skip(i + 1));
        assert(y@.skip(i as int).skip(1) == y@.skip(i + 1));
        i += 1;
    }
    true
}

/// A record that is ordered by a text.
pub trait Keyed: Sized {
    /// The text that the record is ordered by.
    spec fn key_text(&self) -> Seq<char>;

    /// The text that the record is ordered by.
    fn key(&self) -> (r: &str)
        ensures
            r@ == self.key_text(),
    ;
}

impl Keyed for String {
    open spec fn key_text(&self) -> Seq<char> {
        self@
    }

    fn key(&self) -> &str {
        self.as_str()
    }
}

/// `x` put into `s` behind everything that comes no later.
pub open spec fn inserted<T: Keyed>(s: Seq<T>, x: T) -> Seq<T>
    decreases s.len(),
{
    if s.len() == 0 || text_le(s.last().key_text(), x.key_text()) {
        s.push(x)
    } else {
        inserted(s.drop_last(), x).push(s.last())
    }
}

/// The records of `s` in order; records with one key keep their places among
/// each other.
pub open spec fn sorted<T: Keyed>(s: Seq<T>) -> Seq<T>
    decreases s.len(),
{
    if s.len() == 0 {
        Seq::empty()
    } else {
        inserted(sorted(s.drop_last()), s.last())
    }
}

/// Whether the keys stand in order.
pub open spec fn is_sorted<T: Keyed>(s: Seq<T>) -> bool {
    forall|i: int, j: int|
        0 <= i <= j < s.len() ==> text_le((#[trigger] s[i]).key_text(), (#[trigger] s[j]).key_text())
}

proof fn lemma_inserted<T: Keyed>(s: Seq<T>, x: T)
    requires
        is_sorted(s),
    ensures
        is_sorted(inserted(s, x)),
        inserted(s, x).to_multiset() == s.to_multiset().insert(x),
        inserted(s, x).len() == s.len() + 1,
        forall|i: int|
            0 <= i < inserted(s, x).len() ==> #[trigger] inserted(s, x)[i] == x || s.contains(
                inserted(s, x)[i],
            ),
    decreases s.len(),
{
    broadcast use vstd::seq_lib::group_to_multiset_ensures;

    if s.len() == 0 {
        lemma_text_le_reflexive(x.key_text());
    } else if text_le(s.last().key_text(), x.key_text()) {
        let r = s.push(x);
        assert forall|i: int, j: int| 0 <= i <= j < r.len() implies text_le(
            (#[trigger] r[i]).key_text(),
            (#[trigger] r[j]).key_text(),
        ) by {
            if j == s.len() && i < j {
                assert(text_le(s[i].key_text(), s[s.len() - 1].key_text()));
                lemma_text_le_transitive(s[i].key_text(), s.last().key_text(), x.key_text());
            } else if j == s.len() {
                lemma_text_le_reflexive(x.key_text());
            }
        }
        assert forall|i: int| 0 <= i < r.len() implies #[trigger] r[i] == x || s.contains(r[i]) by {
            if i < s.len() {
                assert(s[i] == r[i]);
            }
        }
    } else {
        let front = s.drop_last();
        let last = s.last();
        assert forall|i: int, j: int| 0 <= i <= j < front.len() implies text_le(
            (#[trigger] front[i]).key_text(),
            (#[trigger] front[j]).key_text(),
        ) by {
            assert(text_le(s[i].key_text(), s[j].key_text()));
        }
        lemma_inserted(front, x);
        let before = inserted(front, x);
        let r = before.push(last);
        lemma_text_le_total(last.key_text(), x.key_text());
        assert forall|i: int| 0 <= i < before.len() implies text_le(
            (#[trigger] before[i]).key_text(),
            last.key_text(),
        ) by {
            if before[i] != x {
                let k = choose|k: int| 0 <= k < front.len() && front[k] == before[i];
                assert(text_le(s[k].key_text(), s[s.len() - 1].key_text()));
            }
        }
        assert forall|i: int, j: int| 0 <= i <= j < r.len() implies text_le(
            (#[trigger] r[i]).key_text(),
            (#[trigger] r[j]).key_text(),
        ) by {
            if j < before.len() {
                assert(text_le(before[i].key_text(), before[j].key_text()));
            } else if i < before.len() {
                assert(text_le(before[i].key_text(), last.key_text()));
            } else {
                lemma_text_le_reflexive(last.key_text());
            }
        }
        assert forall|i: int| 0 <= i < r.len() implies #[trigger] r[i] == x || s.contains(r[i]) by {
            if i < before.len() {
                assert(r[i] == before[i]);
                if before[i] != x {
                    let k = choose|k: int| 0 <= k < front.len() && front[k] == before[i];
                    assert(s[k] == r[i]);
                }
            } else {
                assert(s[s.len() - 1] == last);
            }
        }
        assert(s =~= front.push(last));
        assert(r.to_multiset() =~= s.to_multiset().insert(x));
    }
}

/// A sorted list is in order and holds what was sorted, no more and no less.
pub proof fn law_sorted_is_an_ordered_permutation<T: Keyed>(s: Seq<T>)
    ensures
        is_sorted(sorted(s)),
        sorted(s).to_multiset() == s.to_multiset(),
        sorted(s).len() == s.len(),
    decreases s.len(),
{
    broadcast use vstd::seq_lib::group_to_multiset_ensures;

    if s.len() > 0 {
        law_sorted_is_an_ordered_permutation(s.drop_last());
        lemma_inserted(sorted(s.drop_last()), s.last());
        assert(s =~= s.drop_last().push(s.last()));
    }
}

proof fn lemma_inserted_at<T: Keyed>(s: Seq<T>, x: T, j: int)
    requires
        0 <= j <= s.len(),
        j == 0 || text_le(s[j - 1].key_text(), x.key_text()),
        forall|k: int| j <= k < s.len() ==> !text_le((#[trigger] s[k]).key_text(), x.key_text()),
    ensures
        inserted(s, x) == s.insert(j, x),
    decreases s.len(),
{
    if j == s.len() {
        assert(s.insert(j, x) =~= s.push(x));
    } else {
        lemma_inserted_at(s.drop_last(), x, j);
        assert(s.insert(j, x) =~= s.drop_last().insert(j, x).push(s.last()));
    }
}

/// Puts `x` behind everything that comes no later.
pub fn insert_sorted<T: Keyed>(out: &mut Vec<T>, x: T)
    ensures
        final(out)@ == inserted(old(out)@, x),
{
    let mut j: usize = out.len();
    while j > 0 && !text_not_after(out[j - 1].key(), x.key())
        invariant
            j <= out.len(),
            forall|k: int|
                j <= k < out.len() ==> !text_le((#[trigger] out@[k]).key_text(), x.key_text()),
        decreases j,
    {
        j -= 1;
    }
    proof {
        lemma_inserted_at(out@, x, j as int);
    }
    out.insert(j, x);
}

/// The records in order.
pub fn sort<T: Keyed>(records: Vec<T>) -> (r: Vec<T>)
    ensures
        r@ == sorted(records@),
{
    let ghost all = records@;
    let mut out: Vec<T> = Vec::new();
    assert(all.take(0) == Seq::<T>::empty());
    for record in it: records
        invariant
            it.seq() == all,
            out@ == sorted(all.take(it.index() as int)),
    {
        let ghost now = all.take(it.index() + 1);
        assert(now.drop_last() == all.take(it.index() as int));
        insert_sorted(&mut out, record);
    }
    assert(all.take(all.len() as int) == all);
    out
}

/// The texts in `s`, each once, in order: `t` put where it belongs unless it
/// is there.
pub open spec fn set_insert(s: Seq<Seq<char>>, t: Seq<char>) -> Seq<Seq<char>>
    decreases s.len(),
{
    if s.len() == 0 {
        seq![t]
    } else if s.last() == t {
        s
    } else if text_le(s.last(), t) {
        s.push(t)
    } else {
        set_insert(s.drop_last(), t).push(s.last())
    }
}

/// The texts of `s`, each once, in order.
pub open spec fn text_set(s: Seq<Seq<char>>) -> Seq<Seq<char>>
    decreases s.len(),
{
    if s.len() == 0 {
        Seq::empty()
    } else {
        set_insert(text_set(s.drop_last()), s.last())
    }
}

/// Whether each text comes strictly before the next.
pub open spec fn strictly_ordered(s: Seq<Seq<char>>) -> bool {
    forall|i: int, j: int|
        0 <= i < j < s.len() ==> text_le(#[trigger] s[i], #[trigger] s[j]) && s[i] != s[j]
}

proof fn lemma_set_insert(s: Seq<Seq<char>>, t: Seq<char>)
    requires
        strictly_ordered(s),
    ensures
        strictly_ordered(set_insert(s, t)),
        forall|x: Seq<char>|
            #![trigger set_insert(s, t).contains(x)]
            #![trigger s.contains(x)]
            set_insert(s, t).contains(x) <==> x == t || s.contains(x),
    decreases s.len(),
{
    let r = set_insert(s, t);
    if s.len() == 0 {
        assert(r[0] == t);
    } else if s.last() == t {
        assert(s[s.len() - 1] == t);
    } else if text_le(s.last(), t) {
        assert forall|i: int, j: int| 0 <= i < j < r.len() implies text_le(
            #[trigger] r[i],
            #[trigger] r[j],
        ) && r[i] != r[j] by {
            if j == s.len() {
                if i < s.len() - 1 {
                    lemma_text_le_transitive(s[i], s.last(), t);
                    if s[i] == t {
                        lemma_text_le_antisymmetric(s[i], s.last());
                    }
                }
            }
        }
        assert forall|x: Seq<char>|
            #![trigger r.contains(x)]
            #![trigger s.contains(x)]
            r.contains(x) <==> x == t || s.contains(x) by {
            if s.contains(x) {
                let k = choose|k: int| 0 <= k < s.len() && s[k] == x;
                assert(r[k] == x);
            }
            if r.contains(x) {
                let k = choose|k: int| 0 <= k < r.len() && r[k] == x;
                if k < s.len() {
                    assert(s[k] == x);
                }
            }
            assert(r[s.len() as int] == t);
        }
    } else {
        let front = s.drop_last();
        let last = s.last();
        assert forall|i: int, j: int| 0 <= i < j < front.len() implies text_le(
            #[trigger] front[i],
            #[trigger] front[j],
        ) && front[i] != front[j] by {
            assert(text_le(s[i], s[j]) && s[i] != s[j]);
        }
        lemma_set_insert(front, t);
        let before = set_insert(front, t);
        lemma_text_le_total(last, t);
        assert forall|i: int| 0 <= i < before.len() implies text_le(#[trigger] before[i], last)
            && before[i] != last by {
            assert(before.contains(before[i]));
            if before[i] != t {
                let k = choose|k: int| 0 <= k < front.len() && front[k] == before[i];
                assert(text_le(s[k], s[s.len() - 1]) && s[k] != s[s.len() - 1]);
            }
        }
        assert forall|i: int, j: int| 0 <= i < j < r.len() implies text_le(
            #[trigger] r[i],
            #[trigger] r[j],
        ) && r[i] != r[j] by {
            if j < before.len() {
                assert(text_le(before[i], before[j]) && before[i] != before[j]);
            } else {
                assert(text_le(before[i], last) && before[i] != last);
            }
        }
        assert forall|x: Seq<char>|
            #![trigger r.contains(x)]
            #![trigger s.contains(x)]
            r.contains(x) <==> x == t || s.contains(x) by {
            if r.contains(x) {
                let k = choose|k: int| 0 <= k < r.len() && r[k] == x;
                if k < before.len() {
                    assert(before[k] == x);
                    assert(before.contains(x));
                    if x != t {
                        let m = choose|m: int| 0 <= m < front.len() && front[m] == x;
                        assert(s[m] == x);
                    }
                } else {
                    assert(s[s.len() - 1] == x);
                }
            }
            if x == t || s.contains(x) {
                if x == t || front.contains(x) {
                    assert(before.contains(x));
                    let k = choose|k: int| 0 <= k < before.len() && before[k] == x;
                    assert(r[k] == x);
                } else {
                    let m = choose|m: int| 0 <= m < s.len() && s[m] == x;
                    if m < front.len() {
                        assert(front[m] == x);
                    }
                    assert(r[before.len() as int] == last);
                }
            }
        }
    }
}

/// A text set is strictly ordered and holds exactly the given texts.
pub proof fn law_text_set(s: Seq<Seq<char>>)
    ensures
        strictly_ordered(text_set(s)),
        forall|x: Seq<char>|
            #![trigger text_set(s).contains(x)]
            #![trigger s.contains(x)]
            text_set(s).contains(x) <==> s.contains(x),
    decreases s.len(),
{
    if s.len() > 0 {
        law_text_set(s.drop_last());
        lemma_set_insert(text_set(s.drop_last()), s.last());
        assert forall|x: Seq<char>|
            #![trigger text_set(s).contains(x)]
            #![trigger s.contains(x)]
            text_set(s).contains(x) <==> s.contains(x) by {
            if s.contains(x) {
                let k = choose|k: int| 0 <= k < s.len() && s[k] == x;
                if k < s.len() - 1 {
                    assert(s.drop_last()[k] == x);
                }
            }
            if s.drop_last().contains(x) {
                let k = choose|k: int| 0 <= k < s.drop_last().len() && s.drop_last()[k] == x;
                assert(s[k] == x);
            }
            assert(s[s.len() - 1] == s.last());
        }
    }
}

proof fn lemma_set_insert_at(s: Seq<Seq<char>>, t: Seq<char>, j: int)
    requires
        0 <= j <= s.len(),
        j > 0 ==> text_le(s[j - 1], t),
        forall|k: int| j <= k < s.len() ==> !text_le(#[trigger] s[k], t),
    ensures
        set_insert(s, t) == (if j > 0 && s[j - 1] == t {
            s
        } else {
            s.insert(j, t)
        }),
    decreases s.len(),
{
    lemma_text_le_reflexive(t);
    if s.len() == 0 {
        assert(s.insert(j, t) =~= seq![t]);
    } else if j == s.len() {
        assert(s.insert(j, t) =~= s.push(t));
    } else {
        assert(!text_le(s[s.len() - 1], t));
        lemma_set_insert_at(s.drop_last(), t, j);
        if j > 0 && s[j - 1] == t {
            assert(s.drop_last().push(s.last()) =~= s);
        } else {
            assert(s.insert(j, t) =~= s.drop_last().insert(j, t).push(s.last()));
        }
    }
}

/// Puts `value` where it belongs, unless it is there.
pub fn insert_text(out: &mut Vec<String>, value: &String)
    ensures
        text::texts(final(out)@) == set_insert(text::texts(old(out)@), value@),
{
    let ghost before = text::texts(out@);
    let mut j: usize = out.len();
    while j > 0 && !text_not_after(&out[j - 1], value)
        invariant
            j <= out.len(),
            before == text::texts(out@),
            forall|k: int| j <= k < before.len() ==> !text_le(#[trigger] before[k], value@),
        decreases j,
    {
        j -= 1;
    }
    proof {
        lemma_set_insert_at(before, value@, j as int);
    }
    if j > 0 && text::same_text(&out[j - 1], value) {
        return;
    }
    out.insert(j, value.clone());
    assert(text::texts(out@) =~= before.insert(j as int, value@));
}

/// Puts each of `values` where it belongs, unless it is there.
pub open spec fn set_extend(s: Seq<Seq<char>>, values: Seq<Seq<char>>) -> Seq<Seq<char>>
    decreases values.len(),
{
    if values.len() == 0 {
        s
    } else {
        set_insert(set_extend(s, values.drop_last()), values.last())
    }
}

/// Puts each of `values` where it belongs, unless it is there.
pub fn insert_texts(out: &mut Vec<String>, values: &Vec<String>)
    ensures
        text::texts(final(out)@) == set_extend(text::texts(old(out)@), text::texts(values@)),
{
    let ghost before = text::texts(out@);
    let ghost all = text::texts(values@);
    let mut i: usize = 0;
    assert(all.take(0) == Seq::<Seq<char>>::empty());
    while i < values.len()
        invariant
            i <= values.len(),
            all == text::texts(values@),
            text::texts(out@) == set_extend(before, all.take(i as int)),
        decreases values.len() - i,
    {
        assert(all.take(i + 1).drop_last() == all.take(i as int));
        insert_text(out, &values[i]);
        i += 1;
    }
    assert(all.take(i as int) == all);
}

/// Extending the empty set, and extending twice.
pub proof fn lemma_set_extend(a: Seq<Seq<char>>, b: Seq<Seq<char>>)
    ensures
        set_extend(text_set(a), b) == text_set(a + b),
    decreases b.len(),
{
    if b.len() == 0 {
        assert(a + b == a);
    } else {
        lemma_set_extend(a, b.drop_last());
        assert((a + b).drop_last() == a + b.drop_last());
    }
}

} // verus!
