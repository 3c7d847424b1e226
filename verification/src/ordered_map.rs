//! Lists that stand for ordered maps: entries in the order of their keys, each
//! key once, and a later entry in the place of an earlier one.
use vstd::prelude::*;

use crate::sorting;

verus! {

/// Whether one list of texts does not come after another.
pub open spec fn keys_le(a: Seq<Seq<char>>, b: Seq<Seq<char>>) -> bool
    decreases a.len(),
{
    if a.len() == 0 {
        true
    } else if b.len() == 0 {
        false
    } else if a[0] != b[0] {
        sorting::text_le(a[0], b[0])
    } else {
        keys_le(a.skip(1), b.skip(1))
    }
}

proof fn lemma_keys_le_reflexive(a: Seq<Seq<char>>)
    ensures
        keys_le(a, a),
    decreases a.len(),
{
    if a.len() > 0 {
        lemma_keys_le_reflexive(a.skip(1));
    }
}

proof fn lemma_keys_le_total(a: Seq<Seq<char>>, b: Seq<Seq<char>>)
    ensures
        keys_le(a, b) || keys_le(b, a),
    decreases a.len(),
{
    if a.len() > 0 && b.len() > 0 {
        sorting::lemma_text_le_total(a[0], b[0]);
        lemma_keys_le_total(a.skip(1), b.skip(1));
    }
}

proof fn lemma_keys_le_antisymmetric(a: Seq<Seq<char>>, b: Seq<Seq<char>>)
    requires
        keys_le(a, b),
        keys_le(b, a),
    ensures
        a == b,
    decreases a.len(),
{
    if a.len() > 0 && b.len() > 0 {
        if a[0] != b[0] {
            sorting::lemma_text_le_antisymmetric(a[0], b[0]);
        }
        lemma_keys_le_antisymmetric(a.skip(1), b.skip(1));
        assert(a =~= seq![a[0]] + a.skip(1));
        assert(b =~= seq![b[0]] + b.skip(1));
    } else {
        assert(a =~= b);
    }
}

proof fn lemma_keys_le_transitive(a: Seq<Seq<char>>, b: Seq<Seq<char>>, c: Seq<Seq<char>>)
    requires
        keys_le(a, b),
        keys_le(b, c),
    ensures
        keys_le(a, c),
    decreases a.len(),
{
    if a.len() > 0 && b.len() > 0 && c.len() > 0 {
        if a[0] == b[0] && b[0] == c[0] {
            lemma_keys_le_transitive(a.skip(1), b.skip(1), c.skip(1));
        } else if a[0] != b[0] && b[0] != c[0] {
            sorting::lemma_text_le_transitive(a[0], b[0], c[0]);
            if a[0] == c[0] {
                sorting::lemma_text_le_antisymmetric(a[0], b[0]);
            }
        }
    }
}

/// An entry of an ordered map.
pub trait Entry: Sized {
    /// The key, as a list of texts.
    spec fn entry_key(self) -> Seq<Seq<char>>;

    /// Whether this key does not come after another.
    fn key_not_after(&self, other: &Self) -> (r: bool)
        ensures
            r == keys_le(self.entry_key(), other.entry_key()),
    ;

    /// Whether two keys are the same.
    fn key_is(&self, other: &Self) -> (r: bool)
        ensures
            r == (self.entry_key() == other.entry_key()),
    ;
}

/// Whether one text, as a key of its own, does not come after another.
pub proof fn lemma_single_key(a: Seq<char>, b: Seq<char>)
    ensures
        keys_le(seq![a], seq![b]) == sorting::text_le(a, b),
        (seq![a] == seq![b]) == (a == b),
{
    if a == b {
        sorting::lemma_text_le_reflexive(a);
    }
    assert(seq![a][0] == a && seq![b][0] == b);
    assert(seq![a].skip(1).len() == 0);
    assert(keys_le(seq![a].skip(1), seq![b].skip(1)));
}

/// Whether a pair of texts, as a key, does not come after another.
pub proof fn lemma_pair_key(a: Seq<char>, b: Seq<char>, c: Seq<char>, d: Seq<char>)
    ensures
        keys_le(seq![a, b], seq![c, d]) == (if a == c {
            sorting::text_le(b, d)
        } else {
            sorting::text_le(a, c)
        }),
        (seq![a, b] == seq![c, d]) == (a == c && b == d),
{
    lemma_single_key(b, d);
    assert(seq![a, b].skip(1) =~= seq![b]);
    assert(seq![c, d].skip(1) =~= seq![d]);
    assert(seq![a, b][0] == a && seq![c, d][0] == c);
    assert(seq![a, b][1] == b && seq![c, d][1] == d);
}

/// The map with an entry put in: in the place of one with its key, else where
/// its key belongs.
pub open spec fn put<T: Entry>(s: Seq<T>, x: T) -> Seq<T>
    decreases s.len(),
{
    if s.len() == 0 {
        seq![x]
    } else if s.last().entry_key() == x.entry_key() {
        s.drop_last().push(x)
    } else if keys_le(s.last().entry_key(), x.entry_key()) {
        s.push(x)
    } else {
        put(s.drop_last(), x).push(s.last())
    }
}

/// The map made of a list of entries.
pub open spec fn collected<T: Entry>(s: Seq<T>) -> Seq<T>
    decreases s.len(),
{
    if s.len() == 0 {
        Seq::empty()
    } else {
        put(collected(s.drop_last()), s.last())
    }
}

/// The last entry with a key.
pub open spec fn latest<T: Entry>(s: Seq<T>, key: Seq<Seq<char>>) -> Option<T>
    decreases s.len(),
{
    if s.len() == 0 {
        None
    } else if s.last().entry_key() == key {
        Some(s.last())
    } else {
        latest(s.drop_last(), key)
    }
}

/// Whether the keys stand in order, each once.
pub open spec fn is_map<T: Entry>(s: Seq<T>) -> bool {
    forall|i: int, j: int|
        0 <= i < j < s.len() ==> keys_le((#[trigger] s[i]).entry_key(), (#[trigger]
        s[j]).entry_key()) && s[i].entry_key() != s[j].entry_key()
}

proof fn lemma_latest_put<T: Entry>(s: Seq<T>, x: T, key: Seq<Seq<char>>)
    ensures
        latest(put(s, x), key) == (if x.entry_key() == key {
            Some(x)
        } else {
            latest(s, key)
        }),
    decreases s.len(),
{
    if s.len() == 0 {
        assert(seq![x].drop_last() =~= Seq::<T>::empty());
        assert(seq![x].last() == x);
        assert(latest(Seq::<T>::empty(), key) is None);
    } else if s.last().entry_key() == x.entry_key() {
        assert(s.drop_last().push(x).drop_last() =~= s.drop_last());
    } else if keys_le(s.last().entry_key(), x.entry_key()) {
        assert(s.push(x).drop_last() =~= s);
    } else {
        lemma_latest_put(s.drop_last(), x, key);
        assert(put(s.drop_last(), x).push(s.last()).drop_last() =~= put(s.drop_last(), x));
    }
}

proof fn lemma_put_is_map<T: Entry>(s: Seq<T>, x: T)
    requires
        is_map(s),
    ensures
        is_map(put(s, x)),
        forall|i: int|
            0 <= i < put(s, x).len() ==> #[trigger] put(s, x)[i] == x || s.contains(put(s, x)[i]),
    decreases s.len(),
{
    let r = put(s, x);
    if s.len() == 0 {
    } else if s.last().entry_key() == x.entry_key() {
        assert forall|i: int, j: int| 0 <= i < j < r.len() implies keys_le(
            (#[trigger] r[i]).entry_key(),
            (#[trigger] r[j]).entry_key(),
        ) && r[i].entry_key() != r[j].entry_key() by {
            assert(keys_le(s[i].entry_key(), s[j].entry_key()));
        }
        assert forall|i: int| 0 <= i < r.len() implies #[trigger] r[i] == x || s.contains(r[i]) by {
            if i < s.len() - 1 {
                assert(s[i] == r[i]);
            }
        }
    } else if keys_le(s.last().entry_key(), x.entry_key()) {
        assert forall|i: int, j: int| 0 <= i < j < r.len() implies keys_le(
            (#[trigger] r[i]).entry_key(),
            (#[trigger] r[j]).entry_key(),
        ) && r[i].entry_key() != r[j].entry_key() by {
            if j == s.len() && i < s.len() - 1 {
                assert(keys_le(s[i].entry_key(), s[s.len() - 1].entry_key()));
                lemma_keys_le_transitive(
                    s[i].entry_key(),
                    s.last().entry_key(),
                    x.entry_key(),
                );
                if s[i].entry_key() == x.entry_key() {
                    lemma_keys_le_antisymmetric(s.last().entry_key(), x.entry_key());
                }
            }
        }
        assert forall|i: int| 0 <= i < r.len() implies #[trigger] r[i] == x || s.contains(r[i]) by {
            if i < s.len() {
                assert(s[i] == r[i]);
            }
        }
    } else {
        let front = s.drop_last();
        let last = s.last();
        assert forall|i: int, j: int| 0 <= i < j < front.len() implies keys_le(
            (#[trigger] front[i]).entry_key(),
            (#[trigger] front[j]).entry_key(),
        ) && front[i].entry_key() != front[j].entry_key() by {
            assert(keys_le(s[i].entry_key(), s[j].entry_key()));
        }
        lemma_put_is_map(front, x);
        let before = put(front, x);
        lemma_keys_le_total(last.entry_key(), x.entry_key());
        assert forall|i: int| 0 <= i < before.len() implies keys_le(
            (#[trigger] before[i]).entry_key(),
            last.entry_key(),
        ) && before[i].entry_key() != last.entry_key() by {
            if before[i] != x {
                let k = choose|k: int| 0 <= k < front.len() && front[k] == before[i];
                assert(keys_le(s[k].entry_key(), s[s.len() - 1].entry_key()));
            }
        }
        assert forall|i: int, j: int| 0 <= i < j < r.len() implies keys_le(
            (#[trigger] r[i]).entry_key(),
            (#[trigger] r[j]).entry_key(),
        ) && r[i].entry_key() != r[j].entry_key() by {
            if j < before.len() {
                assert(keys_le(before[i].entry_key(), before[j].entry_key()));
            } else {
                assert(keys_le(before[i].entry_key(), last.entry_key()));
            }
        }
        assert forall|i: int| 0 <= i < r.len() implies #[trigger] r[i] == x || s.contains(r[i]) by {
            if i < before.len() {
                assert(r[i] == before[i]);
                if before[i] != x {
                    let k = choose|k: int| 0 <= k < front.len() && front[k] == before[i];
                    assert(s[k] == r[i]);
                }
            } else {
                assert(s[s.len() - 1] == last);
            }
        }
    }
}

/// A map made of a list holds each key once, in order, and under each key the
/// last entry that the list has for it.
pub proof fn law_collected_is_a_map<T: Entry>(s: Seq<T>, key: Seq<Seq<char>>)
    ensures
        is_map(collected(s)),
        latest(collected(s), key) == latest(s, key),
    decreases s.len(),
{
    if s.len() > 0 {
        law_collected_is_a_map(s.drop_last(), key);
        lemma_put_is_map(collected(s.drop_last()), s.last());
        lemma_latest_put(collected(s.drop_last()), s.last(), key);
    }
}

/// Where the last entry with a key stands.
pub proof fn lemma_latest<T: Entry>(s: Seq<T>, key: Seq<Seq<char>>)
    ensures
        match latest(s, key) {
            Some(e) => e.entry_key() == key && exists|k: int|
                0 <= k < s.len() && #[trigger] s[k] == e,
            None => forall|k: int| 0 <= k < s.len() ==> (#[trigger] s[k]).entry_key() != key,
        },
    decreases s.len(),
{
    if s.len() > 0 {
        if s.last().entry_key() == key {
            assert(s[s.len() - 1] == s.last());
        } else {
            lemma_latest(s.drop_last(), key);
            match latest(s.drop_last(), key) {
                Some(e) => {
                    let k = choose|k: int|
                        0 <= k < s.drop_last().len() && #[trigger] s.drop_last()[k] == e;
                    assert(s[k] == e);
                },
                None => {
                    assert forall|k: int| 0 <= k < s.len() implies (#[trigger]
                    s[k]).entry_key() != key by {
                        if k < s.len() - 1 {
                            assert(s.drop_last()[k] == s[k]);
                        }
                    }
                },
            }
        }
    }
}

proof fn lemma_put_at<T: Entry>(s: Seq<T>, x: T, j: int)
    requires
        0 <= j <= s.len(),
        j > 0 ==> keys_le(s[j - 1].entry_key(), x.entry_key()),
        forall|k: int|
            j <= k < s.len() ==> !keys_le((#[trigger] s[k]).entry_key(), x.entry_key()),
    ensures
        put(s, x) == (if j > 0 && s[j - 1].entry_key() == x.entry_key() {
            s.update(j - 1, x)
        } else {
            s.insert(j, x)
        }),
    decreases s.len(),
{
    lemma_keys_le_reflexive(x.entry_key());
    if s.len() == 0 {
        assert(s.insert(j, x) =~= seq![x]);
    } else if j == s.len() {
        if s.last().entry_key() == x.entry_key() {
            assert(s.update(j - 1, x) =~= s.drop_last().push(x));
        } else {
            assert(s.insert(j, x) =~= s.push(x));
        }
    } else {
        assert(!keys_le(s[s.len() - 1].entry_key(), x.entry_key()));
        lemma_put_at(s.drop_last(), x, j);
        if j > 0 && s[j - 1].entry_key() == x.entry_key() {
            assert(s.drop_last().update(j - 1, x).push(s.last()) =~= s.update(j - 1, x));
        } else {
            assert(s.insert(j, x) =~= s.drop_last().insert(j, x).push(s.last()));
        }
    }
}

/// Puts an entry in.
pub fn put_entry<T: Entry>(out: &mut Vec<T>, x: T)
    ensures
        final(out)@ == put(old(out)@, x),
{
    let ghost before = out@;
    let mut j: usize = out.len();
    while j > 0 && !out[j - 1].key_not_after(&x)
        invariant
            j <= out.len(),
            before == out@,
            forall|k: int|
                j <= k < before.len() ==> !keys_le(
                    (#[trigger] before[k]).entry_key(),
                    x.entry_key(),
                ),
        decreases j,
    {
        j -= 1;
    }
    proof {
        lemma_put_at(before, x, j as int);
    }
    if j > 0 && out[j - 1].key_is(&x) {
        out.set(j - 1, x);
    } else {
        out.insert(j, x);
    }
}

/// The last entry with the key of another.
pub fn find_latest<'a, T: Entry>(entries: &'a Vec<T>, probe: &T) -> (r: Option<&'a T>)
    ensures
        match r {
            Some(e) => latest(entries@, probe.entry_key()) == Some(*e),
            None => latest(entries@, probe.entry_key()) is None,
        },
{
    let mut i: usize = entries.len();
    assert(entries@.take(i as int) == entries@);
    while i > 0
        invariant
            i <= entries.len(),
            latest(entries@, probe.entry_key()) == latest(
                entries@.take(i as int),
                probe.entry_key(),
            ),
        decreases i,
    {
        assert(entries@.take(i as int).drop_last() == entries@.take(i - 1));
        if entries[i - 1].key_is(probe) {
            return Some(&entries[i - 1]);
        }
        i -= 1;
    }
    None
}

} // verus!
