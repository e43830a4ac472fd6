//! Small association tables keyed by satellite, kept as vectors of pairs
//! with unique keys.

use vstd::prelude::*;

use crate::signal::Sv;

verus! {

/// The value a key resolves to: the first entry with that key.
pub open spec fn spec_lookup<V>(m: Seq<(Sv, V)>, sv: Sv) -> Option<V>
    decreases m.len(),
{
    if m.len() == 0 {
        None
    } else if m[0].0 == sv {
        Some(m[0].1)
    } else {
        spec_lookup(m.skip(1), sv)
    }
}

/// The keys of a table are pairwise distinct.
pub open spec fn spec_unique_keys<V>(m: Seq<(Sv, V)>) -> bool {
    forall|i: int, j: int| 0 <= i < j < m.len() ==> (#[trigger] m[i]).0 != (#[trigger] m[j]).0
}

/// A lookup that scanned without a match up to `j` resolves there.
pub proof fn lemma_lookup_at<V>(m: Seq<(Sv, V)>, sv: Sv, j: int)
    requires
        0 <= j <= m.len(),
        forall|t: int| 0 <= t < j ==> (#[trigger] m[t]).0 != sv,
        j == m.len() || m[j].0 == sv,
    ensures
        spec_lookup(m, sv) == (if j == m.len() {
            None
        } else {
            Some(m[j].1)
        }),
    decreases m.len(),
{
    if m.len() > 0 && j > 0 {
        assert(forall|t: int| 0 <= t < j - 1 ==> (#[trigger] m.skip(1)[t]).0 == m[t + 1].0);
        lemma_lookup_at(m.skip(1), sv, j - 1);
    }
}

/// Replacing the entry that a key resolves to changes that key's lookup and
/// no other.
pub proof fn lemma_lookup_update<V>(m: Seq<(Sv, V)>, j: int, v: V, s: Sv)
    requires
        0 <= j < m.len(),
        forall|t: int| 0 <= t < j ==> (#[trigger] m[t]).0 != m[j].0,
    ensures
        spec_lookup(m.update(j, (m[j].0, v)), s) == (if s == m[j].0 {
            Some(v)
        } else {
            spec_lookup(m, s)
        }),
    decreases m.len(),
{
    let m2 = m.update(j, (m[j].0, v));
    if j == 0 {
        assert(m2.skip(1) =~= m.skip(1));
    } else {
        assert(m2.skip(1) =~= m.skip(1).update(j - 1, (m[j].0, v)));
        assert(forall|t: int| 0 <= t < j - 1 ==> (#[trigger] m.skip(1)[t]).0 == m[t + 1].0);
        assert(m.skip(1)[j - 1] == m[j]);
        lemma_lookup_update(m.skip(1), j - 1, v, s);
    }
}

/// Appending an entry answers lookups that found nothing before.
pub proof fn lemma_lookup_push<V>(m: Seq<(Sv, V)>, x: (Sv, V), s: Sv)
    ensures
        spec_lookup(m.push(x), s) == (if spec_lookup(m, s) is Some {
            spec_lookup(m, s)
        } else if s == x.0 {
            Some(x.1)
        } else {
            None
        }),
    decreases m.len(),
{
    if m.len() == 0 {
        assert(m.push(x)[0] == x);
        assert(m.push(x).skip(1) =~= Seq::<(Sv, V)>::empty());
        assert(spec_lookup(Seq::<(Sv, V)>::empty(), s) is None);
    } else {
        assert(m.push(x)[0] == m[0]);
        assert(m.push(x).skip(1) =~= m.skip(1).push(x));
        lemma_lookup_push(m.skip(1), x, s);
    }
}

/// A key that resolves to nothing appears nowhere.
pub proof fn lemma_lookup_none<V>(m: Seq<(Sv, V)>, sv: Sv)
    requires
        spec_lookup(m, sv) is None,
    ensures
        forall|i: int| 0 <= i < m.len() ==> (#[trigger] m[i]).0 != sv,
    decreases m.len(),
{
    if m.len() > 0 {
        lemma_lookup_none(m.skip(1), sv);
        assert(forall|i: int| 1 <= i < m.len() ==> m[i] == m.skip(1)[i - 1]);
    }
}

/// Finds the first entry with the given key.
pub fn find_key<V>(m: &Vec<(Sv, V)>, sv: Sv) -> (r: Option<usize>)
    ensures
        r matches Some(i) ==> i < m@.len() && m@[i as int].0 == sv && spec_lookup(m@, sv) == Some(
            m@[i as int].1,
        ) && (forall|t: int| 0 <= t < i ==> (#[trigger] m@[t]).0 != sv),
        r is None ==> spec_lookup(m@, sv) is None,
{
    let mut i: usize = 0;
    while i < m.len()
        invariant
            i <= m@.len(),
            forall|t: int| 0 <= t < i ==> (#[trigger] m@[t]).0 != sv,
        decreases m@.len() - i,
    {
        if m[i].0 == sv {
            proof {
                lemma_lookup_at(m@, sv, i as int);
            }
            return Some(i);
        }
        i = i + 1;
    }
    proof {
        lemma_lookup_at(m@, sv, m@.len() as int);
    }
    None
}

} // verus!
