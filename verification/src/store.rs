use crate::value::{ParamValue, ValueModel};
use vstd::prelude::*;

verus! {

/// The mapping denoted by a sequence of (path, value) entries: every entry
/// inserts-or-overwrites its path, so the latest entry for a path wins.
pub open spec fn entries_map(s: Seq<(String, ParamValue)>) -> Map<Seq<char>, ValueModel>
    decreases s.len(),
{
    if s.len() == 0 {
        Map::empty()
    } else {
        entries_map(s.drop_last()).insert(s.last().0@, s.last().1@)
    }
}

/// Model of a layer's contribution: its (path, value) pairs in order.
pub open spec fn layer_model(s: Seq<(String, ParamValue)>) -> Seq<(Seq<char>, ValueModel)> {
    s.map(|i: int, p: (String, ParamValue)| (p.0@, p.1@))
}

/// Applies an ordered sequence of (path, value) pairs to a mapping: every pair
/// inserts-or-overwrites its path, so later pairs strictly dominate earlier
/// ones and paths absent from the pairs keep their prior value.
pub open spec fn apply_pairs(
    m: Map<Seq<char>, ValueModel>,
    ps: Seq<(Seq<char>, ValueModel)>,
) -> Map<Seq<char>, ValueModel>
    decreases ps.len(),
{
    if ps.len() == 0 {
        m
    } else {
        apply_pairs(m, ps.drop_last()).insert(ps.last().0, ps.last().1)
    }
}

/// The latest entry for `k`, scanning from the back.
pub open spec fn find_model(s: Seq<(String, ParamValue)>, k: Seq<char>) -> Option<ValueModel>
    decreases s.len(),
{
    if s.len() == 0 {
        None
    } else if s.last().0@ == k {
        Some(s.last().1@)
    } else {
        find_model(s.drop_last(), k)
    }
}

/// A back-to-front scan finds exactly what the entries' mapping holds.
pub proof fn lemma_find_entries(s: Seq<(String, ParamValue)>, k: Seq<char>)
    ensures
        match find_model(s, k) {
            Some(v) => entries_map(s).contains_key(k) && entries_map(s)[k] == v,
            None => !entries_map(s).contains_key(k),
        },
    decreases s.len(),
{
    if s.len() > 0 {
        lemma_find_entries(s.drop_last(), k);
    }
}

/// Character-by-character string comparison.
pub fn str_eq(a: &str, b: &str) -> (r: bool)
    ensures
        r == (a@ == b@),
{
    let na = a.unicode_len();
    let nb = b.unicode_len();
    if na != nb {
        return false;
    }
    let mut i: usize = 0;
    while i < na
        invariant
            i <= na,
            na == a@.len(),
            na == b@.len(),
            forall|j: int| 0 <= j < i ==> a@[j] == b@[j],
        decreases na - i,
    {
        if a.get_char(i) != b.get_char(i) {
            return false;
        }
        i = i + 1;
    }
    proof {
        assert(a@ =~= b@);
    }
    true
}

/// Finds the value the entries' mapping holds for `key`, if any.
pub fn lookup<'a>(entries: &'a Vec<(String, ParamValue)>, key: &str) -> (r: Option<
    &'a ParamValue,
>)
    ensures
        match r {
            Some(v) => entries_map(entries@).contains_key(key@) && v@ == entries_map(entries@)[key@],
            None => !entries_map(entries@).contains_key(key@),
        },
{
    proof {
        assert(entries@.take(entries@.len() as int) =~= entries@);
    }
    let mut i = entries.len();
    while i > 0
        invariant
            i <= entries@.len(),
            find_model(entries@, key@) == find_model(entries@.take(i as int), key@),
        decreases i,
    {
        let pair = &entries[i - 1];
        if str_eq(pair.0.as_str(), key) {
            proof {
                lemma_find_entries(entries@, key@);
                let t = entries@.take(i as int);
                assert(t.last() == entries@[i as int - 1]);
                assert(find_model(t, key@) == Some(entries@[i as int - 1].1@));
            }
            return Some(&pair.1);
        }
        proof {
            let t = entries@.take(i as int);
            assert(t.drop_last() =~= entries@.take(i as int - 1));
        }
        i = i - 1;
    }
    proof {
        lemma_find_entries(entries@, key@);
        assert(entries@.take(0) =~= Seq::<(String, ParamValue)>::empty());
    }
    None
}

} // verus!
