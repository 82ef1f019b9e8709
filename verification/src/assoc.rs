use vstd::prelude::*;

verus! {

/// The value under the first occurrence of `key`, if any.
pub open spec fn assoc_lookup<V>(s: Seq<(Seq<char>, V)>, key: Seq<char>) -> Option<V>
    decreases s.len(),
{
    if s.len() == 0 {
        None
    } else if s[0].0 == key {
        Some(s[0].1)
    } else {
        assoc_lookup(s.drop_first(), key)
    }
}

pub open spec fn assoc_keys<V>(s: Seq<(Seq<char>, V)>) -> Seq<Seq<char>> {
    s.map_values(|p: (Seq<char>, V)| p.0)
}

pub proof fn lemma_assoc_lookup_after_update<V>(s: Seq<(Seq<char>, V)>, i: int, v: V)
    requires
        0 <= i < s.len(),
        forall|j: int| 0 <= j < i ==> s[j].0 != s[i].0,
    ensures
        assoc_lookup(s.update(i, (s[i].0, v)), s[i].0) == Some(v),
        forall|k: Seq<char>|
            k != s[i].0 ==> assoc_lookup(s.update(i, (s[i].0, v)), k) == assoc_lookup(s, k),
    decreases i,
{
    let t = s.update(i, (s[i].0, v));
    if i == 0 {
        assert(t[0] == (s[0].0, v));
        assert(t.drop_first() =~= s.drop_first());
    } else {
        assert(t[0] == s[0]);
        assert(t.drop_first() =~= s.drop_first().update(i - 1, (s.drop_first()[i - 1].0, v)));
        lemma_assoc_lookup_after_update(s.drop_first(), i - 1, v);
        assert forall|k: Seq<char>| k != s[i].0 implies assoc_lookup(t, k) == assoc_lookup(
            s,
            k,
        ) by {
            if k == s[0].0 {
            } else {
                assert(assoc_lookup(t, k) == assoc_lookup(t.drop_first(), k));
                assert(assoc_lookup(
                    s.drop_first().update(i - 1, (s.drop_first()[i - 1].0, v)),
                    k,
                ) == assoc_lookup(s.drop_first(), k));
            }
        }
    }
}

pub proof fn lemma_assoc_lookup_none_no_key<V>(s: Seq<(Seq<char>, V)>, key: Seq<char>)
    requires
        assoc_lookup(s, key) is None,
    ensures
        forall|j: int| 0 <= j < s.len() ==> s[j].0 != key,
    decreases s.len(),
{
    if s.len() > 0 {
        lemma_assoc_lookup_none_no_key(s.drop_first(), key);
        assert forall|j: int| 0 <= j < s.len() implies s[j].0 != key by {
            if j > 0 {
                assert(s.drop_first()[j - 1] == s[j]);
            }
        }
    }
}

pub proof fn lemma_assoc_lookup_after_push<V>(s: Seq<(Seq<char>, V)>, key: Seq<char>, v: V)
    requires
        forall|j: int| 0 <= j < s.len() ==> s[j].0 != key,
    ensures
        assoc_lookup(s.push((key, v)), key) == Some(v),
        forall|k: Seq<char>| k != key ==> assoc_lookup(s.push((key, v)), k) == assoc_lookup(s, k),
    decreases s.len(),
{
    let t = s.push((key, v));
    if s.len() == 0 {
        assert(t[0] == (key, v));
        assert(t.drop_first() =~= Seq::<(Seq<char>, V)>::empty());
        assert forall|k: Seq<char>| k != key implies assoc_lookup(t, k) == assoc_lookup(s, k) by {
            assert(assoc_lookup(t, k) == assoc_lookup(t.drop_first(), k));
            assert(assoc_lookup(t.drop_first(), k) is None);
        }
    } else {
        assert(t[0] == s[0]);
        assert(t.drop_first() =~= s.drop_first().push((key, v)));
        lemma_assoc_lookup_after_push(s.drop_first(), key, v);
        assert forall|k: Seq<char>| k != key implies assoc_lookup(t, k) == assoc_lookup(s, k) by {
            if k != s[0].0 {
                assert(assoc_lookup(t, k) == assoc_lookup(t.drop_first(), k));
                assert(assoc_lookup(s.drop_first().push((key, v)), k) == assoc_lookup(
                    s.drop_first(),
                    k,
                ));
            }
        }
    }
}

} // verus!
