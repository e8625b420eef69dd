use vstd::prelude::*;

verus! {

/// The map that a list of (name, value) entries stands for.
pub open spec fn keyed_view<V>(s: Seq<(String, V)>) -> Map<Seq<char>, V>
    decreases s.len(),
{
    if s.len() == 0 {
        Map::empty()
    } else {
        keyed_view(s.drop_last()).insert(s.last().0@, s.last().1)
    }
}

/// Whether no name occurs twice in `s`.
pub open spec fn keys_unique<V>(s: Seq<(String, V)>) -> bool {
    forall|i: int, j: int| 0 <= i < j < s.len() ==> s[i].0@ != s[j].0@
}

/// A name is in the map exactly when an entry holds it, and with uniqueness the
/// map holds that entry's value.
pub proof fn lemma_keyed_view_index<V>(s: Seq<(String, V)>, k: Seq<char>)
    requires
        keys_unique(s),
    ensures
        keyed_view(s).dom().contains(k) <==> exists|i: int| 0 <= i < s.len() && s[i].0@ == k,
        forall|i: int| 0 <= i < s.len() && s[i].0@ == k ==> keyed_view(s)[k] == #[trigger] s[i].1,
    decreases s.len(),
{
    if s.len() > 0 {
        let p = s.drop_last();
        assert(keys_unique(p));
        lemma_keyed_view_index(p, k);
        if keyed_view(s).dom().contains(k) && s.last().0@ != k {
            let i = choose|i: int| 0 <= i < p.len() && p[i].0@ == k;
            assert(s[i] == p[i]);
        }
        if exists|i: int| 0 <= i < s.len() && s[i].0@ == k {
            let i = choose|i: int| 0 <= i < s.len() && s[i].0@ == k;
            if i < s.len() - 1 {
                assert(p[i] == s[i]);
            }
        }
        assert forall|i: int| 0 <= i < s.len() && s[i].0@ == k implies keyed_view(s)[k] == #[trigger] s[i].1 by {
            if i < s.len() - 1 {
                assert(p[i] == s[i]);
                assert(s[i].0@ != s[s.len() - 1].0@);
            }
        }
    }
}

/// Replacing the value of an entry changes only that name's value.
pub proof fn lemma_keyed_view_update<V>(s: Seq<(String, V)>, i: int, e: (String, V))
    requires
        keys_unique(s),
        0 <= i < s.len(),
        e.0@ == s[i].0@,
    ensures
        keys_unique(s.update(i, e)),
        keyed_view(s.update(i, e)) == keyed_view(s).insert(e.0@, e.1),
    decreases s.len(),
{
    let t = s.update(i, e);
    assert forall|a: int, b: int| 0 <= a < b < t.len() implies t[a].0@ != t[b].0@ by {
        assert(s[a].0@ != s[b].0@);
    }
    let p = s.drop_last();
    if i == s.len() - 1 {
        assert(t.drop_last() =~= p);
        assert(keyed_view(t) =~= keyed_view(s).insert(e.0@, e.1));
    } else {
        assert(keys_unique(p));
        lemma_keyed_view_update(p, i, e);
        assert(t.drop_last() =~= p.update(i, e));
        assert(s.last().0@ != e.0@) by {
            assert(s[i].0@ != s[s.len() - 1].0@);
        }
        assert(keyed_view(t) =~= keyed_view(s).insert(e.0@, e.1));
    }
}

/// Removing an entry removes its name from the map.
pub proof fn lemma_keyed_view_remove<V>(s: Seq<(String, V)>, i: int)
    requires
        keys_unique(s),
        0 <= i < s.len(),
    ensures
        keys_unique(s.remove(i)),
        keyed_view(s.remove(i)) == keyed_view(s).remove(s[i].0@),
    decreases s.len(),
{
    let t = s.remove(i);
    let k = s[i].0@;
    assert forall|a: int, b: int| 0 <= a < b < t.len() implies t[a].0@ != t[b].0@ by {
        let a2 = if a < i { a } else { a + 1 };
        let b2 = if b < i { b } else { b + 1 };
        assert(t[a] == s[a2] && t[b] == s[b2]);
        assert(s[a2].0@ != s[b2].0@);
    }
    let p = s.drop_last();
    assert(keys_unique(p));
    if i == s.len() - 1 {
        assert(t =~= p);
        lemma_keyed_view_index(p, k);
        assert forall|j: int| 0 <= j < p.len() implies p[j].0@ != k by {
            assert(s[j].0@ != s[i].0@);
        }
        assert(!keyed_view(p).dom().contains(k));
        assert(keyed_view(t) =~= keyed_view(s).remove(k));
    } else {
        lemma_keyed_view_remove(p, i);
        assert(t.drop_last() =~= p.remove(i));
        assert(t.last() == s.last());
        assert(s.last().0@ != k) by {
            assert(s[i].0@ != s[s.len() - 1].0@);
        }
        assert(p[i] == s[i]);
        assert(keyed_view(t) =~= keyed_view(s).remove(k));
    }
}

/// Adding an entry under a new name adds that name to the map.
pub proof fn lemma_keyed_view_push<V>(s: Seq<(String, V)>, e: (String, V))
    requires
        keys_unique(s),
        !keyed_view(s).dom().contains(e.0@),
    ensures
        keys_unique(s.push(e)),
        keyed_view(s.push(e)) == keyed_view(s).insert(e.0@, e.1),
{
    lemma_keyed_view_index(s, e.0@);
    let t = s.push(e);
    assert forall|a: int, b: int| 0 <= a < b < t.len() implies t[a].0@ != t[b].0@ by {
        if b == s.len() {
            assert(t[a] == s[a]);
        } else {
            assert(s[a].0@ != s[b].0@);
        }
    }
    assert(t.drop_last() =~= s);
}

/// The index of the entry that holds `name`, if any.
pub fn find_key<V>(entries: &Vec<(String, V)>, name: &str) -> (r: Option<usize>)
    requires
        keys_unique(entries@),
    ensures
        r is None <==> !keyed_view(entries@).dom().contains(name@),
        r matches Some(i) ==> i < entries@.len() && entries@[i as int].0@ == name@
            && keyed_view(entries@)[name@] == entries@[i as int].1,
{
    let key = name.to_owned();
    let mut i: usize = 0;
    while i < entries.len()
        invariant
            i <= entries@.len(),
            key@ == name@,
            keys_unique(entries@),
            forall|j: int| 0 <= j < i ==> entries@[j].0@ != name@,
        decreases entries@.len() - i,
    {
        if entries[i].0 == key {
            proof {
                lemma_keyed_view_index(entries@, name@);
            }
            return Some(i);
        }
        i = i + 1;
    }
    proof {
        lemma_keyed_view_index(entries@, name@);
    }
    None
}

} // verus!
