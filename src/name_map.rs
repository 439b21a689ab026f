use vstd::prelude::*;

verus! {

/// The map that a list of entries stands for: a later entry of the same
/// name overrides an earlier one.
pub open spec fn map_of<V>(s: Seq<(String, V)>) -> Map<Seq<char>, V>
    decreases s.len(),
{
    if s.len() == 0 {
        Map::empty()
    } else {
        map_of(s.drop_last()).insert(s.last().0@, s.last().1)
    }
}

/// Entry `i` is the last one named `k`.
pub open spec fn last_named<V>(s: Seq<(String, V)>, i: int, k: Seq<char>) -> bool {
    &&& 0 <= i < s.len()
    &&& s[i].0@ == k
    &&& forall|j: int| i < j < s.len() ==> s[j].0@ != k
}

proof fn lemma_map_of_push<V>(s: Seq<(String, V)>, e: (String, V))
    ensures
        map_of(s.push(e)) == map_of(s).insert(e.0@, e.1),
{
    assert(s.push(e).drop_last() =~= s);
}

proof fn lemma_map_of_dom<V>(s: Seq<(String, V)>, k: Seq<char>)
    ensures
        map_of(s).contains_key(k) <==> exists|i: int| 0 <= i < s.len() && s[i].0@ == k,
    decreases s.len(),
{
    if s.len() > 0 {
        lemma_map_of_dom(s.drop_last(), k);
        if map_of(s).contains_key(k) && k != s.last().0@ {
            let i = choose|i: int| 0 <= i < s.len() - 1 && s.drop_last()[i].0@ == k;
            assert(s[i].0@ == k);
        }
        if exists|i: int| 0 <= i < s.len() && s[i].0@ == k {
            let i = choose|i: int| 0 <= i < s.len() && s[i].0@ == k;
            if i < s.len() - 1 {
                assert(s.drop_last()[i].0@ == k);
            }
        }
    }
}

/// Two lists with the same names in the same places map the same names.
pub proof fn lemma_map_of_same_names<V, W>(s: Seq<(String, V)>, t: Seq<(String, W)>)
    requires
        s.len() == t.len(),
        forall|j: int| 0 <= j < s.len() ==> #[trigger] s[j].0@ == t[j].0@,
    ensures
        map_of(s).dom() == map_of(t).dom(),
{
    assert forall|k: Seq<char>| map_of(s).contains_key(k) <==> map_of(t).contains_key(k) by {
        lemma_map_of_dom(s, k);
        lemma_map_of_dom(t, k);
        if map_of(s).contains_key(k) {
            let i = choose|i: int| 0 <= i < s.len() && s[i].0@ == k;
            assert(t[i].0@ == k);
        }
        if map_of(t).contains_key(k) {
            let i = choose|i: int| 0 <= i < t.len() && t[i].0@ == k;
            assert(s[i].0@ == k);
        }
    }
    assert(map_of(s).dom() =~= map_of(t).dom());
}

proof fn lemma_map_of_last<V>(s: Seq<(String, V)>, i: int, k: Seq<char>)
    requires
        last_named(s, i, k),
    ensures
        map_of(s).contains_key(k),
        map_of(s)[k] == s[i].1,
    decreases s.len(),
{
    if i < s.len() - 1 {
        lemma_map_of_last(s.drop_last(), i, k);
    }
}

proof fn lemma_map_of_update<V>(s: Seq<(String, V)>, i: int, e: (String, V))
    requires
        last_named(s, i, e.0@),
    ensures
        map_of(s.update(i, e)) == map_of(s).insert(e.0@, e.1),
    decreases s.len(),
{
    let t = s.update(i, e);
    if i < s.len() - 1 {
        assert(t.drop_last() =~= s.drop_last().update(i, e));
        lemma_map_of_update(s.drop_last(), i, e);
        assert(map_of(t) =~= map_of(s).insert(e.0@, e.1));
    } else {
        assert(t.drop_last() =~= s.drop_last());
        assert(map_of(t) =~= map_of(s).insert(e.0@, e.1));
    }
}

proof fn lemma_map_of_remove<V>(s: Seq<(String, V)>, i: int, k: Seq<char>)
    requires
        last_named(s, i, k),
    ensures
        map_of(s.remove(i)).remove(k) == map_of(s).remove(k),
    decreases s.len(),
{
    let t = s.remove(i);
    if i < s.len() - 1 {
        assert(t.len() == s.len() - 1);
        assert(t.drop_last() =~= s.drop_last().remove(i));
        assert(t.last() == s.last());
        assert(s.last().0@ != k);
        lemma_map_of_remove(s.drop_last(), i, k);
        let a = map_of(t.drop_last());
        let b = map_of(s.drop_last());
        assert(a.remove(k) == b.remove(k));
        assert(map_of(t) == a.insert(t.last().0@, t.last().1));
        assert(map_of(s) == b.insert(s.last().0@, s.last().1));
        assert(a.insert(s.last().0@, s.last().1).remove(k) =~= a.remove(k).insert(s.last().0@, s.last().1));
        assert(b.insert(s.last().0@, s.last().1).remove(k) =~= b.remove(k).insert(s.last().0@, s.last().1));
    } else {
        assert(t =~= s.drop_last());
        assert(map_of(t).remove(k) =~= map_of(s).remove(k));
    }
}

/// The index of the last entry named `name`, if any.
pub fn find_entry<V>(entries: &Vec<(String, V)>, name: &str) -> (r: Option<usize>)
    ensures
        match r {
            Some(i) => last_named(entries@, i as int, name@) && map_of(entries@).contains_key(name@)
                && map_of(entries@)[name@] == entries@[i as int].1,
            None => !map_of(entries@).contains_key(name@),
        },
{
    let key = name.to_owned();
    let mut i: usize = entries.len();
    while i > 0
        invariant
            i <= entries@.len(),
            key@ == name@,
            forall|j: int| i <= j < entries@.len() ==> entries@[j].0@ != name@,
        decreases i,
    {
        if entries[i - 1].0 == key {
            proof {
                lemma_map_of_last(entries@, i - 1, name@);
            }
            return Some(i - 1);
        }
        i = i - 1;
    }
    proof {
        lemma_map_of_dom(entries@, name@);
    }
    None
}

/// Whether a value is held under `name`.
pub fn contains_entry<V>(entries: &Vec<(String, V)>, name: &str) -> (r: bool)
    ensures
        r == map_of(entries@).contains_key(name@),
{
    find_entry(entries, name).is_some()
}

/// The value held under `name`.
pub fn get_entry<'a, V>(entries: &'a Vec<(String, V)>, name: &str) -> (r: Option<&'a V>)
    ensures
        match r {
            Some(v) => map_of(entries@).contains_key(name@) && *v == map_of(entries@)[name@],
            None => !map_of(entries@).contains_key(name@),
        },
{
    match find_entry(entries, name) {
        Some(i) => Some(&entries[i].1),
        None => None,
    }
}

/// A mutable reference to the value held under `name`.
pub fn get_entry_mut<'a, V>(entries: &'a mut Vec<(String, V)>, name: &str) -> (r: Option<&'a mut V>)
    ensures
        match r {
            Some(v) => map_of(old(entries)@).contains_key(name@) && *v == map_of(old(entries)@)[name@]
                && map_of(final(entries)@) == map_of(old(entries)@).insert(name@, *final(v)),
            None => !map_of(old(entries)@).contains_key(name@) && *final(entries) == *old(entries),
        },
{
    match find_entry(entries, name) {
        Some(i) => {
            proof {
                let s = entries@;
                assert forall|v: V| #![auto]
                    map_of(s.update(i as int, (s[i as int].0, v))) == map_of(s).insert(
                        name@,
                        v,
                    ) by {
                    lemma_map_of_update(s, i as int, (s[i as int].0, v));
                }
            }
            Some(&mut entries[i].1)
        },
        None => None,
    }
}

/// Puts `value` under `name`, replacing what was there.
pub fn insert_entry<V>(entries: &mut Vec<(String, V)>, name: String, value: V)
    ensures
        map_of(final(entries)@) == map_of(old(entries)@).insert(name@, value),
{
    match find_entry(entries, name.as_str()) {
        Some(i) => {
            proof {
                lemma_map_of_update(entries@, i as int, (name, value));
            }
            entries.set(i, (name, value));
        },
        None => {
            proof {
                lemma_map_of_push(entries@, (name, value));
            }
            entries.push((name, value));
        },
    }
}

/// Takes out the value held under `name`.
pub fn remove_entry<V>(entries: &mut Vec<(String, V)>, name: &str) -> (r: Option<V>)
    ensures
        map_of(final(entries)@) == map_of(old(entries)@).remove(name@),
        match r {
            Some(v) => map_of(old(entries)@).contains_key(name@) && v == map_of(old(entries)@)[name@],
            None => !map_of(old(entries)@).contains_key(name@),
        },
{
    let mut found: Option<V> = None;
    loop
        invariant
            map_of(entries@).remove(name@) == map_of(old(entries)@).remove(name@),
            match found {
                Some(v) => map_of(old(entries)@).contains_key(name@) && v == map_of(old(entries)@)[name@],
                None => map_of(entries@) == map_of(old(entries)@),
            },
        decreases entries@.len(),
    {
        match find_entry(entries, name) {
            Some(i) => {
                proof {
                    lemma_map_of_remove(entries@, i as int, name@);
                }
                let (_, v) = entries.remove(i);
                if found.is_none() {
                    found = Some(v);
                }
            },
            None => {
                proof {
                    assert(map_of(entries@) =~= map_of(entries@).remove(name@));
                }
                return found;
            },
        }
    }
}

/// The names of the entries, in order.
pub fn entry_names<V>(entries: &Vec<(String, V)>) -> (r: Vec<String>)
    ensures
        forall|k: Seq<char>|
            map_of(entries@).contains_key(k) <==> exists|i: int| 0 <= i < r@.len() && #[trigger] r@[i]@ == k,
{
    let mut r: Vec<String> = Vec::new();
    let mut i: usize = 0;
    while i < entries.len()
        invariant
            i <= entries@.len(),
            r@.len() == i,
            forall|j: int| 0 <= j < i ==> #[trigger] r@[j]@ == entries@[j].0@,
        decreases entries@.len() - i,
    {
        r.push(entries[i].0.clone());
        i = i + 1;
    }
    assert forall|k: Seq<char>|
        map_of(entries@).contains_key(k) <==> exists|i: int| 0 <= i < r@.len() && #[trigger] r@[i]@ == k by {
        lemma_map_of_dom(entries@, k);
        if exists|i: int| 0 <= i < r@.len() && #[trigger] r@[i]@ == k {
            let i = choose|i: int| 0 <= i < r@.len() && #[trigger] r@[i]@ == k;
            assert(entries@[i].0@ == k);
        }
        if map_of(entries@).contains_key(k) {
            let i = choose|i: int| 0 <= i < entries@.len() && entries@[i].0@ == k;
            assert(r@[i]@ == k);
        }
    }
    r
}

} // verus!
