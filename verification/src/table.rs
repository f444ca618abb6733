//! A small ordered table keyed by name: a list of `(name, value)` pairs
//! read as a map in which the first entry of a name is the one that counts.
use vstd::prelude::*;

verus! {

/// The map that a table stands for: each name maps to the value of its first entry.
pub open spec fn table_map<V>(t: Seq<(String, V)>) -> Map<Seq<char>, V>
    decreases t.len(),
{
    if t.len() == 0 {
        Map::empty()
    } else {
        table_map(t.drop_first()).insert(t[0].0@, t[0].1)
    }
}

/// The value of the first entry named `k`.
pub open spec fn first_val<V>(t: Seq<(String, V)>, k: Seq<char>) -> Option<V>
    decreases t.len(),
{
    if t.len() == 0 {
        None
    } else if t[0].0@ == k {
        Some(t[0].1)
    } else {
        first_val(t.drop_first(), k)
    }
}

/// The table without any entry named `k`, the others in their order.
pub open spec fn without_key<V>(t: Seq<(String, V)>, k: Seq<char>) -> Seq<(String, V)>
    decreases t.len(),
{
    if t.len() == 0 {
        seq![]
    } else if t[0].0@ == k {
        without_key(t.drop_first(), k)
    } else {
        seq![t[0]] + without_key(t.drop_first(), k)
    }
}

/// Some entry of the table is named `k`.
pub open spec fn has_name<V>(t: Seq<(String, V)>, k: Seq<char>) -> bool {
    exists|j: int| 0 <= j < t.len() && #[trigger] t[j].0@ == k
}

/// A name is in the map exactly when some entry carries it.
pub proof fn lemma_table_dom<V>(t: Seq<(String, V)>, k: Seq<char>)
    ensures
        table_map(t).dom().contains(k) <==> has_name(t, k),
    decreases t.len(),
{
    if t.len() > 0 {
        lemma_table_dom(t.drop_first(), k);
        if has_name(t.drop_first(), k) {
            let j = choose|j: int| 0 <= j < t.drop_first().len() && #[trigger] t.drop_first()[j].0@ == k;
            assert(t[j + 1].0@ == k);
        }
        if has_name(t, k) && t[0].0@ != k {
            let j = choose|j: int| 0 <= j < t.len() && #[trigger] t[j].0@ == k;
            assert(t.drop_first()[j - 1].0@ == k);
        }
    }
}

/// The map's value for `k` is that of the first entry named `k`.
pub proof fn lemma_table_first_val<V>(t: Seq<(String, V)>, k: Seq<char>)
    ensures
        first_val(t, k) == (if table_map(t).dom().contains(k) {
            Some(table_map(t)[k])
        } else {
            None::<V>
        }),
    decreases t.len(),
{
    if t.len() > 0 {
        lemma_table_first_val(t.drop_first(), k);
    }
}

/// Dropping every entry named `k` removes `k` from the map.
pub proof fn lemma_without_key<V>(t: Seq<(String, V)>, k: Seq<char>)
    ensures
        table_map(without_key(t, k)) == table_map(t).remove(k),
    decreases t.len(),
{
    if t.len() == 0 {
        assert(table_map(t).remove(k) =~= Map::<Seq<char>, V>::empty());
    } else {
        lemma_without_key(t.drop_first(), k);
        if t[0].0@ == k {
            assert(table_map(t).remove(k) =~= table_map(t.drop_first()).remove(k));
        } else {
            let w = without_key(t.drop_first(), k);
            assert((seq![t[0]] + w).drop_first() =~= w);
            assert(table_map(seq![t[0]] + w) =~= table_map(t).remove(k));
        }
    }
}

/// Appending an entry whose name is new adds that name to the map.
pub proof fn lemma_push_new<V>(t: Seq<(String, V)>, k: String, v: V)
    requires
        !table_map(t).dom().contains(k@),
    ensures
        table_map(t.push((k, v))) == table_map(t).insert(k@, v),
    decreases t.len(),
{
    if t.len() == 0 {
        assert(t.push((k, v)).drop_first() =~= Seq::<(String, V)>::empty());
        assert(t.push((k, v))[0] == (k, v));
        assert(table_map(t) == Map::<Seq<char>, V>::empty());
        assert(table_map(t.push((k, v))) == table_map(Seq::<(String, V)>::empty()).insert(k@, v));
        assert(table_map(t.push((k, v))) =~= table_map(t).insert(k@, v));
    } else {
        assert(t.push((k, v)).drop_first() =~= t.drop_first().push((k, v)));
        lemma_push_new(t.drop_first(), k, v);
        assert(t.push((k, v))[0] == t[0]);
        assert(t[0].0@ != k@);
        assert(table_map(t.push((k, v))) =~= table_map(t).insert(k@, v));
    }
}

/// Replacing the first entry named `k` sets the map's value for `k`.
pub proof fn lemma_update_first<V>(t: Seq<(String, V)>, i: int, k: String, v: V)
    requires
        0 <= i < t.len(),
        t[i].0@ == k@,
        forall|j: int| 0 <= j < i ==> t[j].0@ != k@,
    ensures
        table_map(t.update(i, (k, v))) == table_map(t).insert(k@, v),
    decreases i,
{
    if i == 0 {
        assert(t.update(0, (k, v)).drop_first() =~= t.drop_first());
        assert(table_map(t.update(i, (k, v))) =~= table_map(t).insert(k@, v));
    } else {
        assert(t.update(i, (k, v)).drop_first() =~= t.drop_first().update(i - 1, (k, v)));
        assert forall|j: int| 0 <= j < i - 1 implies t.drop_first()[j].0@ != k@ by {
            assert(t.drop_first()[j] == t[j + 1]);
        }
        lemma_update_first(t.drop_first(), i - 1, k, v);
        assert(t[0].0@ != k@);
        assert(table_map(t.update(i, (k, v))) =~= table_map(t).insert(k@, v));
    }
}

/// Index of the first entry named `k`.
pub fn find_name<V>(t: &Vec<(String, V)>, k: &str) -> (r: Option<usize>)
    ensures
        match r {
            Some(i) => {
                &&& i < t@.len()
                &&& t@[i as int].0@ == k@
                &&& forall|j: int| 0 <= j < i ==> t@[j].0@ != k@
            },
            None => !has_name(t@, k@),
        },
{
    let ks = k.to_owned();
    let mut i: usize = 0;
    while i < t.len()
        invariant
            ks@ == k@,
            i <= t@.len(),
            forall|j: int| 0 <= j < i ==> t@[j].0@ != k@,
        decreases t@.len() - i,
    {
        if t[i].0 == ks {
            return Some(i);
        }
        i = i + 1;
    }
    None
}

/// Whether some entry is named `k`.
pub fn table_has<V>(t: &Vec<(String, V)>, k: &str) -> (r: bool)
    ensures
        r == table_map(t@).dom().contains(k@),
{
    proof {
        lemma_table_dom(t@, k@);
    }
    match find_name(t, k) {
        Some(_) => true,
        None => false,
    }
}

/// The value of the entry named `k`.
pub fn table_get<'a, V>(t: &'a Vec<(String, V)>, k: &str) -> (r: Option<&'a V>)
    ensures
        match r {
            Some(v) => table_map(t@).dom().contains(k@) && *v == table_map(t@)[k@],
            None => !table_map(t@).dom().contains(k@),
        },
{
    proof {
        lemma_table_dom(t@, k@);
        lemma_table_first_val(t@, k@);
    }
    match find_name(t, k) {
        Some(i) => {
            proof {
                lemma_first_val_at(t@, k@, i as int);
            }
            Some(&t[i].1)
        },
        None => None,
    }
}

/// The first entry named `k` gives `first_val`.
proof fn lemma_first_val_at<V>(t: Seq<(String, V)>, k: Seq<char>, i: int)
    requires
        0 <= i < t.len(),
        t[i].0@ == k,
        forall|j: int| 0 <= j < i ==> t[j].0@ != k,
    ensures
        first_val(t, k) == Some(t[i].1),
    decreases i,
{
    if i > 0 {
        assert forall|j: int| 0 <= j < i - 1 implies t.drop_first()[j].0@ != k by {
            assert(t.drop_first()[j] == t[j + 1]);
        }
        assert(t[0].0@ != k);
        lemma_first_val_at(t.drop_first(), k, i - 1);
    }
}

/// Sets the value for `k`: replaces the first entry named `k` in place, or
/// appends a new entry when there is none.
pub fn table_insert<V>(t: &mut Vec<(String, V)>, k: String, v: V)
    ensures
        table_map(final(t)@) == table_map(old(t)@).insert(k@, v),
        has_name(old(t)@, k@) ==> final(t)@.len() == old(t)@.len(),
        !has_name(old(t)@, k@) ==> final(t)@ == old(t)@.push((k, v)),
{
    let ghost k_view = k@;
    match find_name(t, k.as_str()) {
        Some(i) => {
            proof {
                lemma_update_first(t@, i as int, k, v);
            }
            t.set(i, (k, v));
        },
        None => {
            proof {
                lemma_table_dom(t@, k@);
                lemma_push_new(t@, k, v);
            }
            t.push((k, v));
        },
    }
}

/// Drops every entry named `k`; gives the value that the map held for `k`.
pub fn table_remove<V>(t: &mut Vec<(String, V)>, k: &str) -> (r: Option<V>)
    ensures
        final(t)@ == without_key(old(t)@, k@),
        table_map(final(t)@) == table_map(old(t)@).remove(k@),
        r == (if table_map(old(t)@).dom().contains(k@) {
            Some(table_map(old(t)@)[k@])
        } else {
            None::<V>
        }),
{
    let ks = k.to_owned();
    let ghost orig = t@;
    let mut found: Option<V> = None;
    let mut j = t.len();
    assert(orig.skip(j as int) =~= Seq::<(String, V)>::empty());
    assert(t@ =~= orig.take(j as int) + without_key(orig.skip(j as int), k@));
    while j > 0
        invariant
            ks@ == k@,
            j <= orig.len(),
            t@ == orig.take(j as int) + without_key(orig.skip(j as int), k@),
            found == first_val(orig.skip(j as int), k@),
        decreases j,
    {
        let ghost rest = orig.skip(j as int);
        assert(orig.skip(j - 1).drop_first() =~= rest);
        assert(t@[j - 1] == orig[j - 1]);
        if t[j - 1].0 == ks {
            let e = t.remove(j - 1);
            found = Some(e.1);
            assert(t@ =~= orig.take(j - 1) + without_key(orig.skip(j - 1), k@));
        } else {
            assert(t@ =~= orig.take(j - 1) + without_key(orig.skip(j - 1), k@));
        }
        j = j - 1;
    }
    proof {
        assert(orig.skip(0) =~= orig);
        assert(t@ =~= without_key(orig, k@));
        lemma_without_key(orig, k@);
        lemma_table_first_val(orig, k@);
    }
    found
}

} // verus!
