use vstd::prelude::*;

use crate::text::same_text;

verus! {

/// No two entries of `s` carry the same name.
pub open spec fn names_distinct<V>(s: Seq<(String, V)>) -> bool {
    forall|i: int, j: int|
        0 <= i < s.len() && 0 <= j < s.len() && i != j ==> #[trigger] s[i].0@ != #[trigger] s[j].0@
}

/// Whether some entry of `s` carries the name `k`.
pub open spec fn has_entry<V>(s: Seq<(String, V)>, k: Seq<char>) -> bool {
    exists|i: int| 0 <= i < s.len() && #[trigger] s[i].0@ == k
}

/// The map from names to values that the entries `s` stand for.
pub open spec fn table_of<V>(s: Seq<(String, V)>) -> Map<Seq<char>, V> {
    Map::new(
        |k: Seq<char>| has_entry(s, k),
        |k: Seq<char>| s[choose|i: int| 0 <= i < s.len() && #[trigger] s[i].0@ == k].1,
    )
}

/// With distinct names, the entry at `i` is what the table holds under its
/// name.
proof fn lemma_entry_in_table<V>(s: Seq<(String, V)>, i: int)
    requires
        names_distinct(s),
        0 <= i < s.len(),
    ensures
        table_of(s).dom().contains(s[i].0@),
        table_of(s)[s[i].0@] == s[i].1,
{
    let k = s[i].0@;
    assert(has_entry(s, k));
    let j = choose|j: int| 0 <= j < s.len() && #[trigger] s[j].0@ == k;
    assert(s[j].0@ == s[i].0@);
}

/// Values kept under names, as a scene keeps the materials it declares:
/// registering a name again replaces the value it had.
pub struct Registry<V> {
    entries: Vec<(String, V)>,
}

impl<V> Registry<V> {
    #[verifier::type_invariant]
    spec fn names_unique(self) -> bool {
        names_distinct(self.entries@)
    }

    /// The names registered so far and the value each stands for.
    pub closed spec fn table(self) -> Map<Seq<char>, V> {
        table_of(self.entries@)
    }
}

impl<V> View for Registry<V> {
    type V = Map<Seq<char>, V>;

    open spec fn view(&self) -> Map<Seq<char>, V> {
        self.table()
    }
}

impl<V> Registry<V> {
    /// A registry with no names.
    pub fn new() -> (r: Registry<V>)
        ensures
            r@ == Map::<Seq<char>, V>::empty(),
    {
        let r = Registry { entries: Vec::new() };
        assert(r@ =~= Map::<Seq<char>, V>::empty());
        r
    }

    /// Where the entry named `name` stands, if there is one.
    fn position(&self, name: &str) -> (r: Option<usize>)
        ensures
            r matches Some(i) ==> i < self.entries@.len() && self.entries@[i as int].0@ == name@,
            r is None ==> !has_entry(self.entries@, name@),
    {
        let mut i: usize = 0;
        while i < self.entries.len()
            invariant
                i <= self.entries@.len(),
                forall|j: int| 0 <= j < i ==> (#[trigger] self.entries@[j]).0@ != name@,
            decreases self.entries@.len() - i,
        {
            if same_text(self.entries[i].0.as_str(), name) {
                return Some(i);
            }
            i = i + 1;
        }
        None
    }

    /// The value registered under `name`, if any.
    pub fn get(&self, name: &str) -> (r: Option<&V>)
        ensures
            r is Some <==> self@.dom().contains(name@),
            r matches Some(v) ==> *v == self@[name@],
    {
        proof {
            use_type_invariant(self);
        }
        match self.position(name) {
            Some(i) => {
                proof {
                    lemma_entry_in_table(self.entries@, i as int);
                }
                Some(&self.entries[i].1)
            },
            None => None,
        }
    }

    /// Registers `value` under `name`, replacing what the name stood for.
    pub fn insert(&mut self, name: String, value: V)
        ensures
            final(self)@ == old(self)@.insert(name@, value),
    {
        proof {
            use_type_invariant(&*self);
        }
        let ghost s = self.entries@;
        let ghost n = name@;
        let ghost e = (name, value);
        let found = self.position(name.as_str());
        let mut entries: Vec<(String, V)> = Vec::new();
        std::mem::swap(&mut entries, &mut self.entries);
        match found {
            Some(i) => {
                entries.set(i, (name, value));
                proof {
                    let t = entries@;
                    assert(t == s.update(i as int, e));
                    assert(names_distinct(t)) by {
                        assert forall|a: int, b: int|
                            0 <= a < t.len() && 0 <= b < t.len() && a != b implies #[trigger] t[a].0@
                            != #[trigger] t[b].0@ by {
                            assert(t[a].0@ == s[a].0@);
                            assert(t[b].0@ == s[b].0@);
                        }
                    }
                    lemma_replaced(s, i as int, e);
                }
            },
            None => {
                entries.push((name, value));
                proof {
                    assert(entries@ == s.push(e));
                    lemma_pushed(s, e);
                }
            },
        }
        self.entries = entries;
    }
}

/// Replacing the entry at `i` by one with the same name changes the table
/// at that name only.
proof fn lemma_replaced<V>(s: Seq<(String, V)>, i: int, e: (String, V))
    requires
        names_distinct(s),
        0 <= i < s.len(),
        s[i].0@ == e.0@,
        names_distinct(s.update(i, e)),
    ensures
        table_of(s.update(i, e)) == table_of(s).insert(e.0@, e.1),
{
    let t = s.update(i, e);
    assert forall|k: Seq<char>| has_entry(t, k) <==> has_entry(s, k) || k == e.0@ by {
        if has_entry(t, k) {
            let j = choose|j: int| 0 <= j < t.len() && #[trigger] t[j].0@ == k;
            assert(s[j].0@ == k);
        }
        if has_entry(s, k) {
            let j = choose|j: int| 0 <= j < s.len() && #[trigger] s[j].0@ == k;
            assert(t[j].0@ == k);
        }
        if k == e.0@ {
            assert(t[i].0@ == k);
        }
    }
    assert forall|k: Seq<char>| #[trigger] table_of(t).dom().contains(k) implies table_of(t)[k]
        == table_of(s).insert(e.0@, e.1)[k] by {
        let j = choose|j: int| 0 <= j < t.len() && #[trigger] t[j].0@ == k;
        lemma_entry_in_table(t, j);
        if j != i {
            assert(s[j] == t[j]);
            lemma_entry_in_table(s, j);
        }
    }
    assert(table_of(t) =~= table_of(s).insert(e.0@, e.1));
}

/// Appending an entry under a new name adds that name to the table.
proof fn lemma_pushed<V>(s: Seq<(String, V)>, e: (String, V))
    requires
        names_distinct(s),
        !has_entry(s, e.0@),
    ensures
        names_distinct(s.push(e)),
        table_of(s.push(e)) == table_of(s).insert(e.0@, e.1),
{
    let t = s.push(e);
    assert(names_distinct(t)) by {
        assert forall|a: int, b: int|
            0 <= a < t.len() && 0 <= b < t.len() && a != b implies #[trigger] t[a].0@ != #[trigger] t[b].0@ by {
            if a == s.len() {
                assert(t[b] == s[b]);
            } else if b == s.len() {
                assert(t[a] == s[a]);
            } else {
                assert(t[a] == s[a]);
                assert(t[b] == s[b]);
            }
        }
    }
    assert forall|k: Seq<char>| has_entry(t, k) <==> has_entry(s, k) || k == e.0@ by {
        if has_entry(t, k) {
            let j = choose|j: int| 0 <= j < t.len() && #[trigger] t[j].0@ == k;
            if j < s.len() {
                assert(s[j] == t[j]);
            }
        }
        if has_entry(s, k) {
            let j = choose|j: int| 0 <= j < s.len() && #[trigger] s[j].0@ == k;
            assert(t[j] == s[j]);
        }
        if k == e.0@ {
            assert(t[s.len() as int].0@ == k);
        }
    }
    assert forall|k: Seq<char>| #[trigger] table_of(t).dom().contains(k) implies table_of(t)[k]
        == table_of(s).insert(e.0@, e.1)[k] by {
        let j = choose|j: int| 0 <= j < t.len() && #[trigger] t[j].0@ == k;
        lemma_entry_in_table(t, j);
        if j < s.len() {
            assert(s[j] == t[j]);
            lemma_entry_in_table(s, j);
        }
    }
    assert(table_of(t) =~= table_of(s).insert(e.0@, e.1));
}

/// What a registry gives back for a name after `insert`: the value just
/// registered for that name, and for any other name what it gave before.
pub proof fn law_get_after_insert<V>(before: Map<Seq<char>, V>, name: Seq<char>, value: V, other: Seq<char>)
    ensures
        before.insert(name, value).dom().contains(name),
        before.insert(name, value)[name] == value,
        other != name ==> (before.insert(name, value).dom().contains(other) <==> before.dom().contains(other)),
        other != name && before.dom().contains(other) ==> before.insert(name, value)[other] == before[other],
{
}

} // verus!
