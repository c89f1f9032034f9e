//! A map from names to values that keeps its entries sorted by name, with
//! every name present at most once: the ordered map in which the local
//! configuration stores its networks and tunnels.
use vstd::prelude::*;
use vstd::set_lib::{lemma_len_subset, lemma_map_size, set_int_range, lemma_int_range};
use crate::text::{decimal, push_decimal, push_str, lemma_decimal_injective, seq_lt, lemma_seq_lt_irreflexive, lemma_seq_lt_total, lemma_seq_lt_transitive, str_less};

verus! {

/// The names of a sequence of entries, in order.
pub open spec fn entry_names<V>(s: Seq<(Seq<char>, V)>) -> Seq<Seq<char>> {
    s.map_values(|e: (Seq<char>, V)| e.0)
}

/// Entries strictly increasing by name (hence no name twice).
pub open spec fn sorted_by_name<V>(s: Seq<(Seq<char>, V)>) -> bool {
    forall|i: int, j: int| 0 <= i < j < s.len() ==> #[trigger] seq_lt(s[i].0, s[j].0)
}

/// Whether some entry carries `k`.
pub open spec fn has_name<V>(s: Seq<(Seq<char>, V)>, k: Seq<char>) -> bool {
    exists|i: int| 0 <= i < s.len() && #[trigger] s[i].0 == k
}

/// A position that carries `k`, if some entry does.
pub open spec fn index_of_name<V>(s: Seq<(Seq<char>, V)>, k: Seq<char>) -> int {
    choose|i: int| 0 <= i < s.len() && #[trigger] s[i].0 == k
}

/// The map that a sequence of entries with distinct names stands for.
pub open spec fn entries_map<V>(s: Seq<(Seq<char>, V)>) -> Map<Seq<char>, V> {
    Map::new(|k: Seq<char>| has_name(s, k), |k: Seq<char>| s[index_of_name(s, k)].1)
}

pub proof fn lemma_sorted_distinct<V>(s: Seq<(Seq<char>, V)>, i: int, j: int)
    requires
        sorted_by_name(s),
        0 <= i < s.len(),
        0 <= j < s.len(),
        s[i].0 == s[j].0,
    ensures
        i == j,
{
    if i < j {
        assert(seq_lt(s[i].0, s[j].0));
        lemma_seq_lt_irreflexive(s[i].0);
    } else if j < i {
        assert(seq_lt(s[j].0, s[i].0));
        lemma_seq_lt_irreflexive(s[i].0);
    }
}

/// In a sorted sequence, the map holds each entry's value under its name.
pub proof fn lemma_entries_map_at<V>(s: Seq<(Seq<char>, V)>, i: int)
    requires
        sorted_by_name(s),
        0 <= i < s.len(),
    ensures
        entries_map(s).dom().contains(s[i].0),
        entries_map(s)[s[i].0] == s[i].1,
{
    let k = s[i].0;
    assert(has_name(s, k));
    assert(entries_map(s).dom().contains(k));
    let j = index_of_name(s, k);
    lemma_sorted_distinct(s, i, j);
    assert(entries_map(s)[k] == s[j].1);
}

/// The (name, value) pairs of stored entries.
pub open spec fn view_entries<V>(e: Seq<(String, V)>) -> Seq<(Seq<char>, V)> {
    e.map_values(|x: (String, V)| (x.0@, x.1))
}

/// Replacing the value of one entry replaces it in the map and keeps the order.
pub proof fn lemma_entries_update_value<V>(e: Seq<(String, V)>, i: int)
    requires
        sorted_by_name(view_entries(e)),
        0 <= i < e.len(),
    ensures
        forall|w: V|
            {
                let t = #[trigger] view_entries(e.update(i, (e[i].0, w)));
                &&& sorted_by_name(t)
                &&& entries_map(t) == entries_map(view_entries(e)).insert(
                    e[i].0@,
                    w,
                )
            },
{
    let s = view_entries(e);
    assert forall|w: V|
        {
            let t = #[trigger] view_entries(e.update(i, (e[i].0, w)));
            &&& sorted_by_name(t)
            &&& entries_map(t) == entries_map(s).insert(e[i].0@, w)
        } by {
        let t = view_entries(e.update(i, (e[i].0, w)));
        assert(t =~= s.update(i, (s[i].0, w)));
        assert(sorted_by_name(t)) by {
            assert forall|a: int, b: int| 0 <= a < b < t.len() implies #[trigger] seq_lt(
                t[a].0,
                t[b].0,
            ) by {
                assert(t[a].0 == s[a].0);
                assert(t[b].0 == s[b].0);
            }
        }
        assert forall|key: Seq<char>| #[trigger] entries_map(t).dom().contains(key) == entries_map(
            s,
        ).insert(s[i].0, w).dom().contains(key) by {
            if has_name(t, key) {
                let j = choose|j: int| 0 <= j < t.len() && #[trigger] t[j].0 == key;
                assert(s[j].0 == key);
            }
            if has_name(s, key) {
                let j = choose|j: int| 0 <= j < s.len() && #[trigger] s[j].0 == key;
                assert(t[j].0 == key);
            }
            if key == s[i].0 {
                assert(t[i].0 == key);
            }
        }
        assert forall|key: Seq<char>| #[trigger] entries_map(t).dom().contains(key) implies entries_map(
            t,
        )[key] == entries_map(s).insert(s[i].0, w)[key] by {
            let j = choose|j: int| 0 <= j < t.len() && #[trigger] t[j].0 == key;
            lemma_entries_map_at(t, j);
            if j != i {
                lemma_entries_map_at(s, j);
                assert(t[i].0 == s[i].0);
                if key == s[i].0 {
                    lemma_sorted_distinct(t, i, j);
                }
            } else {
                assert(t[i].1 == w);
            }
        }
        assert(entries_map(t) =~= entries_map(s).insert(s[i].0, w));
    }
}

pub proof fn lemma_entries_map_dom<V>(s: Seq<(Seq<char>, V)>)
    requires
        sorted_by_name(s),
    ensures
        entries_map(s).dom() =~= entry_names(s).to_set(),
        entries_map(s).dom().finite(),
        entries_map(s).dom().len() == s.len(),
{
    let names = entry_names(s);
    assert forall|k: Seq<char>| entries_map(s).dom().contains(k) implies names.to_set().contains(
        k,
    ) by {
        let i = choose|i: int| 0 <= i < s.len() && #[trigger] s[i].0 == k;
        assert(names[i] == k);
    }
    assert forall|k: Seq<char>| names.to_set().contains(k) implies entries_map(s).dom().contains(
        k,
    ) by {
        let i = choose|i: int| 0 <= i < names.len() && names[i] == k;
        assert(s[i].0 == k);
    }
    assert forall|i: int, j: int|
        0 <= i < names.len() && 0 <= j < names.len() && i != j implies names[i] != names[j] by {
        if names[i] == names[j] {
            lemma_sorted_distinct(s, i, j);
        }
    }
    assert(names.no_duplicates());
    names.unique_seq_to_set();
}

/// The name made of `base` followed by the decimal digits of `i`.
pub open spec fn numbered_name(base: Seq<char>, i: nat) -> Seq<char> {
    base + decimal(i)
}

pub proof fn lemma_numbered_name_injective(base: Seq<char>, i: nat, j: nat)
    requires
        numbered_name(base, i) == numbered_name(base, j),
    ensures
        i == j,
{
    let a = numbered_name(base, i);
    let b = numbered_name(base, j);
    assert(a.skip(base.len() as int) =~= decimal(i));
    assert(b.skip(base.len() as int) =~= decimal(j));
    lemma_decimal_injective(i, j);
}

/// The index of the first of `base0`, `base1`, ... that `taken` lacks.
pub open spec fn first_free_index(taken: Set<Seq<char>>, base: Seq<char>) -> nat {
    choose|i: nat|
        !taken.contains(numbered_name(base, i)) && forall|j: nat|
            j < i ==> taken.contains(#[trigger] numbered_name(base, j))
}

/// The first of `base0`, `base1`, ... that `taken` lacks.
pub open spec fn first_free_name(taken: Set<Seq<char>>, base: Seq<char>) -> Seq<char> {
    numbered_name(base, first_free_index(taken, base))
}

/// An index whose name is free while all before it are taken is the first
/// free one.
pub proof fn lemma_first_free_index(taken: Set<Seq<char>>, base: Seq<char>, i: nat)
    requires
        !taken.contains(numbered_name(base, i)),
        forall|j: nat| j < i ==> taken.contains(#[trigger] numbered_name(base, j)),
    ensures
        first_free_index(taken, base) == i,
        first_free_name(taken, base) == numbered_name(base, i),
{
    assert(exists|x: nat|
        !taken.contains(numbered_name(base, x)) && forall|j: nat|
            j < x ==> taken.contains(#[trigger] numbered_name(base, j)));
    let k = first_free_index(taken, base);
    if k < i {
        assert(taken.contains(numbered_name(base, k)));
    } else if i < k {
        assert(taken.contains(numbered_name(base, i)));
    }
}

/// A set of `n` names cannot hold all of `base0` .. `base{n}`.
pub proof fn lemma_free_numbered_name(taken: Set<Seq<char>>, base: Seq<char>, n: nat)
    requires
        taken.finite(),
        taken.len() == n,
    ensures
        exists|i: nat| i <= n && !taken.contains(#[trigger] numbered_name(base, i)),
{
    if forall|i: nat| i <= n ==> taken.contains(#[trigger] numbered_name(base, i)) {
        let ints = set_int_range(0, n as int + 1);
        let f = |i: int| numbered_name(base, i as nat);
        lemma_int_range(0, n as int + 1);
        assert forall|a: int, b: int|
            ints.contains(a) && ints.contains(b) && #[trigger] f(a) == #[trigger] f(b) implies a
            == b by {
            lemma_numbered_name_injective(base, a as nat, b as nat);
        }
        let names = ints.map(f);
        lemma_map_size(ints, names, f);
        assert forall|x: Seq<char>| names.contains(x) implies taken.contains(x) by {
            let a = choose|a: int| ints.contains(a) && f(a) == x;
            assert(taken.contains(numbered_name(base, a as nat)));
        }
        lemma_len_subset(names, taken);
        assert(false);
    }
}

/// Facts about the map of a sorted sequence of entries.
pub proof fn lemma_sorted_facts<V>(s: Seq<(Seq<char>, V)>)
    requires
        sorted_by_name(s),
    ensures
        entries_map(s).dom().finite(),
        entries_map(s).dom().len() == s.len(),
        forall|i: int|
            0 <= i < s.len() ==> #[trigger] entries_map(s).dom().contains(s[i].0) && entries_map(
                s,
            )[s[i].0] == s[i].1,
{
    lemma_entries_map_dom(s);
    assert forall|i: int| 0 <= i < s.len() implies #[trigger] entries_map(s).dom().contains(
        s[i].0,
    ) && entries_map(s)[s[i].0] == s[i].1 by {
        lemma_entries_map_at(s, i);
    }
}

/// A map from names to values, kept sorted by name.
pub struct NameMap<V> {
    entries: Vec<(String, V)>,
}

impl<V> NameMap<V> {
    /// The entries as (name, value) pairs, in ascending order of name.
    pub closed spec fn entries_view(&self) -> Seq<(Seq<char>, V)> {
        view_entries(self.entries@)
    }

    /// The map that the entries stand for.
    pub open spec fn map(&self) -> Map<Seq<char>, V> {
        entries_map(self.entries_view())
    }

    /// Number of entries.
    pub open spec fn spec_len(&self) -> nat {
        self.entries_view().len()
    }

    /// The entries are strictly increasing by name.
    pub closed spec fn well_formed(&self) -> bool {
        sorted_by_name(self.entries_view())
    }

    /// What a well-formed map holds: its entries are sorted by name and
    /// the map has exactly them.
    pub proof fn lemma_well_formed(&self)
        requires
            self.well_formed(),
        ensures
            sorted_by_name(self.entries_view()),
            self.map() == entries_map(self.entries_view()),
            self.map().dom().finite(),
            self.map().dom().len() == self.spec_len(),
            forall|i: int|
                0 <= i < self.spec_len() ==> #[trigger] self.map().dom().contains(
                    self.entries_view()[i].0,
                ) && self.map()[self.entries_view()[i].0] == self.entries_view()[i].1,
            forall|k: Seq<char>|
                #[trigger] self.map().dom().contains(k) ==> exists|i: int|
                    0 <= i < self.spec_len() && #[trigger] self.entries_view()[i].0 == k,
    {
        let s = self.entries_view();
        lemma_entries_map_dom(s);
        assert forall|i: int| 0 <= i < self.spec_len() implies #[trigger] self.map().dom().contains(
            s[i].0,
        ) && self.map()[s[i].0] == s[i].1 by {
            lemma_entries_map_at(s, i);
        }
    }

    /// An empty map.
    pub fn new() -> (m: Self)
        ensures
            m.well_formed(),
            m.entries_view() == Seq::<(Seq<char>, V)>::empty(),
            m.map() == Map::<Seq<char>, V>::empty(),
    {
        let m = NameMap { entries: Vec::new() };
        assert(m.entries_view() =~= Seq::<(Seq<char>, V)>::empty());
        assert(m.map() =~= Map::<Seq<char>, V>::empty());
        m
    }

    /// Number of entries.
    pub fn len(&self) -> (n: usize)
        requires
            self.well_formed(),
        ensures
            n == self.spec_len(),
            n == self.map().dom().len(),
            self.map().dom().finite(),
    {
        proof {
            lemma_sorted_facts(self.entries_view());
        }
        self.entries.len()
    }

    /// The position of `name`, if present.
    pub fn find(&self, name: &str) -> (r: Option<usize>)
        requires
            self.well_formed(),
        ensures
            match r {
                Some(i) => i < self.spec_len() && self.entries_view()[i as int].0 == name@,
                None => !self.map().dom().contains(name@),
            },
    {
        let n = self.entries.len();
        let mut i: usize = 0;
        while i < n
            invariant
                n == self.entries@.len(),
                i <= n,
                forall|j: int| 0 <= j < i ==> self.entries_view()[j].0 != name@,
            decreases n - i,
        {
            if str_equal(self.entries[i].0.as_str(), name) {
                return Some(i);
            }
            i = i + 1;
        }
        None
    }

    /// Whether `name` is present.
    pub fn contains(&self, name: &str) -> (b: bool)
        requires
            self.well_formed(),
        ensures
            b == self.map().dom().contains(name@),
    {
        proof {
            lemma_sorted_facts(self.entries_view());
        }
        match self.find(name) {
            Some(i) => {
                proof {
                    assert(self.map().dom().contains(self.entries_view()[i as int].0));
                }
                true
            },
            None => false,
        }
    }

    /// The entry at position `i`.
    pub fn entry_at(&self, i: usize) -> (r: (&String, &V))
        requires
            i < self.spec_len(),
        ensures
            r.0@ == self.entries_view()[i as int].0,
            *r.1 == self.entries_view()[i as int].1,
    {
        let e = &self.entries[i];
        (&e.0, &e.1)
    }

    /// The entry named `name`, if present.
    pub fn get_key_value(&self, name: &str) -> (r: Option<(&String, &V)>)
        requires
            self.well_formed(),
        ensures
            match r {
                Some(kv) => self.map().dom().contains(name@) && kv.0@ == name@ && *kv.1
                    == self.map()[name@],
                None => !self.map().dom().contains(name@),
            },
    {
        proof {
            lemma_sorted_facts(self.entries_view());
        }
        match self.find(name) {
            Some(i) => {
                let e = &self.entries[i];
                proof {
                    assert(self.map().dom().contains(self.entries_view()[i as int].0));
                }
                Some((&e.0, &e.1))
            },
            None => None,
        }
    }

    /// The entry with the smallest name, if any.
    pub fn first_key_value(&self) -> (r: Option<(&String, &V)>)
        ensures
            match r {
                Some(kv) => self.spec_len() > 0 && kv.0@ == self.entries_view()[0].0 && *kv.1
                    == self.entries_view()[0].1,
                None => self.spec_len() == 0,
            },
    {
        if self.entries.len() == 0 {
            None
        } else {
            let e = &self.entries[0];
            Some((&e.0, &e.1))
        }
    }

    /// Inserts `value` under `name`, which must not be present yet.
    pub fn insert_new(&mut self, name: String, value: V)
        requires
            old(self).well_formed(),
            !old(self).map().dom().contains(name@),
        ensures
            final(self).well_formed(),
            final(self).map() == old(self).map().insert(name@, value),
            final(self).spec_len() == old(self).spec_len() + 1,
    {
        let ghost s = self.entries_view();
        let ghost k = name@;
        let n = self.entries.len();
        let mut p: usize = 0;
        while p < n && str_less(self.entries[p].0.as_str(), name.as_str())
            invariant
                n == self.entries@.len(),
                s == self.entries_view(),
                k == name@,
                p <= n,
                forall|j: int| 0 <= j < p ==> seq_lt(#[trigger] s[j].0, k),
            decreases n - p,
        {
            p = p + 1;
        }
        proof {
            // every entry from `p` on sorts after `name`
            assert forall|j: int| p <= j < s.len() implies seq_lt(k, #[trigger] s[j].0) by {
                assert(!seq_lt(s[p as int].0, k));
                if s[p as int].0 == k {
                    assert(has_name(s, k));
                }
                lemma_seq_lt_total(s[p as int].0, k);
                if j > p {
                    assert(seq_lt(s[p as int].0, s[j].0));
                    lemma_seq_lt_transitive(k, s[p as int].0, s[j].0);
                }
            }
        }
        self.entries.insert(p, (name, value));
        proof {
            let t = self.entries_view();
            assert(t =~= s.insert(p as int, (k, value)));
            assert forall|i: int, j: int| 0 <= i < j < t.len() implies #[trigger] seq_lt(
                t[i].0,
                t[j].0,
            ) by {
                if j < p {
                } else if j == p {
                    assert(t[i] == s[i]);
                } else if i < p {
                    assert(t[j] == s[j - 1]);
                    assert(seq_lt(s[i].0, k));
                    assert(seq_lt(k, s[j - 1].0));
                    lemma_seq_lt_transitive(s[i].0, k, s[j - 1].0);
                } else if i == p {
                    assert(t[j] == s[j - 1]);
                } else {
                    assert(t[i] == s[i - 1]);
                    assert(t[j] == s[j - 1]);
                }
            }
            lemma_entries_map_dom(s);
            lemma_entries_map_dom(t);
            assert forall|key: Seq<char>| #[trigger] entries_map(t).dom().contains(key) == entries_map(
                s,
            ).insert(k, value).dom().contains(key) by {
                if has_name(t, key) {
                    let i = choose|i: int| 0 <= i < t.len() && #[trigger] t[i].0 == key;
                    if i < p {
                        assert(s[i].0 == key);
                    } else if i > p {
                        assert(s[i - 1].0 == key);
                    }
                }
                if has_name(s, key) {
                    let i = choose|i: int| 0 <= i < s.len() && #[trigger] s[i].0 == key;
                    if i < p {
                        assert(t[i].0 == key);
                    } else {
                        assert(t[i + 1].0 == key);
                    }
                }
                if key == k {
                    assert(t[p as int].0 == key);
                }
            }
            assert forall|key: Seq<char>| #[trigger] entries_map(t).dom().contains(key) implies entries_map(
                t,
            )[key] == entries_map(s).insert(k, value)[key] by {
                let i = choose|i: int| 0 <= i < t.len() && #[trigger] t[i].0 == key;
                lemma_entries_map_at(t, i);
                if i < p {
                    lemma_entries_map_at(s, i);
                } else if i > p {
                    lemma_entries_map_at(s, i - 1);
                }
            }
            assert(entries_map(t) =~= entries_map(s).insert(k, value));
        }
    }

    /// Removes the entry at position `i`, handing back its name and value.
    pub fn remove_at(&mut self, i: usize) -> (r: (String, V))
        requires
            old(self).well_formed(),
            i < old(self).spec_len(),
        ensures
            final(self).well_formed(),
            r.0@ == old(self).entries_view()[i as int].0,
            r.1 == old(self).entries_view()[i as int].1,
            final(self).map() == old(self).map().remove(r.0@),
            final(self).spec_len() + 1 == old(self).spec_len(),
    {
        let ghost s = self.entries_view();
        let r = self.entries.remove(i);
        proof {
            let t = self.entries_view();
            let k = s[i as int].0;
            assert(t =~= s.remove(i as int));
            assert forall|a: int, b: int| 0 <= a < b < t.len() implies #[trigger] seq_lt(
                t[a].0,
                t[b].0,
            ) by {
                if b < i {
                } else if a < i {
                    assert(t[b] == s[b + 1]);
                } else {
                    assert(t[a] == s[a + 1]);
                    assert(t[b] == s[b + 1]);
                }
            }
            assert forall|key: Seq<char>| #[trigger] entries_map(t).dom().contains(key) == entries_map(
                s,
            ).remove(k).dom().contains(key) by {
                if has_name(t, key) {
                    let j = choose|j: int| 0 <= j < t.len() && #[trigger] t[j].0 == key;
                    let js = if j < i {
                        j
                    } else {
                        j + 1
                    };
                    assert(s[js].0 == key);
                    if key == k {
                        lemma_sorted_distinct(s, js, i as int);
                    }
                }
                if has_name(s, key) && key != k {
                    let j = choose|j: int| 0 <= j < s.len() && #[trigger] s[j].0 == key;
                    if j < i {
                        assert(t[j].0 == key);
                    } else {
                        assert(t[j - 1].0 == key);
                    }
                }
            }
            assert forall|key: Seq<char>| #[trigger] entries_map(t).dom().contains(key) implies entries_map(
                t,
            )[key] == entries_map(s).remove(k)[key] by {
                let j = choose|j: int| 0 <= j < t.len() && #[trigger] t[j].0 == key;
                lemma_entries_map_at(t, j);
                if j < i {
                    lemma_entries_map_at(s, j);
                } else {
                    lemma_entries_map_at(s, j + 1);
                }
            }
            assert(entries_map(t) =~= entries_map(s).remove(k));
        }
        r
    }

    /// The first of `base0`, `base1`, ... that is not a name of the map.
    pub fn first_free_numbered_name(&self, base: &str) -> (r: String)
        requires
            self.well_formed(),
        ensures
            !self.map().dom().contains(r@),
            exists|i: nat|
                r@ == numbered_name(base@, i) && forall|j: nat|
                    j < i ==> self.map().dom().contains(#[trigger] numbered_name(base@, j)),
            r@ == first_free_name(self.map().dom(), base@),
    {
        let n = self.len();
        proof {
            lemma_free_numbered_name(self.map().dom(), base@, n as nat);
        }
        let mut i: u64 = 0;
        loop
            invariant
                self.well_formed(),
                n == self.map().dom().len(),
                i <= n,
                forall|j: nat| j < i ==> self.map().dom().contains(#[trigger] numbered_name(base@, j)),
                exists|k: nat| k <= n && !self.map().dom().contains(#[trigger] numbered_name(base@, k)),
            decreases n - i,
        {
            let mut candidate = String::new();
            push_str(&mut candidate, base);
            push_decimal(&mut candidate, i);
            assert(candidate@ == numbered_name(base@, i as nat));
            if !self.contains(candidate.as_str()) {
                proof {
                    lemma_first_free_index(self.map().dom(), base@, i as nat);
                }
                return candidate;
            }
            proof {
                if i as nat == n as nat {
                    let k = choose|k: nat| k <= n && !self.map().dom().contains(#[trigger] numbered_name(base@, k));
                    if k < i {
                        assert(self.map().dom().contains(numbered_name(base@, k)));
                    }
                    assert(false);
                }
            }
            i = i + 1;
        }
    }

    /// A mutable reference to the value named `name`, if present.
    pub fn get_mut(&mut self, name: &str) -> (r: Option<&mut V>)
        requires
            old(self).well_formed(),
        ensures
            final(self).well_formed(),
            match r {
                Some(v) => old(self).map().dom().contains(name@) && *v == old(self).map()[name@]
                    && final(self).map() == old(self).map().insert(name@, *final(v)),
                None => !old(self).map().dom().contains(name@) && *final(self) == *old(self),
            },
    {
        match self.find(name) {
            Some(i) => {
                proof {
                    lemma_entries_map_at(self.entries_view(), i as int);
                    lemma_entries_update_value(self.entries@, i as int);
                    assert(self.entries_view()[i as int].1 == self.entries@[i as int].1);
                }
                Some(&mut self.entries[i].1)
            },
            None => None,
        }
    }
}

/// Whether two string slices hold the same characters.
pub fn str_equal(a: &str, b: &str) -> (r: bool)
    ensures
        r == (a@ == b@),
{
    let la = a.unicode_len();
    let lb = b.unicode_len();
    if la != lb {
        return false;
    }
    let mut i: usize = 0;
    while i < la
        invariant
            la == a@.len(),
            lb == b@.len(),
            la == lb,
            i <= la,
            forall|j: int| 0 <= j < i ==> a@[j] == b@[j],
        decreases la - i,
    {
        if a.get_char(i) != b.get_char(i) {
            return false;
        }
        i = i + 1;
    }
    assert(a@ =~= b@);
    true
}

} // verus!
