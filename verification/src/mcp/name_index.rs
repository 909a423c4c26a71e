//! Values kept under distinct names, listed in the order of their names.
//!
//! Names are ordered character by character by code point, which is the order
//! in which `String`'s `Ord` places them (UTF-8 keeps code point order).

use vstd::prelude::*;

use crate::text::chars_of;

verus! {

/// `a` comes strictly before `b`.
pub open spec fn name_lt(a: Seq<char>, b: Seq<char>) -> bool
    decreases a.len(),
{
    if a.len() == 0 {
        b.len() > 0
    } else if b.len() == 0 {
        false
    } else if a[0] != b[0] {
        a[0] < b[0]
    } else {
        name_lt(a.drop_first(), b.drop_first())
    }
}

pub proof fn lemma_name_lt_irreflexive(a: Seq<char>)
    ensures
        !name_lt(a, a),
    decreases a.len(),
{
    if a.len() > 0 {
        lemma_name_lt_irreflexive(a.drop_first());
    }
}

pub proof fn lemma_name_lt_transitive(a: Seq<char>, b: Seq<char>, c: Seq<char>)
    requires
        name_lt(a, b),
        name_lt(b, c),
    ensures
        name_lt(a, c),
    decreases a.len(),
{
    if a.len() > 0 && b.len() > 0 && c.len() > 0 && a[0] == b[0] && b[0] == c[0] {
        lemma_name_lt_transitive(a.drop_first(), b.drop_first(), c.drop_first());
    }
}

pub proof fn lemma_name_lt_total(a: Seq<char>, b: Seq<char>)
    ensures
        a == b || name_lt(a, b) || name_lt(b, a),
        !(name_lt(a, b) && name_lt(b, a)),
    decreases a.len(),
{
    if a.len() > 0 && b.len() > 0 && a[0] == b[0] {
        lemma_name_lt_total(a.drop_first(), b.drop_first());
        if a.drop_first() == b.drop_first() {
            assert(a =~= seq![a[0]] + a.drop_first());
            assert(b =~= seq![b[0]] + b.drop_first());
        }
    } else if a.len() == 0 && b.len() == 0 {
        assert(a =~= b);
    } else if a.len() > 0 && b.len() > 0 {
    }
}

/// The result of comparing two names.
pub enum NameOrder {
    Less,
    Equal,
    Greater,
}

/// Compares two names character by character.
pub fn compare_names(a: &Vec<char>, b: &Vec<char>) -> (r: NameOrder)
    ensures
        r is Less <==> name_lt(a@, b@),
        r is Equal <==> a@ == b@,
        r is Greater <==> name_lt(b@, a@),
{
    proof {
        lemma_name_lt_total(a@, b@);
        lemma_name_lt_irreflexive(a@);
    }
    let mut i: usize = 0;
    assert(a@.subrange(0, a@.len() as int) =~= a@);
    assert(b@.subrange(0, b@.len() as int) =~= b@);
    while i < a.len() && i < b.len()
        invariant
            i <= a.len(),
            i <= b.len(),
            forall|k: int| 0 <= k < i ==> a@[k] == b@[k],
            name_lt(a@, b@) == name_lt(
                a@.subrange(i as int, a@.len() as int),
                b@.subrange(i as int, b@.len() as int),
            ),
            name_lt(b@, a@) == name_lt(
                b@.subrange(i as int, b@.len() as int),
                a@.subrange(i as int, a@.len() as int),
            ),
        decreases a.len() - i,
    {
        let x = a[i];
        let y = b[i];
        if x != y {
            if x < y {
                return NameOrder::Less;
            } else {
                return NameOrder::Greater;
            }
        }
        proof {
            let sa = a@.subrange(i as int, a@.len() as int);
            let sb = b@.subrange(i as int, b@.len() as int);
            assert(sa.drop_first() =~= a@.subrange(i + 1, a@.len() as int));
            assert(sb.drop_first() =~= b@.subrange(i + 1, b@.len() as int));
        }
        i = i + 1;
    }
    if a.len() == b.len() {
        assert(a@ =~= b@);
        NameOrder::Equal
    } else if i == a.len() {
        assert(a@.subrange(i as int, a@.len() as int).len() == 0);
        NameOrder::Less
    } else {
        assert(b@.subrange(i as int, b@.len() as int).len() == 0);
        NameOrder::Greater
    }
}

/// Whether `a` comes strictly before `b`.
pub fn name_before(a: &Vec<char>, b: &Vec<char>) -> (r: bool)
    ensures
        r == name_lt(a@, b@),
{
    match compare_names(a, b) {
        NameOrder::Less => true,
        _ => false,
    }
}

/// Names strictly increase along `s`.
pub open spec fn sorted_by_name<V>(s: Seq<(Seq<char>, V)>) -> bool {
    forall|i: int, j: int| 0 <= i < j < s.len() ==> name_lt(#[trigger] s[i].0, #[trigger] s[j].0)
}

/// `s` holds an entry named `name`.
pub open spec fn has_name<V>(s: Seq<(Seq<char>, V)>, name: Seq<char>) -> bool {
    exists|i: int| 0 <= i < s.len() && #[trigger] s[i].0 == name
}

/// What `s` holds under each name.
pub open spec fn entries_map<V>(s: Seq<(Seq<char>, V)>) -> Map<Seq<char>, V> {
    Map::new(
        |name: Seq<char>| has_name(s, name),
        |name: Seq<char>| s[choose|i: int| 0 <= i < s.len() && #[trigger] s[i].0 == name].1,
    )
}

/// The values of entries `offset .. offset + per_page` of `s`, or fewer where
/// `s` ends first.
pub open spec fn page_of<V>(s: Seq<(Seq<char>, V)>, offset: int, per_page: int) -> Seq<V> {
    let from = if offset < s.len() { offset } else { s.len() as int };
    let to = if offset + per_page < s.len() { offset + per_page } else { s.len() as int };
    s.subrange(from, to).map_values(|e: (Seq<char>, V)| e.1)
}

/// A page and the page right after it hold, in order, what one page of both
/// sizes together holds: following the listing page by page skips and repeats
/// nothing.
pub proof fn law_pages_concatenate<V>(
    s: Seq<(Seq<char>, V)>,
    offset: int,
    first: int,
    second: int,
)
    requires
        0 <= offset,
        0 <= first,
        0 <= second,
    ensures
        page_of(s, offset, first) + page_of(s, offset + first, second) == page_of(
            s,
            offset,
            first + second,
        ),
{
    let a = page_of(s, offset, first);
    let b = page_of(s, offset + first, second);
    let c = page_of(s, offset, first + second);
    assert(a + b =~= c);
}

/// A sorted sequence holds as many names as it has entries.
pub proof fn lemma_entries_map_len<V>(s: Seq<(Seq<char>, V)>)
    requires
        sorted_by_name(s),
    ensures
        entries_map(s).dom().finite(),
        entries_map(s).dom().len() == s.len(),
    decreases s.len(),
{
    if s.len() == 0 {
        assert(entries_map(s).dom() =~= Set::<Seq<char>>::empty());
    } else {
        let t = s.drop_last();
        let last = s.last().0;
        assert(sorted_by_name(t)) by {
            assert forall|a: int, b: int| 0 <= a < b < t.len() implies name_lt(
                #[trigger] t[a].0,
                #[trigger] t[b].0,
            ) by {
                assert(t[a] == s[a] && t[b] == s[b]);
            }
        }
        lemma_entries_map_len(t);
        assert(entries_map(s).dom() =~= entries_map(t).dom().insert(last)) by {
            assert forall|n: Seq<char>| #[trigger] entries_map(s).dom().contains(n) implies entries_map(
                t,
            ).dom().insert(last).contains(n) by {
                let i = choose|k: int| 0 <= k < s.len() && #[trigger] s[k].0 == n;
                if i < s.len() - 1 {
                    assert(t[i].0 == n);
                }
            }
            assert forall|n: Seq<char>| #[trigger] entries_map(t).dom().insert(last).contains(
                n,
            ) implies entries_map(s).dom().contains(n) by {
                if n == last {
                    assert(s[s.len() - 1].0 == n);
                } else {
                    let i = choose|k: int| 0 <= k < t.len() && #[trigger] t[k].0 == n;
                    assert(s[i].0 == n);
                }
            }
        }
        if entries_map(t).dom().contains(last) {
            let i = choose|k: int| 0 <= k < t.len() && #[trigger] t[k].0 == last;
            assert(s[i].0 == last);
            lemma_sorted_unique_index(s, i, s.len() - 1);
        }
    }
}

/// In a sorted sequence, an entry with a name is that name's only entry.
pub proof fn lemma_sorted_unique_index<V>(s: Seq<(Seq<char>, V)>, i: int, j: int)
    requires
        sorted_by_name(s),
        0 <= i < s.len(),
        0 <= j < s.len(),
        s[i].0 == s[j].0,
    ensures
        i == j,
{
    if i < j {
        lemma_name_lt_irreflexive(s[i].0);
        assert(name_lt(s[i].0, s[j].0));
    } else if j < i {
        lemma_name_lt_irreflexive(s[i].0);
        assert(name_lt(s[j].0, s[i].0));
    }
}

/// In a sorted sequence, the value under a name is that of its entry.
pub proof fn lemma_entries_map_at<V>(s: Seq<(Seq<char>, V)>, i: int)
    requires
        sorted_by_name(s),
        0 <= i < s.len(),
    ensures
        entries_map(s).contains_key(s[i].0),
        entries_map(s)[s[i].0] == s[i].1,
{
    assert(has_name(s, s[i].0));
    let c = choose|k: int| 0 <= k < s.len() && #[trigger] s[k].0 == s[i].0;
    lemma_sorted_unique_index(s, c, i);
}

/// Sorted sequences that hold the same values under the same names are equal:
/// the order of a listing follows from what is held.
pub proof fn lemma_sorted_determined_by_map<V>(s: Seq<(Seq<char>, V)>, t: Seq<(Seq<char>, V)>)
    requires
        sorted_by_name(s),
        sorted_by_name(t),
        entries_map(s) == entries_map(t),
    ensures
        s == t,
    decreases s.len(),
{
    if s.len() == 0 {
        if t.len() > 0 {
            lemma_entries_map_at(t, 0);
            assert(entries_map(s).contains_key(t[0].0));
        }
        assert(s =~= t);
    } else if t.len() == 0 {
        lemma_entries_map_at(s, 0);
        assert(entries_map(t).contains_key(s[0].0));
    } else {
        lemma_entries_map_at(s, 0);
        lemma_entries_map_at(t, 0);
        assert(has_name(t, s[0].0));
        let j = choose|k: int| 0 <= k < t.len() && #[trigger] t[k].0 == s[0].0;
        assert(has_name(s, t[0].0));
        let i = choose|k: int| 0 <= k < s.len() && #[trigger] s[k].0 == t[0].0;
        if j > 0 {
            assert(name_lt(t[0].0, t[j].0));
            if i > 0 {
                assert(name_lt(s[0].0, s[i].0));
                lemma_name_lt_total(s[0].0, t[0].0);
            } else {
                lemma_name_lt_irreflexive(t[0].0);
            }
        }
        assert(j == 0);
        assert(s[0].0 == t[0].0);
        assert(s[0].1 == t[0].1);
        let s1 = s.drop_first();
        let t1 = t.drop_first();
        assert(sorted_by_name(s1)) by {
            assert forall|a: int, b: int| 0 <= a < b < s1.len() implies name_lt(
                #[trigger] s1[a].0,
                #[trigger] s1[b].0,
            ) by {
                assert(s1[a] == s[a + 1] && s1[b] == s[b + 1]);
            }
        }
        assert(sorted_by_name(t1)) by {
            assert forall|a: int, b: int| 0 <= a < b < t1.len() implies name_lt(
                #[trigger] t1[a].0,
                #[trigger] t1[b].0,
            ) by {
                assert(t1[a] == t[a + 1] && t1[b] == t[b + 1]);
            }
        }
        assert(entries_map(s1) =~= entries_map(t1)) by {
            assert forall|name: Seq<char>| #[trigger]
                entries_map(s1).contains_key(name) implies entries_map(t1).contains_key(name)
                && entries_map(s1)[name] == entries_map(t1)[name] by {
                let a = choose|k: int| 0 <= k < s1.len() && #[trigger] s1[k].0 == name;
                assert(s[a + 1].0 == name);
                lemma_entries_map_at(s, a + 1);
                let b = choose|k: int| 0 <= k < t.len() && #[trigger] t[k].0 == name;
                assert(has_name(t, name));
                if b == 0 {
                    assert(name_lt(s[0].0, s[a + 1].0));
                    lemma_name_lt_irreflexive(name);
                }
                assert(t1[b - 1].0 == name);
                lemma_entries_map_at(t, b);
                lemma_entries_map_at(s1, a);
                lemma_entries_map_at(t1, b - 1);
            }
            assert forall|name: Seq<char>| #[trigger]
                entries_map(t1).contains_key(name) implies entries_map(s1).contains_key(name) by {
                let b = choose|k: int| 0 <= k < t1.len() && #[trigger] t1[k].0 == name;
                assert(t[b + 1].0 == name);
                lemma_entries_map_at(t, b + 1);
                assert(has_name(s, name));
                let a = choose|k: int| 0 <= k < s.len() && #[trigger] s[k].0 == name;
                if a == 0 {
                    assert(name_lt(t[0].0, t[b + 1].0));
                    lemma_name_lt_irreflexive(name);
                }
                assert(s1[a - 1].0 == name);
            }
        }
        lemma_sorted_determined_by_map(s1, t1);
        assert(s =~= seq![s[0]] + s1);
        assert(t =~= seq![t[0]] + t1);
    }
}

/// Values kept under distinct names, in the order of their names.
pub struct NameIndex<V> {
    entries: Vec<(Vec<char>, V)>,
}

impl<V> NameIndex<V> {
    /// The entries, as names and values, in order.
    pub closed spec fn view(&self) -> Seq<(Seq<char>, V)> {
        self.entries@.map_values(|e: (Vec<char>, V)| (e.0@, e.1))
    }

    /// What is held under each name.
    pub open spec fn as_map(&self) -> Map<Seq<char>, V> {
        entries_map(self.view())
    }

    #[verifier::type_invariant]
    closed spec fn names_sorted(&self) -> bool {
        sorted_by_name(self.view())
    }

    /// An index that holds nothing.
    pub fn new() -> (r: Self)
        ensures
            r.view() == Seq::<(Seq<char>, V)>::empty(),
            sorted_by_name(r.view()),
    {
        let r = NameIndex { entries: Vec::new() };
        assert(r.view() =~= Seq::<(Seq<char>, V)>::empty());
        r
    }

    /// How many names are held.
    pub fn len(&self) -> (n: usize)
        ensures
            n == self.view().len(),
            sorted_by_name(self.view()),
    {
        proof {
            use_type_invariant(self);
        }
        self.entries.len()
    }

    /// The value held under `name`.
    pub fn get(&self, name: &str) -> (r: Option<&V>)
        ensures
            r is Some <==> self.as_map().contains_key(name@),
            r matches Some(v) ==> *v == self.as_map()[name@],
    {
        proof {
            use_type_invariant(self);
        }
        let key = chars_of(name);
        let mut i: usize = 0;
        while i < self.entries.len()
            invariant
                i <= self.entries.len(),
                key@ == name@,
                sorted_by_name(self.view()),
                forall|k: int| 0 <= k < i ==> self.view()[k].0 != name@,
            decreases self.entries.len() - i,
        {
            match compare_names(&self.entries[i].0, &key) {
                NameOrder::Equal => {
                    proof {
                        assert(self.view()[i as int].0 == name@);
                        lemma_entries_map_at(self.view(), i as int);
                    }
                    return Some(&self.entries[i].1);
                },
                _ => {},
            }
            i = i + 1;
        }
        assert(!has_name(self.view(), name@));
        None
    }

    /// The name and value of entry `i`.
    pub fn entry_at(&self, i: usize) -> (r: (&Vec<char>, &V))
        requires
            i < self.view().len(),
        ensures
            (r.0@, *r.1) == self.view()[i as int],
    {
        let e = &self.entries[i];
        (&e.0, &e.1)
    }

    /// The values of entries `offset .. offset + per_page`, in order.
    pub fn page(&self, offset: usize, per_page: usize) -> (r: Vec<&V>)
        ensures
            r@.map_values(|v: &V| *v) == page_of(self.view(), offset as int, per_page as int),
    {
        let n = self.entries.len();
        let from = if offset < n {
            offset
        } else {
            n
        };
        let to = if per_page < n - from {
            from + per_page
        } else {
            n
        };
        let mut out: Vec<&V> = Vec::new();
        let mut i = from;
        while i < to
            invariant
                from <= i <= to <= n,
                n == self.entries.len(),
                out@.map_values(|v: &V| *v) == self.view().subrange(from as int, i as int).map_values(
                    |e: (Seq<char>, V)| e.1,
                ),
            decreases to - i,
        {
            let ghost prev = out@;
            assert(self.view()[i as int].1 == self.entries@[i as int].1);
            out.push(&self.entries[i].1);
            proof {
                let g = |e: (Seq<char>, V)| e.1;
                assert(out@.map_values(|v: &V| *v) =~= prev.map_values(|v: &V| *v).push(
                    self.view()[i as int].1,
                ));
                assert(self.view().subrange(from as int, i + 1).map_values(g) =~= self.view().subrange(
                    from as int,
                    i as int,
                ).map_values(g).push(self.view()[i as int].1));
            }
            i = i + 1;
        }
        out
    }

    /// Drops what is held under `name`, if anything.
    pub fn remove(&mut self, name: &str)
        ensures
            final(self).as_map() == old(self).as_map().remove(name@),
            sorted_by_name(final(self).view()),
    {
        proof {
            use_type_invariant(&*self);
        }
        let key = chars_of(name);
        let mut i: usize = 0;
        let ghost s = self.view();
        while i < self.entries.len()
            invariant
                i <= self.entries.len(),
                key@ == name@,
                s == self.view(),
                s == old(self).view(),
                sorted_by_name(s),
                forall|k: int| 0 <= k < i ==> s[k].0 != name@,
            decreases self.entries.len() - i,
        {
            if crate::text::chars_equal(&self.entries[i].0, &key) {
                let mut entries: Vec<(Vec<char>, V)> = Vec::new();
                std::mem::swap(&mut entries, &mut self.entries);
                let _ = entries.remove(i);
                let ghost t = entries@.map_values(|e: (Vec<char>, V)| (e.0@, e.1));
                proof {
                    assert(t =~= s.remove(i as int));
                    assert(sorted_by_name(t)) by {
                        assert forall|a: int, b: int| 0 <= a < b < t.len() implies name_lt(
                            #[trigger] t[a].0,
                            #[trigger] t[b].0,
                        ) by {
                            let a1 = if a < i { a } else { a + 1 };
                            let b1 = if b < i { b } else { b + 1 };
                            assert(t[a] == s[a1] && t[b] == s[b1]);
                        }
                    }
                    assert(entries_map(t) =~= entries_map(s).remove(name@)) by {
                        assert forall|n: Seq<char>| #[trigger]
                            entries_map(s).remove(name@).contains_key(n) implies entries_map(
                            t,
                        ).contains_key(n) && entries_map(t)[n] == entries_map(s)[n] by {
                            let a = choose|k: int| 0 <= k < s.len() && #[trigger] s[k].0 == n;
                            lemma_entries_map_at(s, a);
                            assert(a != i);
                            let a1 = if a < i { a } else { a - 1 };
                            assert(t[a1] == s[a]);
                            lemma_entries_map_at(t, a1);
                        }
                        assert forall|n: Seq<char>| #[trigger]
                            entries_map(t).contains_key(n) implies entries_map(s).remove(
                            name@,
                        ).contains_key(n) by {
                            let b = choose|k: int| 0 <= k < t.len() && #[trigger] t[k].0 == n;
                            let b1 = if b < i { b } else { b + 1 };
                            assert(t[b] == s[b1]);
                            assert(has_name(s, n));
                            if n == name@ {
                                lemma_sorted_unique_index(s, b1, i as int);
                            }
                        }
                    }
                }
                self.entries = entries;
                return;
            }
            i = i + 1;
        }
        proof {
            assert(!has_name(s, name@));
            assert(entries_map(s).remove(name@) =~= entries_map(s));
        }
    }

    /// Puts `value` under `name`, in place of what was held there.
    pub fn insert(&mut self, name: String, value: V)
        ensures
            final(self).as_map() == old(self).as_map().insert(name@, value),
            sorted_by_name(final(self).view()),
    {
        proof {
            use_type_invariant(&*self);
        }
        let key = chars_of(name.as_str());
        let mut entries: Vec<(Vec<char>, V)> = Vec::new();
        std::mem::swap(&mut entries, &mut self.entries);
        let ghost s = entries@.map_values(|e: (Vec<char>, V)| (e.0@, e.1));
        assert(sorted_by_name(s));
        let mut p: usize = 0;
        while p < entries.len() && name_before(&entries[p].0, &key)
            invariant
                p <= entries.len(),
                s == entries@.map_values(|e: (Vec<char>, V)| (e.0@, e.1)),
                sorted_by_name(s),
                key@ == name@,
                forall|k: int| 0 <= k < p ==> name_lt(#[trigger] s[k].0, key@),
            decreases entries.len() - p,
        {
            p = p + 1;
        }
        let found = p < entries.len() && crate::text::chars_equal(&entries[p].0, &key);
        assert(found ==> s[p as int].0 == key@);
        proof {
            assert forall|k: int| p <= k < s.len() && !(found && k == p) implies name_lt(
                key@,
                #[trigger] s[k].0,
            ) by {
                assert(p < s.len());
                lemma_name_lt_total(s[p as int].0, key@);
                if k == p {
                } else {
                    assert(name_lt(s[p as int].0, s[k].0));
                    lemma_name_lt_total(s[p as int].0, key@);
                    if !found {
                        lemma_name_lt_transitive(key@, s[p as int].0, s[k].0);
                    } else {
                        assert(s[p as int].0 == key@);
                    }
                }
            }
        }
        let ghost old_map = entries_map(s);
        if found {
            entries.set(p, (key, value));
        } else {
            entries.insert(p, (key, value));
        }
        let ghost t = entries@.map_values(|e: (Vec<char>, V)| (e.0@, e.1));
        proof {
            if found {
                assert(t =~= s.update(p as int, (name@, value)));
            } else {
                assert(t =~= s.insert(p as int, (name@, value)));
            }
            assert(sorted_by_name(t)) by {
                assert forall|a: int, b: int| 0 <= a < b < t.len() implies name_lt(
                    #[trigger] t[a].0,
                    #[trigger] t[b].0,
                ) by {
                    if found {
                        if a == p {
                            assert(name_lt(s[a].0, s[b].0));
                        } else if b == p {
                            assert(name_lt(s[a].0, s[b].0));
                        }
                    } else {
                        if a < p && b == p {
                        } else if a < p && b > p {
                            assert(t[b] == s[b - 1]);
                            assert(name_lt(s[a].0, s[b - 1].0));
                        } else if a == p {
                            assert(t[b] == s[b - 1]);
                        } else if a > p {
                            assert(t[a] == s[a - 1] && t[b] == s[b - 1]);
                        }
                    }
                }
            }
            assert(entries_map(t) =~= old_map.insert(name@, value)) by {
                assert forall|n: Seq<char>| #[trigger]
                    old_map.insert(name@, value).contains_key(n) implies entries_map(
                    t,
                ).contains_key(n) && entries_map(t)[n] == old_map.insert(name@, value)[n] by {
                    if n == name@ {
                        lemma_entries_map_at(t, p as int);
                    } else {
                        let a = choose|k: int| 0 <= k < s.len() && #[trigger] s[k].0 == n;
                        lemma_entries_map_at(s, a);
                        let b = if found || a < p {
                            a
                        } else {
                            a + 1
                        };
                        assert(t[b] == s[a]);
                        lemma_entries_map_at(t, b);
                    }
                }
                assert forall|n: Seq<char>| #[trigger]
                    entries_map(t).contains_key(n) implies old_map.insert(
                    name@,
                    value,
                ).contains_key(n) by {
                    if n != name@ {
                        let b = choose|k: int| 0 <= k < t.len() && #[trigger] t[k].0 == n;
                        if found {
                            assert(s[b].0 == n);
                        } else if b < p {
                            assert(s[b].0 == n);
                        } else {
                            assert(b != p);
                            assert(s[b - 1].0 == n);
                        }
                    }
                }
            }
        }
        self.entries = entries;
    }
}

} // verus!
