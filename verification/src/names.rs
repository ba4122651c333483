//! Maps keyed by name, kept in the order of the names' UTF-8 bytes: the order
//! in which `str` compares. Each name occurs once; inserting under a name that
//! is present replaces the value.

use vstd::prelude::*;
use vstd::utf8::{encode_utf8, encode_utf8_decode_utf8};

verus! {

/// Lexicographic order on byte strings: `a` comes strictly before `b`.
pub open spec fn bytes_before(a: Seq<u8>, b: Seq<u8>) -> bool
    decreases a.len(),
{
    if b.len() == 0 {
        false
    } else if a.len() == 0 {
        true
    } else if a[0] != b[0] {
        a[0] < b[0]
    } else {
        bytes_before(a.drop_first(), b.drop_first())
    }
}

/// Order of names: by their UTF-8 bytes.
pub open spec fn name_before(a: Seq<char>, b: Seq<char>) -> bool {
    bytes_before(encode_utf8(a), encode_utf8(b))
}

/// No byte string comes before itself.
pub proof fn lemma_bytes_irreflexive(a: Seq<u8>)
    ensures
        !bytes_before(a, a),
    decreases a.len(),
{
    if a.len() > 0 {
        lemma_bytes_irreflexive(a.drop_first());
    }
}

/// The order is transitive.
pub proof fn lemma_bytes_transitive(a: Seq<u8>, b: Seq<u8>, c: Seq<u8>)
    requires
        bytes_before(a, b),
        bytes_before(b, c),
    ensures
        bytes_before(a, c),
    decreases a.len(),
{
    if a.len() > 0 && a[0] == b[0] && b[0] == c[0] {
        lemma_bytes_transitive(a.drop_first(), b.drop_first(), c.drop_first());
    }
}

/// Any two byte strings are equal or ordered one way.
pub proof fn lemma_bytes_total(a: Seq<u8>, b: Seq<u8>)
    ensures
        bytes_before(a, b) || a == b || bytes_before(b, a),
    decreases a.len(),
{
    if a.len() > 0 && b.len() > 0 && a[0] == b[0] {
        lemma_bytes_total(a.drop_first(), b.drop_first());
        if a.drop_first() == b.drop_first() {
            assert(a =~= seq![a[0]] + a.drop_first());
            assert(b =~= seq![b[0]] + b.drop_first());
        }
    } else if a.len() == 0 && b.len() == 0 {
        assert(a =~= b);
    }
}

/// A common prefix does not decide the order.
pub proof fn lemma_bytes_skip_common(a: Seq<u8>, b: Seq<u8>, k: int)
    requires
        0 <= k <= a.len(),
        k <= b.len(),
        a.take(k) == b.take(k),
    ensures
        bytes_before(a, b) == bytes_before(a.skip(k), b.skip(k)),
    decreases k,
{
    if k == 0 {
        assert(a.skip(0) =~= a);
        assert(b.skip(0) =~= b);
    } else {
        assert(a[0] == a.take(k)[0]);
        assert(b[0] == b.take(k)[0]);
        let a1 = a.drop_first();
        let b1 = b.drop_first();
        assert(a1.take(k - 1) =~= a.take(k).drop_first());
        assert(b1.take(k - 1) =~= b.take(k).drop_first());
        lemma_bytes_skip_common(a1, b1, k - 1);
        assert(a1.skip(k - 1) =~= a.skip(k));
        assert(b1.skip(k - 1) =~= b.skip(k));
    }
}

/// Names with the same bytes are the same name.
pub proof fn lemma_name_bytes_injective(a: Seq<char>, b: Seq<char>)
    requires
        encode_utf8(a) == encode_utf8(b),
    ensures
        a == b,
{
    encode_utf8_decode_utf8(a);
    encode_utf8_decode_utf8(b);
}

/// The order of names is strict and total.
pub proof fn lemma_name_order(a: Seq<char>, b: Seq<char>)
    ensures
        name_before(a, b) ==> !name_before(b, a) && a != b,
        name_before(a, b) || a == b || name_before(b, a),
{
    let x = encode_utf8(a);
    let y = encode_utf8(b);
    lemma_bytes_total(x, y);
    if x == y {
        lemma_name_bytes_injective(a, b);
    }
    lemma_bytes_irreflexive(x);
    if bytes_before(x, y) && bytes_before(y, x) {
        lemma_bytes_transitive(x, y, x);
    }
}

/// The order of names is transitive.
pub proof fn lemma_name_transitive(a: Seq<char>, b: Seq<char>, c: Seq<char>)
    requires
        name_before(a, b),
        name_before(b, c),
    ensures
        name_before(a, c),
{
    lemma_bytes_transitive(encode_utf8(a), encode_utf8(b), encode_utf8(c));
}

/// How one name stands to another.
#[derive(Clone, Copy, Debug)]
pub enum Rank {
    Before,
    Same,
    After,
}

/// Compares two names by their UTF-8 bytes.
pub fn rank_names(a: &str, b: &str) -> (rank: Rank)
    ensures
        rank is Before <==> name_before(a@, b@),
        rank is Same <==> a@ == b@,
        rank is After <==> name_before(b@, a@),
{
    let x = a.as_bytes();
    let y = b.as_bytes();
    let mut i: usize = 0;
    while i < x.len() && i < y.len()
        invariant
            i <= x.len(),
            i <= y.len(),
            x@ == encode_utf8(a@),
            y@ == encode_utf8(b@),
            x@.take(i as int) == y@.take(i as int),
        decreases x.len() - i,
    {
        if x[i] != y[i] {
            proof {
                lemma_bytes_skip_common(x@, y@, i as int);
                assert(x@.skip(i as int)[0] == x@[i as int]);
                assert(y@.skip(i as int)[0] == y@[i as int]);
                lemma_bytes_skip_common(y@, x@, i as int);
                lemma_name_order(a@, b@);
                lemma_name_order(b@, a@);
            }
            if x[i] < y[i] {
                return Rank::Before;
            } else {
                return Rank::After;
            }
        }
        proof {
            assert(x@.take(i + 1) =~= x@.take(i as int).push(x@[i as int]));
            assert(y@.take(i + 1) =~= y@.take(i as int).push(y@[i as int]));
        }
        i += 1;
    }
    proof {
        lemma_bytes_skip_common(x@, y@, i as int);
        lemma_bytes_skip_common(y@, x@, i as int);
        lemma_name_order(a@, b@);
        lemma_name_order(b@, a@);
    }
    if x.len() == y.len() {
        proof {
            assert(x@ =~= x@.take(i as int));
            assert(y@ =~= y@.take(i as int));
            lemma_name_bytes_injective(a@, b@);
        }
        Rank::Same
    } else if x.len() < y.len() {
        Rank::Before
    } else {
        Rank::After
    }
}

/// Names in strictly increasing order.
pub open spec fn strictly_increasing(names: Seq<Seq<char>>) -> bool {
    forall|i: int, j: int| 0 <= i < j < names.len() ==> name_before(names[i], names[j])
}

/// The map that pairs each name with the value at the same position.
pub open spec fn pairs_map<V>(names: Seq<Seq<char>>, values: Seq<V>) -> Map<Seq<char>, V> {
    Map::new(|name: Seq<char>| names.contains(name), |name: Seq<char>| values[names.index_of(name)])
}

/// In an ordered list each name is found at its own position.
pub proof fn lemma_pairs_lookup<V>(names: Seq<Seq<char>>, values: Seq<V>, j: int)
    requires
        strictly_increasing(names),
        0 <= j < names.len(),
    ensures
        pairs_map(names, values).dom().contains(names[j]),
        pairs_map(names, values)[names[j]] == values[j],
        names.index_of(names[j]) == j,
{
    let found = names.index_of(names[j]);
    assert(names.contains(names[j]));
    if found < j {
        lemma_name_order(names[found], names[j]);
    } else if j < found {
        lemma_name_order(names[j], names[found]);
    }
}

/// Putting a new name at its place keeps the order and adds one pair.
pub proof fn lemma_insert_absent<V>(
    names: Seq<Seq<char>>,
    values: Seq<V>,
    at: int,
    name: Seq<char>,
    value: V,
)
    requires
        strictly_increasing(names),
        names.len() == values.len(),
        0 <= at <= names.len(),
        forall|k: int| 0 <= k < at ==> name_before(#[trigger] names[k], name),
        at < names.len() ==> name_before(name, names[at]),
    ensures
        strictly_increasing(names.insert(at, name)),
        !names.contains(name),
        pairs_map(names.insert(at, name), values.insert(at, value)) == pairs_map(
            names,
            values,
        ).insert(name, value),
{
    let names2 = names.insert(at, name);
    let values2 = values.insert(at, value);
    assert forall|k: int| at <= k < names.len() implies name_before(name, #[trigger] names[k]) by {
        if at < k {
            lemma_name_transitive(name, names[at], names[k]);
        }
    }
    assert forall|i: int, j: int| 0 <= i < j < names2.len() implies name_before(
        names2[i],
        names2[j],
    ) by {
        if i == at {
            assert(names2[j] == names[j - 1]);
        } else if j == at {
            assert(names2[i] == names[i]);
        } else {
            let oi = if i < at {
                i
            } else {
                i - 1
            };
            let oj = if j < at {
                j
            } else {
                j - 1
            };
            assert(names2[i] == names[oi] && names2[j] == names[oj]);
        }
    }
    if names.contains(name) {
        let k = names.index_of(name);
        if k < at {
            lemma_name_order(names[k], name);
        } else {
            lemma_name_order(name, names[k]);
        }
    }
    let left = pairs_map(names2, values2);
    let right = pairs_map(names, values).insert(name, value);
    assert forall|key: Seq<char>| left.dom().contains(key) <==> right.dom().contains(key) by {
        if names2.contains(key) {
            let k = names2.index_of(key);
            if k < at {
                assert(names[k] == key);
            } else if k > at {
                assert(names[k - 1] == key);
            }
        }
        if names.contains(key) {
            let k = names.index_of(key);
            if k < at {
                assert(names2[k] == key);
            } else {
                assert(names2[k + 1] == key);
            }
        }
        if key == name {
            assert(names2[at] == key);
        }
    }
    assert forall|key: Seq<char>| left.dom().contains(key) implies left[key] == right[key] by {
        let k = names2.index_of(key);
        lemma_pairs_lookup(names2, values2, k);
        if k < at {
            assert(names[k] == key);
            lemma_pairs_lookup(names, values, k);
        } else if k > at {
            assert(names[k - 1] == key);
            lemma_pairs_lookup(names, values, k - 1);
        }
    }
    assert(left =~= right);
}

/// Replacing the value at a position replaces the value of that name.
pub proof fn lemma_replace_present<V>(names: Seq<Seq<char>>, values: Seq<V>, at: int, value: V)
    requires
        strictly_increasing(names),
        names.len() == values.len(),
        0 <= at < names.len(),
    ensures
        pairs_map(names, values.update(at, value)) == pairs_map(names, values).insert(
            names[at],
            value,
        ),
{
    let values2 = values.update(at, value);
    let left = pairs_map(names, values2);
    let right = pairs_map(names, values).insert(names[at], value);
    assert forall|key: Seq<char>| left.dom().contains(key) <==> right.dom().contains(key) by {
        if key == names[at] {
            assert(names.contains(key));
        }
    }
    assert forall|key: Seq<char>| left.dom().contains(key) implies left[key] == right[key] by {
        let k = names.index_of(key);
        lemma_pairs_lookup(names, values2, k);
        lemma_pairs_lookup(names, values, k);
        lemma_pairs_lookup(names, values, at);
    }
    assert(left =~= right);
}

/// The map after the registrations are applied in order: each stores its
/// value under its name, replacing what an earlier one stored there.
pub open spec fn registered<V>(start: Map<Seq<char>, V>, entries: Seq<(Seq<char>, V)>) -> Map<
    Seq<char>,
    V,
>
    decreases entries.len(),
{
    if entries.len() == 0 {
        start
    } else {
        registered(start, entries.drop_last()).insert(entries.last().0, entries.last().1)
    }
}

/// Registrations as the model sees them: the name's characters and the value.
pub open spec fn registrations<V>(entries: Seq<(String, V)>) -> Seq<(Seq<char>, V)> {
    entries.map_values(|entry: (String, V)| (entry.0@, entry.1))
}

/// The last registration of a name decides its value: where `entries[at]`
/// registers a name and no later entry registers it again, the result maps
/// the name to the value of `entries[at]`.
pub proof fn lemma_last_registration_wins<V>(
    start: Map<Seq<char>, V>,
    entries: Seq<(Seq<char>, V)>,
    at: int,
)
    requires
        0 <= at < entries.len(),
        forall|later: int| at < later < entries.len() ==> (#[trigger] entries[later]).0 != entries[at].0,
    ensures
        registered(start, entries).dom().contains(entries[at].0),
        registered(start, entries)[entries[at].0] == entries[at].1,
    decreases entries.len(),
{
    if at < entries.len() - 1 {
        let rest = entries.drop_last();
        assert(rest[at] == entries[at]);
        assert forall|later: int| at < later < rest.len() implies (#[trigger] rest[later]).0
            != rest[at].0 by {
            assert(rest[later] == entries[later]);
        }
        lemma_last_registration_wins(start, rest, at);
        assert(entries.last() == entries[entries.len() - 1]);
    }
}

/// A name that no entry registers keeps what it had at the start.
pub proof fn lemma_unregistered_kept<V>(
    start: Map<Seq<char>, V>,
    entries: Seq<(Seq<char>, V)>,
    name: Seq<char>,
)
    requires
        forall|i: int| 0 <= i < entries.len() ==> (#[trigger] entries[i]).0 != name,
    ensures
        registered(start, entries).dom().contains(name) == start.dom().contains(name),
        start.dom().contains(name) ==> registered(start, entries)[name] == start[name],
    decreases entries.len(),
{
    if entries.len() > 0 {
        let rest = entries.drop_last();
        assert forall|i: int| 0 <= i < rest.len() implies (#[trigger] rest[i]).0 != name by {
            assert(rest[i] == entries[i]);
        }
        lemma_unregistered_kept(start, rest, name);
        assert(entries.last() == entries[entries.len() - 1]);
    }
}

/// The names of a list of entries, in order.
pub open spec fn entry_names<V>(entries: Seq<(String, V)>) -> Seq<Seq<char>> {
    entries.map_values(|entry: (String, V)| entry.0@)
}

/// The values of a list of entries, in order.
pub open spec fn entry_values<V>(entries: Seq<(String, V)>) -> Seq<V> {
    entries.map_values(|entry: (String, V)| entry.1)
}

/// A map from names to values, stored in the order of the names.
pub struct NameMap<V> {
    entries: Vec<(String, V)>,
}

impl<V> View for NameMap<V> {
    type V = Map<Seq<char>, V>;

    /// The map proper: each stored name with its value.
    open spec fn view(&self) -> Map<Seq<char>, V> {
        pairs_map(self.names(), self.values())
    }
}

impl<V> NameMap<V> {
    #[verifier::type_invariant]
    spec fn ordered(&self) -> bool {
        strictly_increasing(entry_names(self.entries@))
    }

    /// The stored names, in the order in which they are kept.
    pub closed spec fn names(&self) -> Seq<Seq<char>> {
        entry_names(self.entries@)
    }

    /// The stored values, each at the position of its name.
    pub closed spec fn values(&self) -> Seq<V> {
        entry_values(self.entries@)
    }

    /// What holds of every map: there are as many values as names, the names
    /// increase strictly, so none occurs twice, and each name maps to the
    /// value at its position. The call does nothing at run time.
    pub fn ordered_facts(&self)
        ensures
            self.names().len() == self.values().len(),
            strictly_increasing(self.names()),
            forall|i: int|
                0 <= i < self.names().len() ==> self@.dom().contains(#[trigger] self.names()[i])
                    && self@[self.names()[i]] == self.values()[i],
            forall|name: Seq<char>| self@.dom().contains(name) <==> self.names().contains(name),
            self@.dom().finite(),
            self@.dom().len() == self.names().len(),
    {
        proof {
            use_type_invariant(self);
            let names = self.names();
            assert forall|i: int| 0 <= i < names.len() implies self@.dom().contains(
                #[trigger] names[i],
            ) && self@[names[i]] == self.values()[i] by {
                lemma_pairs_lookup(names, self.values(), i);
            }
            assert(names.no_duplicates()) by {
                assert forall|i: int, j: int|
                    0 <= i < names.len() && 0 <= j < names.len() && i != j implies names[i]
                    != names[j] by {
                    if i < j {
                        lemma_name_order(names[i], names[j]);
                    } else {
                        lemma_name_order(names[j], names[i]);
                    }
                }
            }
            assert(self@.dom() =~= names.to_set());
            names.unique_seq_to_set();
        }
    }

    /// The empty map.
    pub fn new() -> (map: Self)
        ensures
            map@ == Map::<Seq<char>, V>::empty(),
            map.names().len() == 0,
    {
        let map = NameMap { entries: Vec::new() };
        assert(map@ =~= Map::<Seq<char>, V>::empty());
        map
    }

    /// The number of names.
    pub fn len(&self) -> (n: usize)
        ensures
            n == self.names().len(),
            n == self@.dom().len(),
    {
        self.ordered_facts();
        self.entries.len()
    }

    /// Where `name` stands, or would stand: every earlier name comes before
    /// it, and the name at that place, if any, is `name` itself (`found`) or
    /// comes after it.
    fn position(&self, name: &str) -> (place: (usize, bool))
        ensures
            place.0 <= self.names().len(),
            forall|k: int| 0 <= k < place.0 ==> name_before(#[trigger] self.names()[k], name@),
            place.1 ==> place.0 < self.names().len() && self.names()[place.0 as int] == name@,
            !place.1 && place.0 < self.names().len() ==> name_before(
                name@,
                self.names()[place.0 as int],
            ),
            place.1 <==> self@.dom().contains(name@),
    {
        self.ordered_facts();
        let mut i: usize = 0;
        let mut found = false;
        let mut passed = false;
        while i < self.entries.len() && !found && !passed
            invariant
                i <= self.entries.len(),
                self.names() == entry_names(self.entries@),
                forall|k: int| 0 <= k < i ==> name_before(#[trigger] self.names()[k], name@),
                found ==> i < self.entries.len() && self.names()[i as int] == name@,
                passed ==> i < self.entries.len() && name_before(name@, self.names()[i as int]),
                !(found && passed),
            decreases self.entries.len() - i + (if found || passed { 0int } else { 1int }),
        {
            match rank_names(self.entries[i].0.as_str(), name) {
                Rank::Before => {
                    i += 1;
                },
                Rank::Same => {
                    found = true;
                },
                Rank::After => {
                    passed = true;
                },
            }
        }
        proof {
            let names = self.names();
            if found {
                assert(names.contains(name@));
            } else if names.contains(name@) {
                let k = names.index_of(name@);
                if k < i {
                    lemma_name_order(names[k], name@);
                } else {
                    if k > i {
                        lemma_name_transitive(name@, names[i as int], names[k]);
                    }
                    lemma_name_order(name@, names[k]);
                }
            }
        }
        (i, found)
    }

    /// Whether `name` is present.
    pub fn contains_key(&self, name: &str) -> (present: bool)
        ensures
            present == self@.dom().contains(name@),
    {
        self.position(name).1
    }

    /// The value stored under `name`.
    pub fn get(&self, name: &str) -> (value: Option<&V>)
        ensures
            value is Some <==> self@.dom().contains(name@),
            value is Some ==> *value.unwrap() == self@[name@],
    {
        let (i, found) = self.position(name);
        if found {
            self.ordered_facts();
            Some(&self.entries[i].1)
        } else {
            None
        }
    }

    /// The name at position `i` of the stored order.
    pub fn name_at(&self, i: usize) -> (name: &str)
        requires
            i < self.names().len(),
        ensures
            name@ == self.names()[i as int],
    {
        self.entries[i].0.as_str()
    }

    /// The value at position `i` of the stored order.
    pub fn value_at(&self, i: usize) -> (value: &V)
        requires
            i < self.names().len(),
        ensures
            *value == self.values()[i as int],
            *value == self@[self.names()[i as int]],
    {
        self.ordered_facts();
        &self.entries[i].1
    }

    /// Applies the registrations in order: each stores its value under its
    /// name, replacing what was there.
    pub fn insert_all(&mut self, entries: Vec<(String, V)>)
        ensures
            final(self)@ == registered(old(self)@, registrations(entries@)),
    {
        let mut rest = entries;
        let ghost all = registrations(entries@);
        let ghost mut done: Seq<(Seq<char>, V)> = Seq::empty();
        while rest.len() > 0
            invariant
                done + registrations(rest@) == all,
                self@ == registered(old(self)@, done),
            decreases rest.len(),
        {
            let ghost before = registrations(rest@);
            let (name, value) = rest.remove(0);
            proof {
                let entry = (name@, value);
                assert(before[0] == entry);
                assert(registrations(rest@) =~= before.drop_first());
                assert(done.push(entry).drop_last() =~= done);
                assert(done.push(entry) + registrations(rest@) =~= done + before);
                done = done.push(entry);
            }
            self.insert(name, value);
        }
        proof {
            assert(done =~= all);
        }
    }

    /// The entries, in the order of their names.
    pub fn into_entries(self) -> (entries: Vec<(String, V)>)
        ensures
            entry_names(entries@) == self.names(),
            entry_values(entries@) == self.values(),
            strictly_increasing(entry_names(entries@)),
    {
        self.ordered_facts();
        self.entries
    }

    /// Stores `value` under `name`. A value already stored under that name is
    /// replaced and handed back; every other name keeps its value.
    pub fn insert(&mut self, name: String, value: V) -> (replaced: Option<V>)
        ensures
            final(self)@ == old(self)@.insert(name@, value),
            replaced == if old(self)@.dom().contains(name@) {
                Some(old(self)@[name@])
            } else {
                None
            },
    {
        let (i, found) = self.position(name.as_str());
        self.ordered_facts();
        let ghost names = self.names();
        let ghost values = self.values();
        let mut taken = NameMap { entries: Vec::new() };
        core::mem::swap(self, &mut taken);
        let mut entries = taken.entries;
        let replaced = if found {
            let (_, previous) = entries.remove(i);
            entries.insert(i, (name, value));
            proof {
                assert(entry_names(entries@) =~= names);
                assert(entry_values(entries@) =~= values.update(i as int, value));
                lemma_replace_present(names, values, i as int, value);
                lemma_pairs_lookup(names, values, i as int);
            }
            Some(previous)
        } else {
            entries.insert(i, (name, value));
            proof {
                assert(entry_names(entries@) =~= names.insert(i as int, name@));
                assert(entry_values(entries@) =~= values.insert(i as int, value));
                lemma_insert_absent(names, values, i as int, name@, value);
            }
            None
        };
        *self = NameMap { entries };
        replaced
    }
}

} // verus!
