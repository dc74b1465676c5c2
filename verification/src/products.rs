//! Product filter for departure boards and journey searches.
//!
//! transport.rest instances expose product filters as flat boolean query
//! parameters whose keys depend on the provider profile. Unset keys are
//! omitted (the server defaults to "include everything").

use vstd::prelude::*;
use crate::request::Query;
use crate::text::{bool_string, bool_text};

verus! {

/// Index of the first entry with key `k`, or -1.
pub open spec fn key_index(es: Seq<(Seq<char>, bool)>, k: Seq<char>) -> int
    decreases es.len(),
{
    if es.len() == 0 {
        -1
    } else {
        let j = key_index(es.drop_last(), k);
        if j >= 0 {
            j
        } else if es.last().0 == k {
            es.len() - 1
        } else {
            -1
        }
    }
}

/// No key occurs twice.
pub open spec fn keys_distinct(es: Seq<(Seq<char>, bool)>) -> bool {
    forall|i: int, j: int| 0 <= i < j < es.len() ==> #[trigger] es[i].0 != #[trigger] es[j].0
}

/// The entries after setting `k` to `v`: an existing entry keeps its place
/// and takes the new value, a new key goes to the end.
pub open spec fn set_entry(es: Seq<(Seq<char>, bool)>, k: Seq<char>, v: bool) -> Seq<(Seq<char>, bool)> {
    let j = key_index(es, k);
    if j >= 0 {
        es.update(j, (k, v))
    } else {
        es.push((k, v))
    }
}

/// The value recorded for `k`, if any.
pub open spec fn lookup(es: Seq<(Seq<char>, bool)>, k: Seq<char>) -> Option<bool> {
    let j = key_index(es, k);
    if j >= 0 {
        Some(es[j].1)
    } else {
        None
    }
}

/// Query parameters that a selection adds: each entry as `key=true|false`.
pub open spec fn product_params(es: Seq<(Seq<char>, bool)>) -> Seq<(Seq<char>, Seq<char>)> {
    es.map_values(|e: (Seq<char>, bool)| (e.0, bool_text(e.1)))
}

pub proof fn lemma_key_index(es: Seq<(Seq<char>, bool)>, k: Seq<char>)
    ensures
        -1 <= key_index(es, k) < es.len(),
        key_index(es, k) >= 0 ==> es[key_index(es, k)].0 == k,
        key_index(es, k) >= 0 ==> forall|i: int| 0 <= i < key_index(es, k) ==> es[i].0 != k,
        key_index(es, k) < 0 ==> forall|i: int| 0 <= i < es.len() ==> es[i].0 != k,
    decreases es.len(),
{
    if es.len() > 0 {
        let d = es.drop_last();
        lemma_key_index(d, k);
        assert forall|i: int| 0 <= i < d.len() implies d[i] == es[i] by {}
    }
}

/// Parameters an optional selection adds to a request: its entries when
/// it selects anything.
pub open spec fn products_params(o: Option<ProductSelection>) -> Seq<(Seq<char>, Seq<char>)> {
    match o {
        Some(p) => if p@.len() > 0 {
            product_params(p@)
        } else {
            seq![]
        },
        None => seq![],
    }
}

/// Selection of transport products to include in a query.
///
/// Only explicitly set products are sent; the server default includes all
/// products. Known keys get typed setters, unknown provider-specific keys can
/// be set via [`ProductSelection::set`].
#[derive(Debug)]
pub struct ProductSelection {
    entries: Vec<(String, bool)>,
}

impl View for ProductSelection {
    type V = Seq<(Seq<char>, bool)>;

    closed spec fn view(&self) -> Seq<(Seq<char>, bool)> {
        self.entries@.map_values(|e: (String, bool)| (e.0@, e.1))
    }
}

impl Clone for ProductSelection {
    fn clone(&self) -> (p: Self)
        ensures
            p@ == self@,
    {
        proof {
            use_type_invariant(self);
        }
        let mut entries: Vec<(String, bool)> = Vec::new();
        let n = self.entries.len();
        for i in 0..n
            invariant
                n == self.entries@.len(),
                entries@.map_values(|e: (String, bool)| (e.0@, e.1)) == self@.take(i as int),
        {
            let ghost prev = entries@;
            let (k, v) = &self.entries[i];
            assert(self@[i as int] == (k@, *v));
            let kc = k.clone();
            entries.push((kc, *v));
            assert(entries@ == prev.push((kc, *v)));
            assert(entries@.map_values(|e: (String, bool)| (e.0@, e.1)) =~= prev.map_values(
                |e: (String, bool)| (e.0@, e.1),
            ).push((k@, *v)));
            assert(self@.take(i + 1) =~= self@.take(i as int).push(self@[i as int]));
        }
        assert(self@.take(n as int) =~= self@);
        ProductSelection { entries }
    }
}

impl Default for ProductSelection {
    fn default() -> (p: Self)
        ensures
            p@ == Seq::<(Seq<char>, bool)>::empty(),
    {
        ProductSelection::new()
    }
}

impl ProductSelection {
    #[verifier::type_invariant]
    closed spec fn wf(&self) -> bool {
        keys_distinct(self@)
    }

    /// An empty selection.
    pub fn new() -> (p: Self)
        ensures
            p@ == Seq::<(Seq<char>, bool)>::empty(),
    {
        let entries: Vec<(String, bool)> = Vec::new();
        assert(entries@.map_values(|e: (String, bool)| (e.0@, e.1)) =~= Seq::<
            (Seq<char>, bool),
        >::empty());
        ProductSelection { entries }
    }

    /// Include or exclude this product (the `nationalExpress` query parameter).
    pub fn national_express(self, enabled: bool) -> (p: Self)
        ensures
            p@ == set_entry(self@, "nationalExpress"@, enabled),
    {
        self.set("nationalExpress".to_owned(), enabled)
    }

    /// Include or exclude this product (the `national` query parameter).
    pub fn national(self, enabled: bool) -> (p: Self)
        ensures
            p@ == set_entry(self@, "national"@, enabled),
    {
        self.set("national".to_owned(), enabled)
    }

    /// Include or exclude this product (the `regionalExpress` query parameter).
    pub fn regional_express(self, enabled: bool) -> (p: Self)
        ensures
            p@ == set_entry(self@, "regionalExpress"@, enabled),
    {
        self.set("regionalExpress".to_owned(), enabled)
    }

    /// Include or exclude this product (the `regional` query parameter).
    pub fn regional(self, enabled: bool) -> (p: Self)
        ensures
            p@ == set_entry(self@, "regional"@, enabled),
    {
        self.set("regional".to_owned(), enabled)
    }

    /// Include or exclude this product (the `suburban` query parameter).
    pub fn suburban(self, enabled: bool) -> (p: Self)
        ensures
            p@ == set_entry(self@, "suburban"@, enabled),
    {
        self.set("suburban".to_owned(), enabled)
    }

    /// Include or exclude this product (the `subway` query parameter).
    pub fn subway(self, enabled: bool) -> (p: Self)
        ensures
            p@ == set_entry(self@, "subway"@, enabled),
    {
        self.set("subway".to_owned(), enabled)
    }

    /// Include or exclude this product (the `tram` query parameter).
    pub fn tram(self, enabled: bool) -> (p: Self)
        ensures
            p@ == set_entry(self@, "tram"@, enabled),
    {
        self.set("tram".to_owned(), enabled)
    }

    /// Include or exclude this product (the `bus` query parameter).
    pub fn bus(self, enabled: bool) -> (p: Self)
        ensures
            p@ == set_entry(self@, "bus"@, enabled),
    {
        self.set("bus".to_owned(), enabled)
    }

    /// Include or exclude this product (the `ferry` query parameter).
    pub fn ferry(self, enabled: bool) -> (p: Self)
        ensures
            p@ == set_entry(self@, "ferry"@, enabled),
    {
        self.set("ferry".to_owned(), enabled)
    }

    /// Include or exclude this product (the `taxi` query parameter).
    pub fn taxi(self, enabled: bool) -> (p: Self)
        ensures
            p@ == set_entry(self@, "taxi"@, enabled),
    {
        self.set("taxi".to_owned(), enabled)
    }

    /// Include or exclude this product (the `express` query parameter).
    pub fn express(self, enabled: bool) -> (p: Self)
        ensures
            p@ == set_entry(self@, "express"@, enabled),
    {
        self.set("express".to_owned(), enabled)
    }

    /// All product keys commonly supported across providers.
    pub const KNOWN_KEYS: [&'static str; 11] = ["nationalExpress", "national", "regionalExpress", "regional", "suburban", "subway", "tram", "bus", "ferry", "taxi", "express"];

    /// Set an arbitrary (possibly provider-specific) product key.
    pub fn set(self, key: String, enabled: bool) -> (p: Self)
        ensures
            p@ == set_entry(self@, key@, enabled),
            keys_distinct(p@),
    {
        let mut s = self;
        s.set_internal(key, enabled);
        proof {
            use_type_invariant(&s);
        }
        s
    }

    fn set_internal(&mut self, key: String, enabled: bool)
        ensures
            final(self)@ == set_entry(old(self)@, key@, enabled),
    {
        proof {
            use_type_invariant(&*self);
            lemma_key_index(self@, key@);
        }
        let ghost es = self@;
        let n = self.entries.len();
        let mut i: usize = 0;
        while i < n
            invariant
                n == self.entries@.len(),
                es == self@,
                i <= n,
                forall|j: int| 0 <= j < i ==> es[j].0 != key@,
                keys_distinct(es),
                old(self)@ == es,
            decreases n - i,
        {
            if self.entries[i].0 == key {
                assert(es[i as int].0 == key@);
                proof {
                    lemma_key_index(es, key@);
                }
                assert(key_index(es, key@) == i);
                let mut entries: Vec<(String, bool)> = Vec::new();
                std::mem::swap(&mut entries, &mut self.entries);
                entries.set(i, (key, enabled));
                proof {
                    assert(entries@.map_values(|e: (String, bool)| (e.0@, e.1)) =~= es.update(
                        i as int,
                        (key@, enabled),
                    ));
                    let u = es.update(i as int, (key@, enabled));
                    assert forall|a: int| 0 <= a < u.len() implies #[trigger] u[a].0 == es[a].0 by {}
                    assert(keys_distinct(u));
                }
                self.entries = entries;
                assert(self@ =~= es.update(i as int, (key@, enabled)));
                return;
            }
            i = i + 1;
        }
        assert(key_index(es, key@) < 0);
        let mut entries: Vec<(String, bool)> = Vec::new();
        std::mem::swap(&mut entries, &mut self.entries);
        entries.push((key, enabled));
        proof {
            assert(entries@.map_values(|e: (String, bool)| (e.0@, e.1)) =~= es.push((key@, enabled)));
            assert(keys_distinct(es.push((key@, enabled))));
        }
        self.entries = entries;
    }

    /// Append the parameters of an optional selection (nothing when it is
    /// absent or empty).
    pub fn encode_opt(o: &Option<ProductSelection>, q: &mut Query)
        ensures
            final(q)@ == old(q)@ + products_params(*o),
    {
        if let Some(p) = o {
            if !p.is_empty() {
                p.encode(q);
            } else {
                assert(q@ =~= old(q)@ + products_params(*o));
            }
        } else {
            assert(q@ =~= old(q)@ + products_params(*o));
        }
    }

    /// True if nothing has been selected.
    pub fn is_empty(&self) -> (r: bool)
        ensures
            r == (self@.len() == 0),
    {
        self.entries.len() == 0
    }

    /// Append the selection to `q` as flat boolean parameters, in order.
    pub fn encode(&self, q: &mut Query)
        ensures
            final(q)@ == old(q)@ + product_params(self@),
    {
        let ghost q0 = q@;
        let n = self.entries.len();
        for i in 0..n
            invariant
                n == self.entries@.len(),
                q@ == q0 + product_params(self@).take(i as int),
        {
            let (k, v) = &self.entries[i];
            q.push(k.as_str(), bool_string(*v));
            assert(product_params(self@).take(i + 1) =~= product_params(self@).take(i as int).push(
                (k@, bool_text(*v)),
            ));
        }
        assert(product_params(self@).take(n as int) =~= product_params(self@));
    }
}


/// Where `k` ends up after setting it: the place of an existing entry,
/// else the end.
proof fn lemma_set_entry_index(es: Seq<(Seq<char>, bool)>, k: Seq<char>, v: bool)
    ensures
        key_index(set_entry(es, k, v), k) == if key_index(es, k) >= 0 {
            key_index(es, k)
        } else {
            es.len() as int
        },
        forall|a: int| 0 <= a < es.len() ==> #[trigger] set_entry(es, k, v)[a].0 == es[a].0,
        forall|a: int|
            0 <= a < es.len() && a != key_index(es, k) ==> #[trigger] set_entry(es, k, v)[a] == es[a],
        set_entry(es, k, v).len() == if key_index(es, k) >= 0 {
            es.len()
        } else {
            es.len() + 1
        },
{
    let r = set_entry(es, k, v);
    lemma_key_index(es, k);
    lemma_key_index(r, k);
    let j = key_index(es, k);
    let target = if j >= 0 {
        j
    } else {
        es.len() as int
    };
    assert(r[target].0 == k);
    let i = key_index(r, k);
    assert(i >= 0);
    if i < target {
        assert(r[i].0 == es[i].0);
    }
    if i > target {
        assert(r[target].0 == k);
    }
}

/// Setting a key records its value: a lookup of that key gives the value
/// just set, every other key keeps its value, and keys stay distinct.
pub proof fn law_set_then_lookup(es: Seq<(Seq<char>, bool)>, k: Seq<char>, v: bool, other: Seq<char>)
    requires
        keys_distinct(es),
    ensures
        lookup(set_entry(es, k, v), k) == Some(v),
        other != k ==> lookup(set_entry(es, k, v), other) == lookup(es, other),
        keys_distinct(set_entry(es, k, v)),
{
    let r = set_entry(es, k, v);
    lemma_set_entry_index(es, k, v);
    lemma_key_index(es, k);
    lemma_key_index(es, other);
    lemma_key_index(r, other);
    let j = key_index(es, k);
    if other != k {
        let i2 = key_index(r, other);
        let o2 = key_index(es, other);
        if o2 >= 0 {
            assert(r[o2].0 == other);
            if i2 >= 0 && i2 < o2 {
                assert(r[i2].0 == es[i2].0);
            }
            assert(i2 == o2);
            assert(o2 != j);
            assert(r[o2] == es[o2]);
        } else {
            if i2 >= 0 {
                if i2 < es.len() {
                    assert(r[i2].0 == es[i2].0);
                } else {
                    assert(r[i2].0 == k);
                }
            }
            assert(i2 < 0);
        }
    }
    assert forall|a: int, b: int| 0 <= a < b < r.len() implies #[trigger] r[a].0 != #[trigger] r[b].0 by {
        if b < es.len() {
            assert(r[a].0 == es[a].0 && r[b].0 == es[b].0);
        } else {
            assert(r[b].0 == k);
            assert(r[a].0 == es[a].0);
        }
    }
}

/// Setting the same key twice is setting it once to the last value.
pub proof fn law_set_twice(es: Seq<(Seq<char>, bool)>, k: Seq<char>, v1: bool, v2: bool)
    ensures
        set_entry(set_entry(es, k, v1), k, v2) == set_entry(es, k, v2),
{
    lemma_set_entry_index(es, k, v1);
    lemma_key_index(es, k);
    let r = set_entry(es, k, v1);
    let j = key_index(es, k);
    if j >= 0 {
        assert(r == es.update(j, (k, v1)));
        assert(set_entry(r, k, v2) == r.update(j, (k, v2)));
        assert(r.update(j, (k, v2)) =~= es.update(j, (k, v2)));
    } else {
        assert(r == es.push((k, v1)));
        assert(set_entry(r, k, v2) == r.update(es.len() as int, (k, v2)));
        assert(r.update(es.len() as int, (k, v2)) =~= es.push((k, v2)));
    }
}


/// What setting a key does to the entries: an entry with that key keeps
/// its place, takes the new value and the length stays; otherwise the
/// pair is appended. Keys stay distinct, and setting the same value again
/// changes nothing.
pub proof fn law_set_entry_shape(es: Seq<(Seq<char>, bool)>, k: Seq<char>, v: bool)
    requires
        keys_distinct(es),
    ensures
        keys_distinct(set_entry(es, k, v)),
        key_index(es, k) >= 0 ==> ({
            let j = key_index(es, k);
            &&& set_entry(es, k, v).len() == es.len()
            &&& set_entry(es, k, v)[j] == (k, v)
            &&& forall|a: int| 0 <= a < es.len() && a != j ==> #[trigger] set_entry(es, k, v)[a] == es[a]
        }),
        key_index(es, k) < 0 ==> set_entry(es, k, v) == es.push((k, v)),
        set_entry(set_entry(es, k, v), k, v) == set_entry(es, k, v),
{
    law_set_then_lookup(es, k, v, k);
    law_set_twice(es, k, v, v);
    lemma_key_index(es, k);
}

} // verus!
