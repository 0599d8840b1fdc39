//! The cache synchronizer: a cache file is a JSON object from identity keys
//! to encoded records, and an upsert overwrites or adds keys and rewrites it.
use vstd::prelude::*;
use crate::records::{TLGroundStation, TLSatellite};
use crate::text::{decimal_string, decimal_text};

verus! {

/// The JSON text of an object with these string members.
pub uninterp spec fn cache_json(entries: Map<Seq<char>, Seq<char>>) -> Seq<char>;

/// The string members of the JSON object `text`, if it is one.
pub uninterp spec fn cache_object(text: Seq<char>) -> Option<Map<Seq<char>, Seq<char>>>;

/// The map that the pairs describe, a later pair winning over an earlier one
/// with the same key.
pub open spec fn entries_map(s: Seq<(String, String)>) -> Map<Seq<char>, Seq<char>>
    decreases s.len(),
{
    if s.len() == 0 {
        Map::empty()
    } else {
        entries_map(s.drop_last()).insert(s.last().0@, s.last().1@)
    }
}

pub open spec fn unique_keys(s: Seq<(String, String)>) -> bool {
    forall|i: int, j: int| 0 <= i < j < s.len() ==> #[trigger] s[i].0@ != #[trigger] s[j].0@
}

/// What a cache holds after loading `text`: nothing when the file is absent
/// or is not a JSON object of strings.
pub open spec fn loaded(text: Option<Seq<char>>) -> Map<Seq<char>, Seq<char>> {
    match text {
        Some(t) => match cache_object(t) {
            Some(m) => m,
            None => Map::empty(),
        },
        None => Map::empty(),
    }
}

/// Relies on `serde_json::to_string` of a `BTreeMap<&String, &String>`: the
/// JSON object of the map, keys in order. The keys are distinct, so the map
/// holds every pair; serializing string keys and values cannot fail.
#[verifier::external_body]
fn encode_object(entries: &Vec<(String, String)>) -> (r: String)
    requires
        unique_keys(entries@),
    ensures
        r@ == cache_json(entries_map(entries@)),
{
    let map: std::collections::BTreeMap<&String, &String> = entries.iter().map(|(k, v)| (k, v)).collect();
    serde_json::to_string(&map).unwrap_or_default()
}

/// Relies on `serde_json::from_str` into a `BTreeMap<String, String>`: the
/// members of a JSON object of strings, or an error for any other text.
#[verifier::external_body]
fn decode_object(text: &str) -> (r: Option<Vec<(String, String)>>)
    ensures
        r is None <==> cache_object(text@) is None,
        r is Some ==> cache_object(text@) == Some(entries_map(r.unwrap()@)),
{
    match serde_json::from_str::<std::collections::BTreeMap<String, String>>(text) {
        Ok(m) => Some(m.into_iter().collect()),
        Err(_) => None,
    }
}

proof fn lemma_entries_domain(s: Seq<(String, String)>, key: Seq<char>)
    ensures
        entries_map(s).contains_key(key) <==> exists|j: int| 0 <= j < s.len() && #[trigger] s[j].0@ == key,
    decreases s.len(),
{
    if s.len() > 0 {
        lemma_entries_domain(s.drop_last(), key);
        if entries_map(s.drop_last()).contains_key(key) {
            let j = choose|j: int| 0 <= j < s.drop_last().len() && #[trigger] s.drop_last()[j].0@ == key;
            assert(s[j].0@ == key);
        }
        if exists|j: int| 0 <= j < s.len() && #[trigger] s[j].0@ == key {
            let j = choose|j: int| 0 <= j < s.len() && #[trigger] s[j].0@ == key;
            if j < s.len() - 1 {
                assert(s.drop_last()[j].0@ == key);
            }
        }
    }
}

proof fn lemma_entries_value(s: Seq<(String, String)>, i: int)
    requires
        unique_keys(s),
        0 <= i < s.len(),
    ensures
        entries_map(s).contains_key(s[i].0@),
        entries_map(s)[s[i].0@] == s[i].1@,
    decreases s.len(),
{
    if i < s.len() - 1 {
        let t = s.drop_last();
        assert(t[i] == s[i]);
        assert(unique_keys(t)) by {
            assert forall|a: int, b: int| 0 <= a < b < t.len() implies #[trigger] t[a].0@ != #[trigger] t[b].0@ by {
                assert(t[a] == s[a] && t[b] == s[b]);
            }
        }
        lemma_entries_value(t, i);
        assert(s[i].0@ != s.last().0@);
    }
}

/// `entries` with the pair at `i` replaced.
fn replaced(entries: &Vec<(String, String)>, i: usize, key: String, value: String) -> (r: Vec<(String, String)>)
    requires
        i < entries@.len(),
    ensures
        r@ == entries@.update(i as int, (key, value)),
{
    let mut r: Vec<(String, String)> = Vec::new();
    let mut j: usize = 0;
    while j < i
        invariant
            j <= i < entries@.len(),
            r@ == entries@.take(j as int),
        decreases i - j,
    {
        r.push((entries[j].0.clone(), entries[j].1.clone()));
        proof {
            assert(r@ =~= entries@.take(j + 1));
        }
        j = j + 1;
    }
    let n = entries.len();
    r.push((key, value));
    j = j + 1;
    while j < n
        invariant
            i < j <= entries@.len(),
            n == entries@.len(),
            r@ == entries@.update(i as int, (key, value)).take(j as int),
        decreases entries@.len() - j,
    {
        r.push((entries[j].0.clone(), entries[j].1.clone()));
        proof {
            assert(r@ =~= entries@.update(i as int, (key, value)).take(j + 1));
        }
        j = j + 1;
    }
    proof {
        assert(r@ =~= entries@.update(i as int, (key, value)));
    }
    r
}

/// `entries` with one more pair at the end.
fn appended(entries: &Vec<(String, String)>, key: String, value: String) -> (r: Vec<(String, String)>)
    ensures
        r@ == entries@.push((key, value)),
{
    let mut r: Vec<(String, String)> = Vec::new();
    let mut j: usize = 0;
    while j < entries.len()
        invariant
            j <= entries@.len(),
            r@ == entries@.take(j as int),
        decreases entries@.len() - j,
    {
        r.push((entries[j].0.clone(), entries[j].1.clone()));
        proof {
            assert(r@ =~= entries@.take(j + 1));
        }
        j = j + 1;
    }
    r.push((key, value));
    proof {
        assert(r@ =~= entries@.push((key, value)));
    }
    r
}

/// A cache: each key once, with its encoded record.
pub struct CacheMap {
    entries: Vec<(String, String)>,
}

impl View for CacheMap {
    type V = Map<Seq<char>, Seq<char>>;

    closed spec fn view(&self) -> Map<Seq<char>, Seq<char>> {
        entries_map(self.entries@)
    }
}

impl CacheMap {
    #[verifier::type_invariant]
    spec fn keys_unique(self) -> bool {
        unique_keys(self.entries@)
    }

    /// The empty cache.
    pub fn new() -> (r: CacheMap)
        ensures
            r@ == Map::<Seq<char>, Seq<char>>::empty(),
    {
        CacheMap { entries: Vec::new() }
    }

    /// Sets `key` to `value`, replacing the value it had.
    pub fn upsert(&mut self, key: String, value: String)
        ensures
            final(self)@ == old(self)@.insert(key@, value@),
    {
        proof {
            use_type_invariant(&*self);
        }
        let ghost old_entries = self.entries@;
        let mut i: usize = 0;
        while i < self.entries.len()
            invariant
                i <= self.entries@.len(),
                self.entries@ == old_entries,
                old(self).entries@ == old_entries,
                unique_keys(old_entries),
                forall|j: int| 0 <= j < i ==> #[trigger] old_entries[j].0@ != key@,
            decreases self.entries@.len() - i,
        {
            if self.entries[i].0 == key {
                let ghost k = key@;
                let ghost v = value@;
                let ghost s = old_entries.update(i as int, (key, value));
                proof {
                    assert(unique_keys(s)) by {
                        assert forall|a: int, b: int| 0 <= a < b < s.len() implies #[trigger] s[a].0@ != #[trigger] s[b].0@ by {
                            if a == i {
                                assert(s[b] == old_entries[b]);
                                assert(old_entries[a].0@ != old_entries[b].0@);
                            } else if b == i {
                                assert(s[a] == old_entries[a]);
                                assert(old_entries[a].0@ != old_entries[b].0@);
                            } else {
                                assert(s[a] == old_entries[a] && s[b] == old_entries[b]);
                            }
                        }
                    }
                    assert(entries_map(s) =~= entries_map(old_entries).insert(k, v)) by {
                        assert forall|q: Seq<char>| #[trigger] entries_map(s).contains_key(q)
                            == entries_map(old_entries).insert(k, v).contains_key(q) by {
                            lemma_entries_domain(s, q);
                            lemma_entries_domain(old_entries, q);
                            assert(s[i as int].0@ == k);
                            assert(old_entries[i as int].0@ == k);
                            if exists|j: int| 0 <= j < old_entries.len() && #[trigger] old_entries[j].0@ == q {
                                let j = choose|j: int| 0 <= j < old_entries.len() && #[trigger] old_entries[j].0@ == q;
                                if j != i {
                                    assert(s[j] == old_entries[j]);
                                    assert(s[j].0@ == q);
                                }
                                assert(entries_map(s).contains_key(q));
                            }
                            if exists|j: int| 0 <= j < s.len() && #[trigger] s[j].0@ == q {
                                let j = choose|j: int| 0 <= j < s.len() && #[trigger] s[j].0@ == q;
                                if j != i {
                                    assert(s[j] == old_entries[j]);
                                    assert(old_entries[j].0@ == q);
                                }
                                assert(entries_map(old_entries).insert(k, v).contains_key(q));
                            }
                        }
                        assert forall|q: Seq<char>| #[trigger] entries_map(s).contains_key(q) implies
                            entries_map(s)[q] == entries_map(old_entries).insert(k, v)[q] by {
                            lemma_entries_domain(s, q);
                            let j = choose|j: int| 0 <= j < s.len() && #[trigger] s[j].0@ == q;
                            lemma_entries_value(s, j);
                            if j != i {
                                assert(s[j] == old_entries[j]);
                                lemma_entries_value(old_entries, j);
                            }
                        }
                    }
                }
                let entries = replaced(&self.entries, i, key, value);
                self.entries = entries;
                proof {
                    assert(self.entries@ == s);
                    assert(old(self).entries@ == old_entries);
                    assert(entries_map(s) == entries_map(old_entries).insert(k, v));
                }
                return;
            }
            i = i + 1;
        }
        let ghost k = key@;
        let ghost v = value@;
        let entries = appended(&self.entries, key, value);
        proof {
            let s = entries@;
            assert(s.drop_last() =~= old_entries);
            assert forall|a: int, b: int| 0 <= a < b < s.len() implies #[trigger] s[a].0@ != #[trigger] s[b].0@ by {
                if b == s.len() - 1 {
                    assert(s[a] == old_entries[a]);
                    assert(old_entries[a].0@ != key@);
                } else {
                    assert(s[a] == old_entries[a] && s[b] == old_entries[b]);
                    assert(old_entries[a].0@ != old_entries[b].0@);
                }
            }
        }
        self.entries = entries;
    }

    /// Upserts every pair in order: the cache then agrees with the pairs on
    /// their keys, the last pair of a key winning, and is unchanged elsewhere.
    pub fn upsert_all(&mut self, entries: Vec<(String, String)>)
        ensures
            final(self)@ == old(self)@.union_prefer_right(entries_map(entries@)),
    {
        let ghost start = self@;
        let ghost all = entries@;
        let mut rest = entries;
        let ghost mut added: Seq<(String, String)> = Seq::empty();
        proof {
            assert(start.union_prefer_right(entries_map(added)) =~= start);
        }
        // Take the pairs from the front by reversing once.
        let mut reversed: Vec<(String, String)> = Vec::new();
        while rest.len() > 0
            invariant
                rest@ + reversed@.reverse() == all,
            decreases rest@.len(),
        {
            let ghost before_rest = rest@;
            let ghost before_rev = reversed@;
            let p = rest.pop().unwrap();
            reversed.push(p);
            proof {
                assert(reversed@.reverse() =~= seq![before_rest.last()] + before_rev.reverse());
                assert(rest@ + reversed@.reverse() =~= before_rest + before_rev.reverse());
            }
        }
        proof {
            assert(reversed@.reverse() =~= all);
        }
        while reversed.len() > 0
            invariant
                added + reversed@.reverse() == all,
                self@ == start.union_prefer_right(entries_map(added)),
            decreases reversed@.len(),
        {
            let ghost before_added = added;
            let ghost before_rev = reversed@;
            let (k, v) = reversed.pop().unwrap();
            proof {
                added = added.push((k, v));
            }
            self.upsert(k, v);
            proof {
                assert(added.drop_last() =~= before_added);
                assert(before_rev.reverse() =~= seq![before_rev.last()] + reversed@.reverse());
                assert(added + reversed@.reverse() =~= before_added + before_rev.reverse());
                assert(self@ =~= start.union_prefer_right(entries_map(added)));
            }
        }
        proof {
            assert(added =~= all);
        }
    }

    /// A cache holding the pairs, the last of a repeated key winning; empty for `None`.
    pub fn from_entries(entries: Option<Vec<(String, String)>>) -> (r: CacheMap)
        ensures
            r@ == match entries {
                Some(v) => entries_map(v@),
                None => Map::empty(),
            },
    {
        let mut r = CacheMap::new();
        if let Some(v) = entries {
            let ghost vv = v@;
            r.upsert_all(v);
            proof {
                assert(Map::<Seq<char>, Seq<char>>::empty().union_prefer_right(entries_map(vv)) =~= entries_map(vv));
            }
        }
        r
    }

    /// The cache a file holds; an absent or unreadable file gives the empty cache.
    pub fn load(text: Option<&str>) -> (r: CacheMap)
        ensures
            r@ == loaded(match text { Some(t) => Some(t@), None => None }),
    {
        match text {
            Some(t) => CacheMap::from_entries(decode_object(t)),
            None => CacheMap::new(),
        }
    }

    /// The file text of the cache.
    pub fn to_json(&self) -> (r: String)
        ensures
            r@ == cache_json(self@),
    {
        proof {
            use_type_invariant(self);
        }
        encode_object(&self.entries)
    }

    pub fn contains_key(&self, key: &str) -> (r: bool)
        ensures
            r == self@.contains_key(key@),
    {
        let k = String::from_str(key);
        let mut i: usize = 0;
        while i < self.entries.len()
            invariant
                i <= self.entries@.len(),
                k@ == key@,
                forall|j: int| 0 <= j < i ==> #[trigger] self.entries@[j].0@ != key@,
            decreases self.entries@.len() - i,
        {
            if self.entries[i].0 == k {
                proof {
                    lemma_entries_domain(self.entries@, key@);
                }
                return true;
            }
            i = i + 1;
        }
        proof {
            lemma_entries_domain(self.entries@, key@);
        }
        false
    }

    /// The encoded records, each key's once.
    pub fn values(&self) -> (r: Vec<String>)
        ensures
            r@.len() == self@.dom().len(),
            forall|i: int| 0 <= i < r@.len() ==> #[trigger] self@.contains_value(r@[i]@),
            forall|k: Seq<char>| #[trigger] self@.contains_key(k) ==> exists|i: int| 0 <= i < r@.len() && r@[i]@ == self@[k],
    {
        proof {
            use_type_invariant(self);
        }
        let mut r: Vec<String> = Vec::new();
        let mut i: usize = 0;
        while i < self.entries.len()
            invariant
                i <= self.entries@.len(),
                unique_keys(self.entries@),
                r@.len() == i,
                forall|j: int| 0 <= j < i ==> #[trigger] r@[j] == self.entries@[j].1,
            decreases self.entries@.len() - i,
        {
            r.push(self.entries[i].1.clone());
            i = i + 1;
        }
        proof {
            let s = self.entries@;
            assert forall|j: int| 0 <= j < r@.len() implies #[trigger] self@.contains_value(r@[j]@) by {
                lemma_entries_value(s, j);
                let k = s[j].0@;
                assert(self@.contains_key(k) && self@[k] == r@[j]@);
            }
            assert forall|k: Seq<char>| #[trigger] self@.contains_key(k) implies exists|j: int| 0 <= j < r@.len() && r@[j]@ == self@[k] by {
                lemma_entries_domain(s, k);
                let j = choose|j: int| 0 <= j < s.len() && #[trigger] s[j].0@ == k;
                lemma_entries_value(s, j);
                assert(r@[j]@ == self@[k]);
            }
            lemma_unique_domain_len(s);
        }
        r
    }
}

proof fn lemma_unique_domain_len(s: Seq<(String, String)>)
    requires
        unique_keys(s),
    ensures
        entries_map(s).dom().len() == s.len(),
        entries_map(s).dom().finite(),
    decreases s.len(),
{
    if s.len() > 0 {
        let t = s.drop_last();
        assert(unique_keys(t)) by {
            assert forall|a: int, b: int| 0 <= a < b < t.len() implies #[trigger] t[a].0@ != #[trigger] t[b].0@ by {
                assert(t[a] == s[a] && t[b] == s[b]);
            }
        }
        lemma_unique_domain_len(t);
        lemma_entries_domain(t, s.last().0@);
        if entries_map(t).contains_key(s.last().0@) {
            let j = choose|j: int| 0 <= j < t.len() && #[trigger] t[j].0@ == s.last().0@;
            assert(s[j].0@ != s[s.len() - 1].0@);
        }
        assert(entries_map(s).dom() =~= entries_map(t).dom().insert(s.last().0@));
    }
}

/// The cache file after upserting `entries` into the file `current`.
pub fn upsert_text(current: Option<&str>, entries: Vec<(String, String)>) -> (r: String)
    ensures
        r@ == cache_json(
            loaded(match current { Some(t) => Some(t@), None => None }).union_prefer_right(entries_map(entries@)),
        ),
{
    let mut cache = CacheMap::load(current);
    cache.upsert_all(entries);
    cache.to_json()
}

/// Upserting the same records a second time changes nothing: the merged
/// contents, and so the file text written from them, are those of one upsert.
pub proof fn lemma_upsert_idempotent(current: Map<Seq<char>, Seq<char>>, entries: Seq<(String, String)>)
    ensures
        current.union_prefer_right(entries_map(entries)).union_prefer_right(entries_map(entries))
            == current.union_prefer_right(entries_map(entries)),
        cache_json(current.union_prefer_right(entries_map(entries)).union_prefer_right(entries_map(entries)))
            == cache_json(current.union_prefer_right(entries_map(entries))),
{
    let once = current.union_prefer_right(entries_map(entries));
    assert(once.union_prefer_right(entries_map(entries)) =~= once);
}

/// The cache key of a ground station: its name.
pub fn station_key(station: &TLGroundStation) -> (r: String)
    ensures
        r@ == station.station.name@,
{
    station.station.name.clone()
}

/// The cache key of a satellite: its NORAD catalog number in decimal.
pub fn satellite_key(sat: &TLSatellite) -> (r: String)
    ensures
        r@ == decimal_text(sat.satellite.norad_id as nat),
{
    decimal_string(sat.satellite.norad_id)
}

/// Pairs each station's key with its encoded record.
pub fn station_entries(stations: &Vec<TLGroundStation>, encoded: Vec<String>) -> (r: Vec<(String, String)>)
    requires
        stations@.len() == encoded@.len(),
    ensures
        r@.len() == stations@.len(),
        forall|i: int| 0 <= i < r@.len() ==> #[trigger] r@[i].0@ == stations@[i].station.name@ && r@[i].1 == encoded@[i],
{
    let mut r: Vec<(String, String)> = Vec::new();
    let mut i: usize = 0;
    while i < stations.len()
        invariant
            i <= stations@.len(),
            stations@.len() == encoded@.len(),
            r@.len() == i,
            forall|j: int| 0 <= j < i ==> #[trigger] r@[j].0@ == stations@[j].station.name@ && r@[j].1 == encoded@[j],
        decreases stations@.len() - i,
    {
        let ghost before = r@;
        let key = station_key(&stations[i]);
        let value = encoded[i].clone();
        assert(key@ == stations@[i as int].station.name@);
        assert(value == encoded@[i as int]);
        r.push((key, value));
        assert(r@[i as int].0@ == stations@[i as int].station.name@);
        proof {
            assert forall|j: int| 0 <= j < i + 1 implies #[trigger] r@[j].0@ == stations@[j].station.name@ && r@[j].1 == encoded@[j] by {
                if j < i {
                    assert(r@[j] == before[j]);
                }
            }
        }
        i = i + 1;
    }
    r
}

/// Pairs each satellite's key with its encoded record.
pub fn satellite_entries(sats: &Vec<TLSatellite>, encoded: Vec<String>) -> (r: Vec<(String, String)>)
    requires
        sats@.len() == encoded@.len(),
    ensures
        r@.len() == sats@.len(),
        forall|i: int| 0 <= i < r@.len() ==> #[trigger] r@[i].0@ == decimal_text(sats@[i].satellite.norad_id as nat)
            && r@[i].1 == encoded@[i],
{
    let mut r: Vec<(String, String)> = Vec::new();
    let mut i: usize = 0;
    while i < sats.len()
        invariant
            i <= sats@.len(),
            sats@.len() == encoded@.len(),
            r@.len() == i,
            forall|j: int| 0 <= j < i ==> #[trigger] r@[j].0@ == decimal_text(sats@[j].satellite.norad_id as nat)
                && r@[j].1 == encoded@[j],
        decreases sats@.len() - i,
    {
        let ghost before = r@;
        let key = satellite_key(&sats[i]);
        let value = encoded[i].clone();
        let ghost kk = key@;
        assert(kk == decimal_text(sats@[i as int].satellite.norad_id as nat));
        assert(value == encoded@[i as int]);
        r.push((key, value));
        assert(r@[i as int].0@ == kk);
        proof {
            assert forall|j: int| 0 <= j < i + 1 implies #[trigger] r@[j].0@ == decimal_text(sats@[j].satellite.norad_id as nat) && r@[j].1 == encoded@[j] by {
                if j < i {
                    assert(r@[j] == before[j]);
                } else {
                    assert(j == i);
                    assert(r@[j].0@ == kk);
                    assert(r@[j].1 == encoded@[j]);
                    assert(kk == decimal_text(sats@[j].satellite.norad_id as nat));
                }
            }
        }
        i = i + 1;
    }
    r
}

} // verus!
