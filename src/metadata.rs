//! Flat node properties: a map from keys to scalar or string-list values,
//! and their mapping to the parameters of the graph store.

use vstd::prelude::*;
use crate::edge::strings_view;

verus! {

/// A property value. There are no nested objects.
#[derive(Clone, Debug, PartialEq, Eq)]
pub enum MetaValue {
    Text(String),
    Integer(i64),
    Flag(bool),
    TextList(Vec<String>),
}

pub enum MetaValueView {
    Text(Seq<char>),
    Integer(int),
    Flag(bool),
    TextList(Seq<Seq<char>>),
}

impl View for MetaValue {
    type V = MetaValueView;

    open spec fn view(&self) -> MetaValueView {
        match self {
            MetaValue::Text(s) => MetaValueView::Text(s@),
            MetaValue::Integer(n) => MetaValueView::Integer(*n as int),
            MetaValue::Flag(b) => MetaValueView::Flag(*b),
            MetaValue::TextList(items) => MetaValueView::TextList(strings_view(items@)),
        }
    }
}

/// The map that a list of entries describes; a later entry wins.
pub open spec fn entries_map(s: Seq<(String, MetaValue)>) -> Map<Seq<char>, MetaValueView>
    decreases s.len(),
{
    if s.len() == 0 {
        Map::empty()
    } else {
        entries_map(s.drop_last()).insert(s.last().0@, s.last().1@)
    }
}

pub open spec fn keys_unique(s: Seq<(String, MetaValue)>) -> bool {
    forall|i: int, j: int| 0 <= i < j < s.len() ==> s[i].0@ != s[j].0@
}

proof fn lemma_entries_map_domain(s: Seq<(String, MetaValue)>, k: Seq<char>)
    ensures
        entries_map(s).dom().contains(k) <==> exists|i: int| 0 <= i < s.len() && s[i].0@ == k,
    decreases s.len(),
{
    if s.len() > 0 {
        lemma_entries_map_domain(s.drop_last(), k);
        if exists|i: int| 0 <= i < s.len() && s[i].0@ == k {
            let i = choose|i: int| 0 <= i < s.len() && s[i].0@ == k;
            if i < s.len() - 1 {
                assert(s.drop_last()[i].0@ == k);
            }
        }
    }
}

proof fn lemma_entries_map_lookup(s: Seq<(String, MetaValue)>, i: int)
    requires
        keys_unique(s),
        0 <= i < s.len(),
    ensures
        entries_map(s).dom().contains(s[i].0@),
        entries_map(s)[s[i].0@] == s[i].1@,
    decreases s.len(),
{
    if i < s.len() - 1 {
        lemma_entries_map_lookup(s.drop_last(), i);
    }
}

proof fn lemma_entries_map_update(s: Seq<(String, MetaValue)>, i: int, p: (String, MetaValue))
    requires
        keys_unique(s),
        0 <= i < s.len(),
        s[i].0@ == p.0@,
    ensures
        entries_map(s.update(i, p)) == entries_map(s).insert(p.0@, p.1@),
    decreases s.len(),
{
    let t = s.update(i, p);
    if i == s.len() - 1 {
        assert(t.drop_last() =~= s.drop_last());
        assert(entries_map(t) =~= entries_map(s).insert(p.0@, p.1@));
    } else {
        assert(t.drop_last() =~= s.drop_last().update(i, p));
        lemma_entries_map_update(s.drop_last(), i, p);
        assert(entries_map(t) =~= entries_map(s).insert(p.0@, p.1@));
    }
}

/// The properties of one node: each key at most once.
#[derive(Clone, Debug)]
pub struct Metadata {
    entries: Vec<(String, MetaValue)>,
}

impl View for Metadata {
    type V = Map<Seq<char>, MetaValueView>;

    closed spec fn view(&self) -> Map<Seq<char>, MetaValueView> {
        entries_map(self.entries@)
    }
}

impl Metadata {
    pub closed spec fn wf(&self) -> bool {
        keys_unique(self.entries@)
    }

    pub fn new() -> (r: Metadata)
        ensures
            r.wf(),
            r@ == Map::<Seq<char>, MetaValueView>::empty(),
    {
        Metadata { entries: Vec::new() }
    }

    /// Sets `key` to `value`, replacing what it held.
    pub fn insert(&mut self, key: String, value: MetaValue)
        requires
            old(self).wf(),
        ensures
            final(self).wf(),
            final(self)@ == old(self)@.insert(key@, value@),
    {
        let mut i: usize = 0;
        while i < self.entries.len()
            invariant
                0 <= i <= self.entries@.len(),
                self.entries@ == old(self).entries@,
                keys_unique(self.entries@),
                forall|j: int| 0 <= j < i ==> self.entries@[j].0@ != key@,
            decreases self.entries@.len() - i,
        {
            if self.entries[i].0 == key {
                let ghost s = self.entries@;
                proof {
                    lemma_entries_map_update(s, i as int, (key, value));
                }
                self.entries[i] = (key, value);
                assert(self.entries@ == s.update(i as int, (key, value)));
                return;
            }
            i = i + 1;
        }
        let ghost s = self.entries@;
        self.entries.push((key, value));
        assert(self.entries@.drop_last() =~= s);
    }

    /// Builds the entry from a key literal.
    pub fn insert_str(&mut self, key: &str, value: MetaValue)
        requires
            old(self).wf(),
        ensures
            final(self).wf(),
            final(self)@ == old(self)@.insert(key@, value@),
    {
        self.insert(String::from_str(key), value);
    }

    pub fn len(&self) -> (r: usize)
        requires
            self.wf(),
        ensures
            r == self@.len(),
    {
        proof {
            self.lemma_len();
        }
        self.entries.len()
    }

    proof fn lemma_len(&self)
        requires
            self.wf(),
        ensures
            self@.len() == self.entries@.len(),
    {
        let s = self.entries@;
        let keys = Set::new(|k: Seq<char>| exists|i: int| 0 <= i < s.len() && s[i].0@ == k);
        assert forall|k: Seq<char>| entries_map(s).dom().contains(k) <==> keys.contains(k) by {
            lemma_entries_map_domain(s, k);
        }
        assert(entries_map(s).dom() =~= keys);
        lemma_unique_keys_len(s);
    }

    pub fn get(&self, key: &str) -> (r: Option<&MetaValue>)
        requires
            self.wf(),
        ensures
            match r {
                Some(v) => self@.contains_key(key@) && self@[key@] == v@,
                None => !self@.contains_key(key@),
            },
    {
        let target = String::from_str(key);
        let mut i: usize = 0;
        while i < self.entries.len()
            invariant
                0 <= i <= self.entries@.len(),
                keys_unique(self.entries@),
                target@ == key@,
                forall|j: int| 0 <= j < i ==> self.entries@[j].0@ != key@,
            decreases self.entries@.len() - i,
        {
            if self.entries[i].0 == target {
                proof {
                    lemma_entries_map_lookup(self.entries@, i as int);
                }
                return Some(&self.entries[i].1);
            }
            i = i + 1;
        }
        proof {
            lemma_entries_map_domain(self.entries@, key@);
        }
        None
    }
}

/// The set of keys of a list with unique keys has as many members as the list.
proof fn lemma_unique_keys_len(s: Seq<(String, MetaValue)>)
    requires
        keys_unique(s),
    ensures
        Set::new(|k: Seq<char>| exists|i: int| 0 <= i < s.len() && s[i].0@ == k).len() == s.len(),
        Set::new(|k: Seq<char>| exists|i: int| 0 <= i < s.len() && s[i].0@ == k).finite(),
    decreases s.len(),
{
    let keys = Set::new(|k: Seq<char>| exists|i: int| 0 <= i < s.len() && s[i].0@ == k);
    if s.len() == 0 {
        assert(keys =~= Set::empty());
    } else {
        let t = s.drop_last();
        let rest = Set::new(|k: Seq<char>| exists|i: int| 0 <= i < t.len() && t[i].0@ == k);
        lemma_unique_keys_len(t);
        assert(keys =~= rest.insert(s.last().0@)) by {
            assert forall|k: Seq<char>| keys.contains(k) implies rest.insert(s.last().0@).contains(k) by {
                let i = choose|i: int| 0 <= i < s.len() && s[i].0@ == k;
                if i < s.len() - 1 {
                    assert(t[i].0@ == k);
                }
            }
            assert forall|k: Seq<char>| rest.insert(s.last().0@).contains(k) implies keys.contains(k) by {
                if k != s.last().0@ {
                    let i = choose|i: int| 0 <= i < t.len() && t[i].0@ == k;
                    assert(s[i].0@ == k);
                } else {
                    assert(s[s.len() - 1].0@ == k);
                }
            }
        }
        assert(!rest.contains(s.last().0@)) by {
            if rest.contains(s.last().0@) {
                let i = choose|i: int| 0 <= i < t.len() && t[i].0@ == s.last().0@;
                assert(s[i].0@ == s[s.len() - 1].0@);
            }
        }
    }
}

/// A value as the graph store receives it as a node property.
#[derive(Clone, Debug, PartialEq, Eq)]
pub enum StoreParam {
    Text(String),
    Integer(i64),
    Flag(bool),
}

pub enum StoreParamView {
    Text(Seq<char>),
    Integer(int),
    Flag(bool),
}

impl View for StoreParam {
    type V = StoreParamView;

    open spec fn view(&self) -> StoreParamView {
        match self {
            StoreParam::Text(s) => StoreParamView::Text(s@),
            StoreParam::Integer(n) => StoreParamView::Integer(*n as int),
            StoreParam::Flag(b) => StoreParamView::Flag(*b),
        }
    }
}

/// The JSON text of an array of strings, as serde_json prints it.
pub uninterp spec fn json_string_array(items: Seq<Seq<char>>) -> Seq<char>;

/// Relies on serde_json's `Display` of `Value::Array` of `Value::String`s:
/// the compact JSON text of the array, a function of the strings alone.
#[verifier::external_body]
fn json_array_text(items: &Vec<String>) -> (r: String)
    ensures
        r@ == json_string_array(strings_view(items@)),
{
    serde_json::Value::Array(items.iter().cloned().map(serde_json::Value::String).collect()).to_string()
}

/// Every property value maps to a store value; a string list is kept as its
/// JSON text rather than dropped.
pub open spec fn store_param_of(v: MetaValueView) -> StoreParamView {
    match v {
        MetaValueView::Text(s) => StoreParamView::Text(s),
        MetaValueView::Integer(n) => StoreParamView::Integer(n),
        MetaValueView::Flag(b) => StoreParamView::Flag(b),
        MetaValueView::TextList(items) => StoreParamView::Text(json_string_array(items)),
    }
}

pub fn to_store_param(v: &MetaValue) -> (r: StoreParam)
    ensures
        r@ == store_param_of(v@),
{
    match v {
        MetaValue::Text(s) => StoreParam::Text(s.clone()),
        MetaValue::Integer(n) => StoreParam::Integer(*n),
        MetaValue::Flag(b) => StoreParam::Flag(*b),
        MetaValue::TextList(items) => StoreParam::Text(json_array_text(items)),
    }
}

/// The map that a list of store parameters describes; a later entry wins.
pub open spec fn params_map(s: Seq<(String, StoreParam)>) -> Map<Seq<char>, StoreParamView>
    decreases s.len(),
{
    if s.len() == 0 {
        Map::empty()
    } else {
        params_map(s.drop_last()).insert(s.last().0@, s.last().1@)
    }
}

pub open spec fn param_keys_unique(s: Seq<(String, StoreParam)>) -> bool {
    forall|i: int, j: int| 0 <= i < j < s.len() ==> s[i].0@ != s[j].0@
}

impl Metadata {
    /// The properties as store parameters, each key once.
    pub fn store_params(&self) -> (r: Vec<(String, StoreParam)>)
        requires
            self.wf(),
        ensures
            param_keys_unique(r@),
            params_map(r@) == self@.map_values(|v: MetaValueView| store_param_of(v)),
    {
        let mut out: Vec<(String, StoreParam)> = Vec::new();
        let mut i: usize = 0;
        assert(self.entries@.subrange(0, 0) =~= Seq::<(String, MetaValue)>::empty());
        assert(params_map(out@) =~= entries_map(self.entries@.subrange(0, 0)).map_values(
            |v: MetaValueView| store_param_of(v),
        ));
        while i < self.entries.len()
            invariant
                0 <= i <= self.entries@.len(),
                keys_unique(self.entries@),
                out@.len() == i,
                forall|j: int| 0 <= j < i ==> #[trigger] out@[j].0@ == self.entries@[j].0@,
                params_map(out@) == entries_map(self.entries@.subrange(0, i as int)).map_values(
                    |v: MetaValueView| store_param_of(v),
                ),
            decreases self.entries@.len() - i,
        {
            let ghost prev = out@;
            let key = self.entries[i].0.clone();
            let param = to_store_param(&self.entries[i].1);
            out.push((key, param));
            let ghost done = self.entries@.subrange(0, i as int);
            let ghost next = self.entries@.subrange(0, i + 1);
            assert(next.drop_last() =~= done);
            assert(out@.drop_last() =~= prev);
            i = i + 1;
            assert(params_map(out@) =~= entries_map(next).map_values(
                |v: MetaValueView| store_param_of(v),
            ));
        }
        assert(self.entries@.subrange(0, i as int) =~= self.entries@);
        proof {
            lemma_param_keys_unique(out@, self.entries@);
        }
        out
    }
}

proof fn lemma_param_keys_unique(out: Seq<(String, StoreParam)>, entries: Seq<(String, MetaValue)>)
    requires
        keys_unique(entries),
        out.len() == entries.len(),
        forall|j: int| 0 <= j < out.len() ==> #[trigger] out[j].0@ == entries[j].0@,
    ensures
        param_keys_unique(out),
{
    assert forall|i: int, j: int| 0 <= i < j < out.len() implies out[i].0@ != out[j].0@ by {
        assert(out[i].0@ == entries[i].0@);
        assert(out[j].0@ == entries[j].0@);
    }
}

} // verus!
