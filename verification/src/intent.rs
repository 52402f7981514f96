//! Typed intents for agent actions.
//!
//! An intent describes what an agent wants to accomplish, decoupled from how
//! it is executed: a kind, structured parameters, an optional description and
//! the artifacts it is expected to produce.

use vstd::prelude::*;
use vstd::string::*;
use crate::json::JsonValue;

verus! {

/// Named parameters: each name has at most one value.
pub struct ParamMap {
    entries: Vec<(String, JsonValue)>,
}

/// Whether no two entries share a name.
pub open spec fn distinct_names(entries: Seq<(String, JsonValue)>) -> bool {
    forall|i: int, j: int|
        0 <= i < entries.len() && 0 <= j < entries.len() && i != j ==> #[trigger] entries[i].0@ != #[trigger] entries[j].0@
}

/// Whether some entry has the name `k`.
pub open spec fn has_name(entries: Seq<(String, JsonValue)>, k: Seq<char>) -> bool {
    exists|i: int| 0 <= i < entries.len() && #[trigger] entries[i].0@ == k
}

/// The entries as a map from names to values.
pub open spec fn entries_map(entries: Seq<(String, JsonValue)>) -> Map<Seq<char>, JsonValue> {
    Map::new(
        |k: Seq<char>| has_name(entries, k),
        |k: Seq<char>| entries[choose|i: int| 0 <= i < entries.len() && #[trigger] entries[i].0@ == k].1,
    )
}

impl View for ParamMap {
    type V = Map<Seq<char>, JsonValue>;

    closed spec fn view(&self) -> Map<Seq<char>, JsonValue> {
        entries_map(self.entries@)
    }
}

impl ParamMap {
    /// The map's invariant: no name occurs twice.
    pub closed spec fn wf(&self) -> bool {
        distinct_names(self.entries@)
    }

    /// An empty map.
    pub fn new() -> (r: ParamMap)
        ensures
            r.wf(),
            r@ == Map::<Seq<char>, JsonValue>::empty(),
    {
        let r = ParamMap { entries: Vec::new() };
        assert(r@ =~= Map::<Seq<char>, JsonValue>::empty());
        r
    }

    /// The number of names.
    pub fn len(&self) -> (n: usize)
        requires
            self.wf(),
        ensures
            n == self@.len(),
    {
        proof {
            self.lemma_len();
        }
        self.entries.len()
    }

    proof fn lemma_len(&self)
        requires
            self.wf(),
        ensures
            self@.dom().finite(),
            self@.len() == self.entries@.len(),
        decreases self.entries@.len(),
    {
        let e = self.entries@;
        let keys = Seq::new(e.len(), |i: int| e[i].0@);
        assert(keys.no_duplicates());
        assert(self@.dom() =~= keys.to_set()) by {
            assert forall|k| self@.dom().contains(k) implies keys.to_set().contains(k) by {
                let i = choose|i: int| 0 <= i < e.len() && #[trigger] e[i].0@ == k;
                assert(keys[i] == k);
            }
            assert forall|k| keys.to_set().contains(k) implies self@.dom().contains(k) by {
                let i = choose|i: int| 0 <= i < keys.len() && keys[i] == k;
                assert(e[i].0@ == k);
            }
        }
        keys.unique_seq_to_set();
    }

    /// The names that have values, each once.
    pub fn names(&self) -> (r: Vec<String>)
        requires
            self.wf(),
        ensures
            r@.len() == self@.len(),
            forall|k: Seq<char>| #[trigger] r.deep_view().contains(k) <==> self@.contains_key(k),
    {
        proof {
            self.lemma_len();
        }
        let mut r: Vec<String> = Vec::new();
        let mut i: usize = 0;
        while i < self.entries.len()
            invariant
                i <= self.entries@.len(),
                r@.len() == i,
                forall|j: int| 0 <= j < i ==> #[trigger] r@[j]@ == self.entries@[j].0@,
            decreases self.entries@.len() - i,
        {
            r.push(self.entries[i].0.clone());
            i += 1;
        }
        proof {
            let e = self.entries@;
            assert forall|k: Seq<char>| #[trigger] r.deep_view().contains(k) <==> self@.contains_key(k) by {
                if r.deep_view().contains(k) {
                    let j = choose|j: int| 0 <= j < r.deep_view().len() && r.deep_view()[j] == k;
                    assert(e[j].0@ == k);
                }
                if self@.contains_key(k) {
                    let j = choose|j: int| 0 <= j < e.len() && #[trigger] e[j].0@ == k;
                    assert(r.deep_view()[j] == k);
                }
            }
        }
        r
    }

    /// The value named `key`, if any.
    pub fn get(&self, key: &str) -> (r: Option<&JsonValue>)
        requires
            self.wf(),
        ensures
            match r {
                Some(v) => self@.contains_key(key@) && self@[key@] == *v,
                None => !self@.contains_key(key@),
            },
    {
        let wanted = String::from_str(key);
        let mut i: usize = 0;
        while i < self.entries.len()
            invariant
                i <= self.entries@.len(),
                wanted@ == key@,
                distinct_names(self.entries@),
                forall|j: int| 0 <= j < i ==> #[trigger] self.entries@[j].0@ != key@,
            decreases self.entries@.len() - i,
        {
            if self.entries[i].0 == wanted {
                proof {
                    let e = self.entries@;
                    assert(has_name(e, key@));
                    let c = choose|c: int| 0 <= c < e.len() && #[trigger] e[c].0@ == key@;
                    assert(c == i as int);
                }
                return Some(&self.entries[i].1);
            }
            i += 1;
        }
        None
    }

    /// Sets the value named `key`, replacing any earlier value of that name.
    pub fn insert(&mut self, key: String, value: JsonValue)
        requires
            old(self).wf(),
        ensures
            final(self).wf(),
            final(self)@ == old(self)@.insert(key@, value),
    {
        let ghost old_entries = self.entries@;
        let mut i: usize = 0;
        while i < self.entries.len()
            invariant
                self.entries@ == old_entries,
                old(self).entries@ == old_entries,
                distinct_names(old_entries),
                i <= old_entries.len(),
                forall|j: int| 0 <= j < i ==> #[trigger] old_entries[j].0@ != key@,
            decreases old_entries.len() - i,
        {
            if self.entries[i].0 == key {
                let ghost k = key@;
                self.entries.set(i, (key, value));
                proof {
                    let e = self.entries@;
                    assert(distinct_names(e));
                    assert forall|q| entries_map(e).dom().contains(q) <==> entries_map(old_entries).insert(k, value).dom().contains(q) by {
                        if has_name(old_entries, q) {
                            let c = choose|c: int| 0 <= c < old_entries.len() && #[trigger] old_entries[c].0@ == q;
                            assert(e[c].0@ == q);
                        }
                        if has_name(e, q) {
                            let c = choose|c: int| 0 <= c < e.len() && #[trigger] e[c].0@ == q;
                            assert(old_entries[c].0@ == q);
                        }
                    }
                    assert forall|q| #[trigger] entries_map(e).dom().contains(q) implies entries_map(e)[q] == entries_map(old_entries).insert(k, value)[q] by {
                        let c = choose|c: int| 0 <= c < e.len() && #[trigger] e[c].0@ == q;
                        if q != k {
                            let d = choose|d: int| 0 <= d < old_entries.len() && #[trigger] old_entries[d].0@ == q;
                            assert(c == d);
                        } else {
                            assert(c == i as int);
                        }
                    }
                    assert(entries_map(e) =~= entries_map(old_entries).insert(k, value));
                }
                return;
            }
            i += 1;
        }
        let ghost k = key@;
        self.entries.push((key, value));
        proof {
            let e = self.entries@;
            assert(e[old_entries.len() as int].0@ == k);
            assert(distinct_names(e));
            assert forall|q| entries_map(e).dom().contains(q) <==> entries_map(old_entries).insert(k, value).dom().contains(q) by {
                if has_name(old_entries, q) {
                    let c = choose|c: int| 0 <= c < old_entries.len() && #[trigger] old_entries[c].0@ == q;
                    assert(e[c].0@ == q);
                }
                if has_name(e, q) && q != k {
                    let c = choose|c: int| 0 <= c < e.len() && #[trigger] e[c].0@ == q;
                    assert(old_entries[c].0@ == q);
                }
            }
            assert forall|q| #[trigger] entries_map(e).dom().contains(q) implies entries_map(e)[q] == entries_map(old_entries).insert(k, value)[q] by {
                let c = choose|c: int| 0 <= c < e.len() && #[trigger] e[c].0@ == q;
                if q != k {
                    let d = choose|d: int| 0 <= d < old_entries.len() && #[trigger] old_entries[d].0@ == q;
                    assert(e[d].0@ == q);
                    assert(c == d);
                } else {
                    assert(c == old_entries.len() as int);
                }
            }
            assert(entries_map(e) =~= entries_map(old_entries).insert(k, value));
        }
    }
}

/// A typed intent describing an agent's desired action.
pub struct Intent {
    /// Intent type identifier (e.g., "web.navigate", "web.click", "app.open").
    pub kind: String,
    /// Structured parameters for this intent.
    pub params: ParamMap,
    /// Optional human-readable description of what this intent accomplishes.
    pub description: Option<String>,
    /// Artifacts that this intent is expected to produce.
    pub expected_artifacts: Vec<String>,
}

impl Intent {
    /// The intent's invariant: its parameters form a map.
    pub open spec fn wf(&self) -> bool {
        self.params.wf()
    }

    /// An intent of kind `kind` with no parameters, description or expected artifacts.
    pub fn new(kind: &str) -> (r: Intent)
        ensures
            r.wf(),
            r.kind@ == kind@,
            r.params@ == Map::<Seq<char>, JsonValue>::empty(),
            r.description is None,
            r.expected_artifacts@.len() == 0,
    {
        Intent {
            kind: String::from_str(kind),
            params: ParamMap::new(),
            description: None,
            expected_artifacts: Vec::new(),
        }
    }

    /// This intent with parameter `key` set to `value`.
    pub fn with_param(self, key: &str, value: JsonValue) -> (r: Intent)
        requires
            self.wf(),
        ensures
            r.wf(),
            r.kind == self.kind,
            r.params@ == self.params@.insert(key@, value),
            r.description == self.description,
            r.expected_artifacts == self.expected_artifacts,
    {
        let mut s = self;
        s.params.insert(String::from_str(key), value);
        s
    }

    /// This intent with description `desc`.
    pub fn with_description(self, desc: &str) -> (r: Intent)
        ensures
            r.kind == self.kind,
            r.params == self.params,
            r.description matches Some(d) && d@ == desc@,
            r.expected_artifacts == self.expected_artifacts,
    {
        let mut s = self;
        s.description = Some(String::from_str(desc));
        s
    }

    /// This intent with `artifact` appended to the expected artifacts.
    pub fn with_expected_artifact(self, artifact: &str) -> (r: Intent)
        ensures
            r.kind == self.kind,
            r.params == self.params,
            r.description == self.description,
            r.expected_artifacts@.len() == self.expected_artifacts@.len() + 1,
            r.expected_artifacts@.drop_last() == self.expected_artifacts@,
            r.expected_artifacts@.last()@ == artifact@,
    {
        let mut s = self;
        s.expected_artifacts.push(String::from_str(artifact));
        assert(s.expected_artifacts@.drop_last() =~= self.expected_artifacts@);
        s
    }
}

} // verus!
