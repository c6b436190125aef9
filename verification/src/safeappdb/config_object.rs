//! Free-form configuration objects: a type name, an optional sub-type, and a
//! map from keys to scalar values.
use vstd::prelude::*;

verus! {

/// A scalar configuration value. A floating-point value is held as its
/// IEEE-754 bit pattern.
#[derive(Debug)]
pub enum ConfigValue {
    Bool(bool),
    Int(i64),
    Float(u64),
    String(String),
}

impl Clone for ConfigValue {
    fn clone(&self) -> (r: Self)
        ensures
            r == *self,
    {
        match self {
            ConfigValue::Bool(b) => ConfigValue::Bool(*b),
            ConfigValue::Int(v) => ConfigValue::Int(*v),
            ConfigValue::Float(bits) => ConfigValue::Float(*bits),
            ConfigValue::String(s) => ConfigValue::String(s.clone()),
        }
    }
}

/// A map from keys to configuration values in which no key occurs twice.
#[derive(Debug)]
pub struct ConfigMap {
    entries: Vec<(String, ConfigValue)>,
}

/// No key occurs twice in `entries`.
pub open spec fn keys_distinct(entries: Seq<(String, ConfigValue)>) -> bool {
    forall|i: int, j: int|
        0 <= i < entries.len() && 0 <= j < entries.len() && i != j ==> #[trigger] entries[i].0@
            != #[trigger] entries[j].0@
}

/// Whether some entry has key `k`.
pub open spec fn has_key(entries: Seq<(String, ConfigValue)>, k: Seq<char>) -> bool {
    exists|i: int| 0 <= i < entries.len() && #[trigger] entries[i].0@ == k
}

/// The map that a list of entries stands for.
pub open spec fn entries_map(entries: Seq<(String, ConfigValue)>) -> Map<Seq<char>, ConfigValue> {
    Map::new(
        |k: Seq<char>| has_key(entries, k),
        |k: Seq<char>| entries[choose|i: int| 0 <= i < entries.len() && #[trigger] entries[i].0@ == k].1,
    )
}

/// With distinct keys, the entry at `i` is what the map holds for its key.
proof fn lemma_entry_in_map(entries: Seq<(String, ConfigValue)>, i: int)
    requires
        keys_distinct(entries),
        0 <= i < entries.len(),
    ensures
        entries_map(entries).contains_key(entries[i].0@),
        entries_map(entries)[entries[i].0@] == entries[i].1,
{
    let k = entries[i].0@;
    assert(has_key(entries, k));
    let j = choose|j: int| 0 <= j < entries.len() && #[trigger] entries[j].0@ == k;
    assert(j == i);
}

/// Replacing the entry at `i` by one with the same key moved to the end
/// updates the map at that key.
proof fn lemma_remove_then_push(before: Seq<(String, ConfigValue)>, i: int, after: Seq<(String, ConfigValue)>)
    requires
        keys_distinct(before),
        keys_distinct(after),
        0 <= i < before.len(),
        after.len() == before.len(),
        after.last().0@ == before[i].0@,
        forall|a: int| 0 <= a < i ==> after[a] == before[a],
        forall|a: int| i <= a < after.len() - 1 ==> after[a] == before[a + 1],
    ensures
        entries_map(after) == entries_map(before).insert(after.last().0@, after.last().1),
{
    let k = after.last().0@;
    let m = entries_map(before).insert(k, after.last().1);
    assert forall|key: Seq<char>| has_key(after, key) <==> m.contains_key(key) by {
        if has_key(after, key) {
            let a = choose|a: int| 0 <= a < after.len() && #[trigger] after[a].0@ == key;
            if a < i {
                assert(before[a].0@ == key);
            } else if a < after.len() - 1 {
                assert(before[a + 1].0@ == key);
            }
        }
        if m.contains_key(key) && key != k {
            let b = choose|b: int| 0 <= b < before.len() && #[trigger] before[b].0@ == key;
            if b < i {
                assert(after[b].0@ == key);
            } else if b > i {
                assert(after[b - 1].0@ == key);
            }
        }
        if key == k {
            assert(after[after.len() - 1].0@ == key);
        }
    }
    assert forall|key: Seq<char>| #[trigger] m.contains_key(key) implies entries_map(after)[key] == m[key] by {
        assert(has_key(after, key));
        let a = choose|a: int| 0 <= a < after.len() && #[trigger] after[a].0@ == key;
        lemma_entry_in_map(after, a);
        if key == k {
            lemma_entry_in_map(after, after.len() - 1);
        } else if a < i {
            lemma_entry_in_map(before, a);
        } else {
            assert(a < after.len() - 1);
            lemma_entry_in_map(before, a + 1);
        }
    }
    assert(entries_map(after) =~= m);
}

/// Appending an entry whose key is new updates the map at that key.
proof fn lemma_push_new_key(before: Seq<(String, ConfigValue)>, after: Seq<(String, ConfigValue)>)
    requires
        keys_distinct(before),
        after.len() == before.len() + 1,
        after.drop_last() == before,
        !has_key(before, after.last().0@),
    ensures
        keys_distinct(after),
        entries_map(after) == entries_map(before).insert(after.last().0@, after.last().1),
{
    let k = after.last().0@;
    assert forall|a: int, b: int|
        0 <= a < after.len() && 0 <= b < after.len() && a != b implies
        #[trigger] after[a].0@ != #[trigger] after[b].0@ by {
        if a < before.len() && b < before.len() {
            assert(after[a] == before[a] && after[b] == before[b]);
        } else if a < before.len() {
            assert(after[a] == before[a]);
        } else {
            assert(after[b] == before[b]);
        }
    }
    let m = entries_map(before).insert(k, after.last().1);
    assert forall|key: Seq<char>| has_key(after, key) <==> m.contains_key(key) by {
        if has_key(after, key) && key != k {
            let a = choose|a: int| 0 <= a < after.len() && #[trigger] after[a].0@ == key;
            assert(after[a] == before[a]);
        }
        if m.contains_key(key) && key != k {
            let b = choose|b: int| 0 <= b < before.len() && #[trigger] before[b].0@ == key;
            assert(after[b] == before[b]);
        }
        if key == k {
            assert(after[after.len() - 1].0@ == key);
        }
    }
    assert forall|key: Seq<char>| #[trigger] m.contains_key(key) implies entries_map(after)[key] == m[key] by {
        let a = choose|a: int| 0 <= a < after.len() && #[trigger] after[a].0@ == key;
        lemma_entry_in_map(after, a);
        if key != k {
            assert(after[a] == before[a]);
            lemma_entry_in_map(before, a);
        } else {
            lemma_entry_in_map(after, after.len() - 1);
        }
    }
    assert(entries_map(after) =~= m);
}

/// With distinct keys, the map has as many keys as there are entries.
proof fn lemma_entries_len(entries: Seq<(String, ConfigValue)>)
    requires
        keys_distinct(entries),
    ensures
        entries_map(entries).dom().finite(),
        entries_map(entries).len() == entries.len(),
    decreases entries.len(),
{
    if entries.len() == 0 {
        assert(entries_map(entries).dom() =~= Set::<Seq<char>>::empty());
    } else {
        let rest = entries.drop_last();
        assert forall|a: int, b: int|
            0 <= a < rest.len() && 0 <= b < rest.len() && a != b implies
            #[trigger] rest[a].0@ != #[trigger] rest[b].0@ by {
            assert(rest[a] == entries[a] && rest[b] == entries[b]);
        }
        lemma_entries_len(rest);
        let k = entries.last().0@;
        if has_key(rest, k) {
            let a = choose|a: int| 0 <= a < rest.len() && #[trigger] rest[a].0@ == k;
            assert(entries[a] == rest[a]);
            assert(entries[entries.len() - 1].0@ == k);
        }
        assert(entries_map(entries).dom() =~= entries_map(rest).dom().insert(k)) by {
            assert forall|key: Seq<char>| #[trigger] entries_map(entries).dom().contains(key) implies
                entries_map(rest).dom().insert(k).contains(key) by {
                let a = choose|a: int| 0 <= a < entries.len() && #[trigger] entries[a].0@ == key;
                if a < rest.len() {
                    assert(rest[a] == entries[a]);
                }
            }
            assert forall|key: Seq<char>| #[trigger] entries_map(rest).dom().insert(k).contains(key) implies
                entries_map(entries).dom().contains(key) by {
                if key == k {
                    assert(entries[entries.len() - 1].0@ == key);
                } else {
                    let a = choose|a: int| 0 <= a < rest.len() && #[trigger] rest[a].0@ == key;
                    assert(rest[a] == entries[a]);
                }
            }
        }
    }
}

impl View for ConfigMap {
    type V = Map<Seq<char>, ConfigValue>;

    closed spec fn view(&self) -> Map<Seq<char>, ConfigValue> {
        entries_map(self.entries@)
    }
}

impl ConfigMap {
    #[verifier::type_invariant]
    spec fn inv(self) -> bool {
        keys_distinct(self.entries@)
    }

    /// An empty map.
    pub fn new() -> (m: ConfigMap)
        ensures
            m@ == Map::<Seq<char>, ConfigValue>::empty(),
    {
        let m = ConfigMap { entries: Vec::new() };
        assert(m@ =~= Map::<Seq<char>, ConfigValue>::empty());
        m
    }

    /// The position of the entry with key `key`, if there is one.
    fn position(&self, key: &String) -> (r: Option<usize>)
        ensures
            match r {
                Some(i) => i < self.entries@.len() && self.entries@[i as int].0@ == key@,
                None => !has_key(self.entries@, key@),
            },
    {
        let mut i: usize = 0;
        while i < self.entries.len()
            invariant
                0 <= i <= self.entries@.len(),
                forall|j: int| 0 <= j < i ==> #[trigger] self.entries@[j].0@ != key@,
            decreases self.entries@.len() - i,
        {
            if self.entries[i].0 == *key {
                return Some(i);
            }
            i = i + 1;
        }
        None
    }

    /// Sets the value for `key`, giving back the value it held before, if any.
    pub fn insert(&mut self, key: String, value: ConfigValue) -> (r: Option<ConfigValue>)
        ensures
            final(self)@ == old(self)@.insert(key@, value),
            match r {
                Some(v) => old(self)@.contains_key(key@) && v == old(self)@[key@],
                None => !old(self)@.contains_key(key@),
            },
    {
        proof {
            use_type_invariant(&*self);
        }
        let ghost before = self.entries@;
        match self.position(&key) {
            Some(i) => {
                proof {
                    lemma_entry_in_map(before, i as int);
                }
                let mut entries: Vec<(String, ConfigValue)> = Vec::new();
                std::mem::swap(&mut entries, &mut self.entries);
                let old_entry = entries.remove(i);
                entries.push((key, value));
                proof {
                    let mid = before.remove(i as int);
                    assert(entries@ =~= mid.push(entries@.last()));
                    assert forall|a: int, b: int|
                        0 <= a < entries@.len() && 0 <= b < entries@.len() && a != b implies
                        #[trigger] entries@[a].0@ != #[trigger] entries@[b].0@ by {
                        if a < i {
                        } else if a < entries@.len() - 1 {
                            assert(entries@[a] == before[a + 1]);
                        }
                        if b < i {
                        } else if b < entries@.len() - 1 {
                            assert(entries@[b] == before[b + 1]);
                        }
                    }
                    lemma_remove_then_push(before, i as int, entries@);
                }
                self.entries = entries;
                Some(old_entry.1)
            },
            None => {
                let mut entries: Vec<(String, ConfigValue)> = Vec::new();
                std::mem::swap(&mut entries, &mut self.entries);
                entries.push((key, value));
                proof {
                    assert(entries@.drop_last() =~= before);
                    lemma_push_new_key(before, entries@);
                }
                self.entries = entries;
                None
            },
        }
    }

    /// The number of keys.
    pub fn len(&self) -> (r: usize)
        ensures
            r == self@.len(),
    {
        proof {
            use_type_invariant(self);
            lemma_entries_len(self.entries@);
        }
        self.entries.len()
    }

    /// Whether the map holds no key.
    pub fn is_empty(&self) -> (r: bool)
        ensures
            r == (self@.len() == 0),
    {
        self.len() == 0
    }

    /// The entries, each key once, in no particular order.
    pub fn entries(&self) -> (r: &Vec<(String, ConfigValue)>)
        ensures
            keys_distinct(r@),
            entries_map(r@) == self@,
    {
        proof {
            use_type_invariant(self);
        }
        &self.entries
    }

    /// The value held for `key`, if any.
    pub fn get(&self, key: &str) -> (r: Option<&ConfigValue>)
        ensures
            match r {
                Some(v) => self@.contains_key(key@) && *v == self@[key@],
                None => !self@.contains_key(key@),
            },
    {
        proof {
            use_type_invariant(self);
        }
        let k = key.to_owned();
        match self.position(&k) {
            Some(i) => {
                proof {
                    lemma_entry_in_map(self.entries@, i as int);
                }
                Some(&self.entries[i].1)
            },
            None => None,
        }
    }
}

impl Clone for ConfigMap {
    fn clone(&self) -> (r: Self)
        ensures
            r@ == self@,
    {
        proof {
            use_type_invariant(self);
        }
        let mut entries: Vec<(String, ConfigValue)> = Vec::new();
        let mut i: usize = 0;
        while i < self.entries.len()
            invariant
                0 <= i <= self.entries@.len(),
                entries@ == self.entries@.subrange(0, i as int),
            decreases self.entries@.len() - i,
        {
            let k = self.entries[i].0.clone();
            let v = self.entries[i].1.clone();
            entries.push((k, v));
            proof {
                assert(entries@ =~= self.entries@.subrange(0, i + 1));
            }
            i = i + 1;
        }
        proof {
            assert(entries@ =~= self.entries@);
        }
        ConfigMap { entries }
    }
}

/// The value that `m` holds for `k`, if any.
pub open spec fn setting(m: Map<Seq<char>, ConfigValue>, k: Seq<char>) -> Option<ConfigValue> {
    if m.contains_key(k) {
        Some(m[k])
    } else {
        None
    }
}

/// The text that `m` holds for `k`, if it holds a text there.
pub open spec fn string_setting(m: Map<Seq<char>, ConfigValue>, k: Seq<char>) -> Option<Seq<char>> {
    match setting(m, k) {
        Some(ConfigValue::String(s)) => Some(s@),
        _ => None,
    }
}

/// The flag that `m` holds for `k`, if it holds a flag there.
pub open spec fn bool_setting(m: Map<Seq<char>, ConfigValue>, k: Seq<char>) -> Option<bool> {
    match setting(m, k) {
        Some(ConfigValue::Bool(b)) => Some(b),
        _ => None,
    }
}

/// The integer that `m` holds for `k`, if it holds an integer there.
pub open spec fn integer_setting(m: Map<Seq<char>, ConfigValue>, k: Seq<char>) -> Option<i64> {
    match setting(m, k) {
        Some(ConfigValue::Int(v)) => Some(v),
        _ => None,
    }
}

/// Once `key` is set to `value`, a lookup of `key` gives `value`, and a lookup
/// of any other key gives what it gave before.
pub proof fn lemma_setting_after_insert(
    m: Map<Seq<char>, ConfigValue>,
    key: Seq<char>,
    value: ConfigValue,
    other: Seq<char>,
)
    ensures
        setting(m.insert(key, value), key) == Some(value),
        other != key ==> setting(m.insert(key, value), other) == setting(m, other),
{
}

/// A setting that can be read as a floating-point number: a float, given by
/// its IEEE-754 bit pattern, or an integer.
#[derive(Debug, Clone, Copy, PartialEq, Eq, Structural)]
pub enum Numeric {
    FloatBits(u64),
    Int(i64),
}

/// The number that `m` holds for `k`, if it holds a float or an integer there.
pub open spec fn numeric_setting(m: Map<Seq<char>, ConfigValue>, k: Seq<char>) -> Option<Numeric> {
    match setting(m, k) {
        Some(ConfigValue::Float(bits)) => Some(Numeric::FloatBits(bits)),
        Some(ConfigValue::Int(v)) => Some(Numeric::Int(v)),
        _ => None,
    }
}

/// Reading a key back as the kind of value it was set to gives exactly the
/// value set, for every flag, integer, bit pattern and text; reading it as
/// another kind gives nothing, as does reading a key that holds nothing.
/// A float reading accepts an integer, as an integer.
pub proof fn lemma_typed_reads(
    m: Map<Seq<char>, ConfigValue>,
    k: Seq<char>,
    b: bool,
    v: i64,
    bits: u64,
    text: String,
)
    ensures
        bool_setting(m.insert(k, ConfigValue::Bool(b)), k) == Some(b),
        integer_setting(m.insert(k, ConfigValue::Int(v)), k) == Some(v),
        numeric_setting(m.insert(k, ConfigValue::Float(bits)), k) == Some(Numeric::FloatBits(bits)),
        numeric_setting(m.insert(k, ConfigValue::Int(v)), k) == Some(Numeric::Int(v)),
        string_setting(m.insert(k, ConfigValue::String(text)), k) == Some(text@),
        bool_setting(m.insert(k, ConfigValue::Int(v)), k) is None,
        bool_setting(m.insert(k, ConfigValue::Float(bits)), k) is None,
        bool_setting(m.insert(k, ConfigValue::String(text)), k) is None,
        integer_setting(m.insert(k, ConfigValue::Bool(b)), k) is None,
        integer_setting(m.insert(k, ConfigValue::Float(bits)), k) is None,
        integer_setting(m.insert(k, ConfigValue::String(text)), k) is None,
        numeric_setting(m.insert(k, ConfigValue::Bool(b)), k) is None,
        numeric_setting(m.insert(k, ConfigValue::String(text)), k) is None,
        string_setting(m.insert(k, ConfigValue::Bool(b)), k) is None,
        string_setting(m.insert(k, ConfigValue::Int(v)), k) is None,
        string_setting(m.insert(k, ConfigValue::Float(bits)), k) is None,
        !m.contains_key(k) ==> bool_setting(m, k) is None && integer_setting(m, k) is None
            && numeric_setting(m, k) is None && string_setting(m, k) is None,
{
}

/// A configuration object: its type, its sub-type (empty when absent) and its
/// key-value settings.
#[derive(Debug)]
pub struct ConfigObject {
    pub object_type: String,
    pub sub_type: String,
    pub config: ConfigMap,
}

impl Clone for ConfigObject {
    fn clone(&self) -> (r: Self)
        ensures
            r.object_type == self.object_type,
            r.sub_type == self.sub_type,
            r.config@ == self.config@,
    {
        ConfigObject {
            object_type: self.object_type.clone(),
            sub_type: self.sub_type.clone(),
            config: self.config.clone(),
        }
    }
}

impl ConfigObject {
    /// The value set for `key`, if any.
    pub fn get(&self, key: &str) -> (r: Option<&ConfigValue>)
        ensures
            match r {
                Some(v) => setting(self.config@, key@) == Some(*v),
                None => setting(self.config@, key@) is None,
            },
    {
        self.config.get(key)
    }

    /// The text set for `key`; none when the key is absent or holds another
    /// kind of value.
    pub fn string(&self, key: &str) -> (r: Option<&str>)
        ensures
            match r {
                Some(s) => string_setting(self.config@, key@) == Some(s@),
                None => string_setting(self.config@, key@) is None,
            },
            self.config@.contains_key(key@) && self.config@[key@] is String ==> (r matches Some(
                t,
            ) && t@ == self.config@[key@]->String_0@),
            !(self.config@.contains_key(key@) && self.config@[key@] is String) ==> r is None,
    {
        match self.get(key) {
            Some(ConfigValue::String(value)) => Some(value.as_str()),
            _ => None,
        }
    }

    /// The flag set for `key`; none when the key is absent or holds another
    /// kind of value.
    pub fn bool(&self, key: &str) -> (r: Option<bool>)
        ensures
            r == bool_setting(self.config@, key@),
            self.config@.contains_key(key@) && self.config@[key@] is Bool ==> r == Some(
                self.config@[key@]->Bool_0,
            ),
            !(self.config@.contains_key(key@) && self.config@[key@] is Bool) ==> r is None,
    {
        match self.get(key) {
            Some(ConfigValue::Bool(value)) => Some(*value),
            _ => None,
        }
    }

    /// The number set for `key`, which a float reading accepts: a float or an
    /// integer; none when the key is absent or holds a flag or a text.
    pub fn numeric(&self, key: &str) -> (r: Option<Numeric>)
        ensures
            r == numeric_setting(self.config@, key@),
            self.config@.contains_key(key@) && self.config@[key@] is Float ==> r == Some(
                Numeric::FloatBits(self.config@[key@]->Float_0),
            ),
            self.config@.contains_key(key@) && self.config@[key@] is Int ==> r == Some(
                Numeric::Int(self.config@[key@]->Int_0),
            ),
            !(self.config@.contains_key(key@) && (self.config@[key@] is Float
                || self.config@[key@] is Int)) ==> r is None,
    {
        match self.get(key) {
            Some(ConfigValue::Float(bits)) => Some(Numeric::FloatBits(*bits)),
            Some(ConfigValue::Int(value)) => Some(Numeric::Int(*value)),
            _ => None,
        }
    }

    /// The integer set for `key`; none when the key is absent or holds another
    /// kind of value.
    pub fn integer(&self, key: &str) -> (r: Option<i64>)
        ensures
            r == integer_setting(self.config@, key@),
            self.config@.contains_key(key@) && self.config@[key@] is Int ==> r == Some(
                self.config@[key@]->Int_0,
            ),
            !(self.config@.contains_key(key@) && self.config@[key@] is Int) ==> r is None,
    {
        match self.get(key) {
            Some(ConfigValue::Int(value)) => Some(*value),
            _ => None,
        }
    }
}

} // verus!
