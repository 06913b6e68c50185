//! A TOML document as plain values: tables are key/value entry lists with
//! distinct keys; their meaning is the map from keys to values.

use vstd::prelude::*;

verus! {

/// A TOML value. A float is held by its shortest decimal text (the text
/// that reads back as the same float); a date-time by its TOML text.
#[derive(Debug, PartialEq)]
pub enum ConfigValue {
    Text(String),
    Integer(i64),
    Float(String),
    Boolean(bool),
    Datetime(String),
    Array(Vec<ConfigValue>),
    Table(Vec<ConfigEntry>),
}

/// One `key = value` entry of a table.
#[derive(Debug, PartialEq)]
pub struct ConfigEntry {
    pub key: String,
    pub value: ConfigValue,
}

/// No two entries share a key.
pub open spec fn keys_distinct(s: Seq<ConfigEntry>) -> bool {
    forall|i: int, j: int| 0 <= i < s.len() && 0 <= j < s.len() && i != j ==> #[trigger] s[i].key@
        != #[trigger] s[j].key@
}

/// Every table in the value, at any depth, has distinct keys.
pub open spec fn value_wf(v: ConfigValue) -> bool
    decreases v,
{
    match v {
        ConfigValue::Table(es) => keys_distinct(es@) && forall|i: int|
            0 <= i < es@.len() ==> value_wf(#[trigger] es@[i].value),
        ConfigValue::Array(xs) => forall|i: int| 0 <= i < xs@.len() ==> value_wf(#[trigger] xs@[i]),
        _ => true,
    }
}

/// The meaning of a table: each key mapped to its value (for distinct keys
/// the order of the entries does not matter).
pub open spec fn table_map(s: Seq<ConfigEntry>) -> Map<Seq<char>, ConfigValue>
    decreases s.len(),
{
    if s.len() == 0 {
        Map::empty()
    } else {
        table_map(s.drop_last()).insert(s.last().key@, s.last().value)
    }
}

/// The keys of a table are those of its entries, and each maps to its
/// entry's value.
pub proof fn lemma_table_map(s: Seq<ConfigEntry>)
    requires
        keys_distinct(s),
    ensures
        forall|k: Seq<char>| #[trigger]
            table_map(s).contains_key(k) <==> exists|i: int| 0 <= i < s.len() && s[i].key@ == k,
        forall|i: int| 0 <= i < s.len() ==> table_map(s)[#[trigger] s[i].key@] == s[i].value,
    decreases s.len(),
{
    if s.len() > 0 {
        let p = s.drop_last();
        assert forall|i: int, j: int| 0 <= i < p.len() && 0 <= j < p.len() && i != j implies #[trigger] p[i].key@
            != #[trigger] p[j].key@ by {
            assert(p[i] == s[i] && p[j] == s[j]);
        }
        lemma_table_map(p);
        assert forall|k: Seq<char>| #[trigger]
            table_map(s).contains_key(k) <==> exists|i: int| 0 <= i < s.len() && s[i].key@ == k by {
            if table_map(s).contains_key(k) && k != s.last().key@ {
                let i = choose|i: int| 0 <= i < p.len() && p[i].key@ == k;
                assert(s[i] == p[i]);
            }
            if exists|i: int| 0 <= i < s.len() && s[i].key@ == k {
                let i = choose|i: int| 0 <= i < s.len() && s[i].key@ == k;
                if i < s.len() - 1 {
                    assert(p[i] == s[i]);
                }
            }
        }
        assert forall|i: int| 0 <= i < s.len() implies table_map(s)[#[trigger] s[i].key@] == s[i].value by {
            if i < s.len() - 1 {
                assert(p[i] == s[i]);
                assert(s[i].key@ != s[s.len() - 1].key@);
            }
        }
    }
}

/// Removing an entry removes its key from the table's meaning.
pub proof fn lemma_table_map_remove(s: Seq<ConfigEntry>, i: int)
    requires
        keys_distinct(s),
        0 <= i < s.len(),
    ensures
        keys_distinct(s.remove(i)),
        table_map(s.remove(i)) == table_map(s).remove(s[i].key@),
{
    let t = s.remove(i);
    assert forall|a: int, b: int| 0 <= a < t.len() && 0 <= b < t.len() && a != b implies #[trigger] t[a].key@
        != #[trigger] t[b].key@ by {
        let a2 = if a < i { a } else { a + 1 };
        let b2 = if b < i { b } else { b + 1 };
        assert(t[a] == s[a2] && t[b] == s[b2]);
    }
    lemma_table_map(s);
    lemma_table_map(t);
    let m = table_map(s).remove(s[i].key@);
    assert forall|k: Seq<char>| table_map(t).contains_key(k) <==> m.contains_key(k) by {
        if table_map(t).contains_key(k) {
            let j = choose|j: int| 0 <= j < t.len() && t[j].key@ == k;
            let j2 = if j < i { j } else { j + 1 };
            assert(t[j] == s[j2]);
            assert(table_map(s).contains_key(s[j2].key@));
        }
        if m.contains_key(k) {
            assert(table_map(s).contains_key(k));
            let j = choose|j: int| 0 <= j < s.len() && s[j].key@ == k;
            assert(j != i);
            let j2 = if j < i { j } else { j - 1 };
            assert(t[j2] == s[j]);
            assert(table_map(t).contains_key(t[j2].key@));
        }
    }
    assert forall|k: Seq<char>| table_map(t).contains_key(k) implies table_map(t)[k] == m[k] by {
        let j = choose|j: int| 0 <= j < t.len() && t[j].key@ == k;
        let j2 = if j < i { j } else { j + 1 };
        assert(t[j] == s[j2]);
        assert(table_map(t)[t[j].key@] == t[j].value);
        assert(table_map(s)[s[j2].key@] == s[j2].value);
    }
    assert(table_map(t) =~= m);
}

/// Appending an entry with a new key adds it to the table's meaning.
pub proof fn lemma_table_map_push(s: Seq<ConfigEntry>, e: ConfigEntry)
    requires
        keys_distinct(s),
        !table_map(s).contains_key(e.key@),
    ensures
        keys_distinct(s.push(e)),
        table_map(s.push(e)) == table_map(s).insert(e.key@, e.value),
{
    lemma_table_map(s);
    let t = s.push(e);
    assert forall|a: int, b: int| 0 <= a < t.len() && 0 <= b < t.len() && a != b implies #[trigger] t[a].key@
        != #[trigger] t[b].key@ by {
        if a < s.len() && b < s.len() {
            assert(t[a] == s[a] && t[b] == s[b]);
        } else if a < s.len() {
            assert(t[a] == s[a]);
            assert(table_map(s).contains_key(s[a].key@));
        } else {
            assert(t[b] == s[b]);
            assert(table_map(s).contains_key(s[b].key@));
        }
    }
    assert(t.drop_last() =~= s);
}

/// The position of the entry with this key, if any.
pub fn find_key(entries: &Vec<ConfigEntry>, key: &str) -> (r: Option<usize>)
    ensures
        match r {
            Some(i) => i < entries@.len() && entries@[i as int].key@ == key@,
            None => forall|i: int| 0 <= i < entries@.len() ==> #[trigger] entries@[i].key@ != key@,
        },
{
    let n = entries.len();
    let mut i: usize = 0;
    while i < n
        invariant
            n == entries@.len(),
            i <= n,
            forall|k: int| 0 <= k < i ==> #[trigger] entries@[k].key@ != key@,
        decreases n - i,
    {
        if crate::text::str_equal(entries[i].key.as_str(), key) {
            return Some(i);
        }
        i = i + 1;
    }
    None
}

/// A table whose keys are distinct and whose values are well formed.
pub open spec fn entries_wf(s: Seq<ConfigEntry>) -> bool {
    keys_distinct(s) && forall|i: int| 0 <= i < s.len() ==> value_wf(#[trigger] s[i].value)
}

/// Removes the entry with this key and returns its value.
pub fn table_take(entries: &mut Vec<ConfigEntry>, key: &str) -> (r: Option<ConfigValue>)
    requires
        entries_wf(old(entries)@),
    ensures
        entries_wf(final(entries)@),
        table_map(final(entries)@) == table_map(old(entries)@).remove(key@),
        match r {
            Some(v) => table_map(old(entries)@).contains_key(key@) && table_map(old(entries)@)[key@]
                == v && value_wf(v),
            None => !table_map(old(entries)@).contains_key(key@),
        },
{
    proof {
        lemma_table_map(old(entries)@);
    }
    match find_key(entries, key) {
        Some(i) => {
            let ghost before = entries@;
            let e = entries.remove(i);
            proof {
                lemma_table_map_remove(before, i as int);
                assert forall|a: int| 0 <= a < entries@.len() implies value_wf(
                    #[trigger] entries@[a].value,
                ) by {
                    if a < i {
                        assert(entries@[a] == before[a]);
                    } else {
                        assert(entries@[a] == before[a + 1]);
                    }
                }
                assert(value_wf(before[i as int].value));
            }
            Some(e.value)
        },
        None => {
            proof {
                assert(table_map(entries@).remove(key@) =~= table_map(entries@));
            }
            None
        },
    }
}

/// Sets `key` to `value`, replacing any entry with that key.
pub fn table_set(entries: &mut Vec<ConfigEntry>, key: String, value: ConfigValue)
    requires
        entries_wf(old(entries)@),
        value_wf(value),
    ensures
        entries_wf(final(entries)@),
        table_map(final(entries)@) == table_map(old(entries)@).insert(key@, value),
{
    let ghost before = entries@;
    let _ = table_take(entries, key.as_str());
    let ghost middle = entries@;
    let ghost e = ConfigEntry { key, value };
    entries.push(ConfigEntry { key, value });
    proof {
        lemma_table_map_push(middle, e);
        assert(table_map(middle).remove(key@).insert(key@, value) =~= table_map(before).insert(
            key@,
            value,
        ));
        assert(entries@ == middle.push(e));
        assert forall|i: int| 0 <= i < entries@.len() implies value_wf(#[trigger] entries@[i].value) by {
            if i < middle.len() {
                assert(entries@[i] == middle[i]);
            }
        }
    }
}

/// Inserts `key` with `value` unless the key is already present.
pub fn table_insert_if_absent(entries: &mut Vec<ConfigEntry>, key: String, value: ConfigValue)
    requires
        entries_wf(old(entries)@),
        value_wf(value),
    ensures
        entries_wf(final(entries)@),
        table_map(final(entries)@) == if table_map(old(entries)@).contains_key(key@) {
            table_map(old(entries)@)
        } else {
            table_map(old(entries)@).insert(key@, value)
        },
{
    proof {
        lemma_table_map(entries@);
    }
    match find_key(entries, key.as_str()) {
        Some(_) => {},
        None => {
            table_set(entries, key, value);
        },
    }
}

/// Whether the key of entry `i` differs from the keys of all entries before it.
fn key_is_new(entries: &Vec<ConfigEntry>, i: usize) -> (r: bool)
    requires
        i < entries@.len(),
    ensures
        r == forall|j: int| 0 <= j < i ==> #[trigger] entries@[j].key@ != entries@[i as int].key@,
{
    let mut j: usize = 0;
    while j < i
        invariant
            i < entries@.len(),
            j <= i,
            forall|k: int| 0 <= k < j ==> #[trigger] entries@[k].key@ != entries@[i as int].key@,
        decreases i - j,
    {
        if crate::text::str_equal(entries[j].key.as_str(), entries[i].key.as_str()) {
            return false;
        }
        j = j + 1;
    }
    true
}

/// Whether every table in `v`, at any depth, has distinct keys (see
/// [`value_wf`]). A document parsed from TOML text always has.
pub fn is_well_formed(v: &ConfigValue) -> (r: bool)
    ensures
        r == value_wf(*v),
    decreases v,
{
    match v {
        ConfigValue::Table(es) => {
            let n = es.len();
            let mut i: usize = 0;
            while i < n
                invariant
                    *v == ConfigValue::Table(*es),
                    n == es@.len(),
                    i <= n,
                    forall|a: int, b: int|
                        0 <= a < i && 0 <= b < i && a != b ==> #[trigger] es@[a].key@
                            != #[trigger] es@[b].key@,
                    forall|a: int| 0 <= a < i ==> value_wf(#[trigger] es@[a].value),
                decreases n - i,
            {
                proof {
                    assert(decreases_to!(*v => (*v)->Table_0));
                    assert(decreases_to!(*es => es@));
                    assert(decreases_to!(es@ => es@[i as int]));
                    assert(decreases_to!(es@[i as int] => es@[i as int].value));
                }
                if !is_well_formed(&es[i].value) {
                    assert(!value_wf(es@[i as int].value));
                    return false;
                }
                if !key_is_new(es, i) {
                    assert(!keys_distinct(es@));
                    return false;
                }
                i = i + 1;
            }
            true
        },
        ConfigValue::Array(xs) => {
            let n = xs.len();
            let mut i: usize = 0;
            while i < n
                invariant
                    *v == ConfigValue::Array(*xs),
                    n == xs@.len(),
                    i <= n,
                    forall|a: int| 0 <= a < i ==> value_wf(#[trigger] xs@[a]),
                decreases n - i,
            {
                proof {
                    assert(decreases_to!(*v => (*v)->Array_0));
                    assert(decreases_to!(*xs => xs@));
                    assert(decreases_to!(xs@ => xs@[i as int]));
                }
                if !is_well_formed(&xs[i]) {
                    assert(!value_wf(xs@[i as int]));
                    assert(!value_wf(*v));
                    return false;
                }
                i = i + 1;
            }
            true
        },
        _ => true,
    }
}

} // verus!
