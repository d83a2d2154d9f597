//! A JSON document as the library reads it: the shape of each value, and the
//! compact JSON text of each value as `serde_json` prints it.

use vstd::prelude::*;

verus! {

/// One member of a JSON object.
#[derive(Debug)]
pub struct JsonEntry {
    pub key: String,
    pub value: Json,
}

/// The shape of a JSON value.  A number keeps only what the library reads of
/// it: its value when it is an integer in the range of `u64`.
#[derive(Debug)]
pub enum JsonKind {
    Null,
    Bool(bool),
    Number(Option<u64>),
    Str(String),
    Array(Vec<Json>),
    Object(Vec<JsonEntry>),
}

/// A JSON value, with `text`, the compact JSON text of the value (for a
/// string, its quoted and escaped form).
#[derive(Debug)]
pub struct Json {
    pub kind: JsonKind,
    pub text: String,
}

/// The value of the first member of `entries` named `key`.
pub open spec fn entry_lookup(entries: Seq<JsonEntry>, key: Seq<char>) -> Option<Json>
    decreases entries.len(),
{
    if entries.len() == 0 {
        None
    } else if entries[0].key@ == key {
        Some(entries[0].value)
    } else {
        entry_lookup(entries.drop_first(), key)
    }
}

/// The member `key` of the value in `o`, where `o` holds an object.
pub open spec fn opt_field(o: Option<Json>, key: Seq<char>) -> Option<Json> {
    match o {
        Some(j) => j.field(key),
        None => None,
    }
}

/// The unsigned integer in `o`.
pub open spec fn opt_u64(o: Option<Json>) -> Option<u64> {
    match o {
        Some(j) => j.u64_value(),
        None => None,
    }
}

/// The string in `o`.
pub open spec fn opt_str(o: Option<Json>) -> Option<Seq<char>> {
    match o {
        Some(j) => j.str_value(),
        None => None,
    }
}

/// The elements of the array in `o`.
pub open spec fn opt_array(o: Option<Json>) -> Option<Seq<Json>> {
    match o {
        Some(j) => j.array_value(),
        None => None,
    }
}

/// The first element of `o`, where `o` holds a non-empty sequence.
pub open spec fn opt_first(o: Option<Seq<Json>>) -> Option<Json> {
    match o {
        Some(s) => if s.len() > 0 {
            Some(s[0])
        } else {
            None
        },
        None => None,
    }
}

/// Looking a key up finds the value of the first member with that key:
/// where the member at `i` is the first so named, the lookup gives its
/// value.
pub proof fn lemma_lookup_finds_first(entries: Seq<JsonEntry>, key: Seq<char>, i: int)
    requires
        0 <= i < entries.len(),
        entries[i].key@ == key,
        forall|j: int| 0 <= j < i ==> (#[trigger] entries[j]).key@ != key,
    ensures
        entry_lookup(entries, key) == Some(entries[i].value),
    decreases i,
{
    if i > 0 {
        let rest = entries.drop_first();
        assert forall|j: int| 0 <= j < i - 1 implies (#[trigger] rest[j]).key@ != key by {
            assert(rest[j] == entries[j + 1]);
        }
        assert(rest[i - 1] == entries[i]);
        assert(entries[0].key@ != key);
        lemma_lookup_finds_first(rest, key, i - 1);
    }
}

/// Looking up a key that no member has finds nothing.
pub proof fn lemma_lookup_absent(entries: Seq<JsonEntry>, key: Seq<char>)
    requires
        forall|j: int| 0 <= j < entries.len() ==> (#[trigger] entries[j]).key@ != key,
    ensures
        entry_lookup(entries, key) is None,
    decreases entries.len(),
{
    if entries.len() > 0 {
        let rest = entries.drop_first();
        assert forall|j: int| 0 <= j < rest.len() implies (#[trigger] rest[j]).key@ != key by {
            assert(rest[j] == entries[j + 1]);
        }
        assert(entries[0].key@ != key);
        lemma_lookup_absent(rest, key);
    }
}

impl Json {
    /// The member `key` of this value, where it is an object.
    pub open spec fn field(self, key: Seq<char>) -> Option<Json> {
        match self.kind {
            JsonKind::Object(entries) => entry_lookup(entries@, key),
            _ => None,
        }
    }

    /// This value as an unsigned integer.
    pub open spec fn u64_value(self) -> Option<u64> {
        match self.kind {
            JsonKind::Number(n) => n,
            _ => None,
        }
    }

    /// This value as a string.
    pub open spec fn str_value(self) -> Option<Seq<char>> {
        match self.kind {
            JsonKind::Str(s) => Some(s@),
            _ => None,
        }
    }

    /// The elements of this value, where it is an array.
    pub open spec fn array_value(self) -> Option<Seq<Json>> {
        match self.kind {
            JsonKind::Array(v) => Some(v@),
            _ => None,
        }
    }

    /// This value is `null`.
    pub open spec fn is_null(self) -> bool {
        self.kind is Null
    }

    /// The member `key` of this value, where it is an object.
    pub fn get(&self, key: &String) -> (res: Option<&Json>)
        ensures
            match res {
                Some(r) => self.field(key@) == Some(*r),
                None => self.field(key@) is None,
            },
    {
        match &self.kind {
            JsonKind::Object(entries) => {
                let mut i: usize = 0;
                assert(entries@.skip(0) =~= entries@);
                while i < entries.len()
                    invariant
                        0 <= i <= entries.len(),
                        self.field(key@) == entry_lookup(entries@, key@),
                        entry_lookup(entries@, key@) == entry_lookup(entries@.skip(i as int), key@),
                    decreases entries.len() - i,
                {
                    let ghost rest = entries@.skip(i as int);
                    assert(rest[0] == entries@[i as int]);
                    if entries[i].key == *key {
                        return Some(&entries[i].value);
                    }
                    assert(rest.drop_first() =~= entries@.skip(i + 1));
                    i = i + 1;
                }
                assert(entries@.skip(i as int) =~= Seq::<JsonEntry>::empty());
                None
            },
            _ => None,
        }
    }

    /// The member named by the text `key`, where this value is an object.
    pub fn member(&self, key: &str) -> (res: Option<&Json>)
        ensures
            match res {
                Some(r) => self.field(key@) == Some(*r),
                None => self.field(key@) is None,
            },
    {
        let k = String::from_str(key);
        self.get(&k)
    }

    /// This value as an unsigned integer.
    pub fn as_u64(&self) -> (res: Option<u64>)
        ensures
            res == self.u64_value(),
    {
        match &self.kind {
            JsonKind::Number(n) => *n,
            _ => None,
        }
    }

    /// This value as a string.
    pub fn as_str(&self) -> (res: Option<&String>)
        ensures
            match res {
                Some(s) => self.str_value() == Some(s@),
                None => self.str_value() is None,
            },
    {
        match &self.kind {
            JsonKind::Str(s) => Some(s),
            _ => None,
        }
    }

    /// The elements of this value, where it is an array.
    pub fn as_array(&self) -> (res: Option<&Vec<Json>>)
        ensures
            match res {
                Some(v) => self.array_value() == Some(v@),
                None => self.array_value() is None,
            },
    {
        match &self.kind {
            JsonKind::Array(v) => Some(v),
            _ => None,
        }
    }

    /// Whether this value is `null`.
    pub fn is_null_value(&self) -> (res: bool)
        ensures
            res == self.is_null(),
    {
        match &self.kind {
            JsonKind::Null => true,
            _ => false,
        }
    }

    /// The compact JSON text of this value.
    pub fn to_text(&self) -> (res: String)
        ensures
            res@ == self.text@,
    {
        self.text.clone()
    }

    /// The member named by the text `key`, taken out of this value, where
    /// it is an object.
    pub fn into_member(self, key: &str) -> (res: Option<Json>)
        ensures
            res == self.field(key@),
    {
        let k = String::from_str(key);
        match self.kind {
            JsonKind::Object(entries) => {
                let mut entries = entries;
                let mut i: usize = 0;
                assert(entries@.skip(0) =~= entries@);
                while i < entries.len()
                    invariant
                        0 <= i <= entries.len(),
                        self.field(key@) == entry_lookup(entries@, key@),
                        k@ == key@,
                        entry_lookup(entries@, key@) == entry_lookup(entries@.skip(i as int), key@),
                    decreases entries.len() - i,
                {
                    let ghost rest = entries@.skip(i as int);
                    assert(rest[0] == entries@[i as int]);
                    if entries[i].key == k {
                        let ghost es = entries@;
                        assert(entry_lookup(rest, key@) == Some(es[i as int].value));
                        let e = entries.remove(i);
                        return Some(e.value);
                    }
                    assert(rest.drop_first() =~= entries@.skip(i + 1));
                    i = i + 1;
                }
                assert(entries@.skip(i as int) =~= Seq::<JsonEntry>::empty());
                None
            },
            _ => None,
        }
    }

    /// The elements of this value, taken out of it, where it is an array.
    pub fn into_array(self) -> (res: Option<Vec<Json>>)
        ensures
            match res {
                Some(v) => self.array_value() == Some(v@),
                None => self.array_value() is None,
            },
    {
        match self.kind {
            JsonKind::Array(v) => Some(v),
            _ => None,
        }
    }
}

} // verus!
