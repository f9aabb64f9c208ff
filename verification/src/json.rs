//! JSON values as the runtime reads and builds them.
use vstd::prelude::*;

verus! {

/// A JSON number. Integers are held exactly; any other number is held as the decimal text
/// that the JSON encoder writes for it.
#[derive(Debug, PartialEq, Eq)]
pub enum JsonNumber {
    /// An integer that is zero or more.
    PosInt(u64),
    /// An integer below zero.
    NegInt(i64),
    /// A number with a fraction or an exponent, as its JSON text.
    Decimal(String),
}

/// A JSON value. An object lists its members in order; a lookup by key finds the first
/// member with that key. Objects read from JSON text have distinct keys (`distinct_keys`).
#[derive(Debug, PartialEq, Eq)]
pub enum JsonValue {
    Null,
    Bool(bool),
    Number(JsonNumber),
    Text(String),
    Array(Vec<JsonValue>),
    Object(Vec<(String, JsonValue)>),
}

/// The members of `fields` have pairwise distinct keys.
pub open spec fn keys_distinct(fields: Seq<(String, JsonValue)>) -> bool {
    forall|i: int, j: int|
        0 <= i < j < fields.len() ==> #[trigger] fields[i].0@ != #[trigger] fields[j].0@
}

/// An object's keys are distinct; any other value satisfies this trivially.
pub open spec fn distinct_keys(value: JsonValue) -> bool {
    match value {
        JsonValue::Object(fields) => keys_distinct(fields@),
        _ => true,
    }
}

/// `i` is the first position in `fields` whose key is `key`.
pub open spec fn is_first_key(fields: Seq<(String, JsonValue)>, key: Seq<char>, i: int) -> bool {
    &&& 0 <= i < fields.len()
    &&& fields[i].0@ == key
    &&& forall|j: int| 0 <= j < i ==> #[trigger] fields[j].0@ != key
}

/// Some member of `fields` has the key `key`.
pub open spec fn has_key(fields: Seq<(String, JsonValue)>, key: Seq<char>) -> bool {
    exists|i: int| 0 <= i < fields.len() && #[trigger] fields[i].0@ == key
}

/// The member `key` of an object (its first member with that key); nothing for any
/// other value or a missing key.
pub open spec fn member(value: JsonValue, key: Seq<char>) -> Option<JsonValue> {
    match value {
        JsonValue::Object(fields) => if has_key(fields@, key) {
            Some(fields@[choose|i: int| is_first_key(fields@, key, i)].1)
        } else {
            None
        },
        _ => None,
    }
}

/// The text of the member `key`, when that member exists and is a string.
pub open spec fn member_text(value: JsonValue, key: Seq<char>) -> Option<Seq<char>> {
    match member(value, key) {
        Some(JsonValue::Text(s)) => Some(s@),
        _ => None,
    }
}

/// `after` is `before` with its first member with key `key` removed, when `before` is an
/// object holding that key; otherwise `after` is `before`.
pub open spec fn member_removed(before: JsonValue, after: JsonValue, key: Seq<char>) -> bool {
    match before {
        JsonValue::Object(fields) => if has_key(fields@, key) {
            after matches JsonValue::Object(rest) && rest@ == fields@.remove(
                choose|i: int| is_first_key(fields@, key, i),
            )
        } else {
            after == before
        },
        _ => after == before,
    }
}

/// A key that occurs has a first occurrence, and only one.
pub proof fn lemma_first_key(fields: Seq<(String, JsonValue)>, key: Seq<char>, k: int)
    requires
        is_first_key(fields, key, k),
    ensures
        has_key(fields, key),
        forall|i: int| is_first_key(fields, key, i) ==> i == k,
        (choose|i: int| is_first_key(fields, key, i)) == k,
{
    assert(fields[k].0@ == key);
    assert forall|i: int| is_first_key(fields, key, i) implies i == k by {
        if i < k {
            assert(fields[i].0@ == key);
        } else if k < i {
            assert(fields[k].0@ != key);
        }
    }
}

/// The member looked up by key is the value at the key's first position in an object,
/// nothing when no member has the key, and nothing for any value that is not an object.
pub proof fn law_member_lookup(value: JsonValue, key: Seq<char>, i: int)
    ensures
        match value {
            JsonValue::Object(fields) => (is_first_key(fields@, key, i) ==> member(value, key) == Some(
                fields@[i].1,
            )) && (!has_key(fields@, key) ==> member(value, key) is None),
            _ => member(value, key) is None,
        },
        match member(value, key) {
            Some(JsonValue::Text(t)) => member_text(value, key) == Some(t@),
            _ => member_text(value, key) is None,
        },
{
    if let JsonValue::Object(fields) = value {
        if is_first_key(fields@, key, i) {
            lemma_first_key(fields@, key, i);
        }
    }
}

/// The position of the first member of `fields` with the key `key`.
pub fn find_key(fields: &Vec<(String, JsonValue)>, key: &String) -> (found: Option<usize>)
    ensures
        match found {
            Some(i) => is_first_key(fields@, key@, i as int),
            None => !has_key(fields@, key@),
        },
{
    let mut i: usize = 0;
    while i < fields.len()
        invariant
            i <= fields@.len(),
            forall|j: int| 0 <= j < i ==> #[trigger] fields@[j].0@ != key@,
        decreases fields@.len() - i,
    {
        if fields[i].0 == *key {
            return Some(i);
        }
        i = i + 1;
    }
    None
}

impl JsonValue {
    /// Takes the member `key` out of an object, leaving the rest; nothing for any other
    /// value or a missing key.
    pub fn take_member(&mut self, key: &String) -> (taken: Option<JsonValue>)
        ensures
            taken == member(*old(self), key@),
            forall|k: Seq<char>| k != key@ ==> member(*final(self), k) == member(*old(self), k),
            member_removed(*old(self), *final(self), key@),
            distinct_keys(*old(self)) ==> distinct_keys(*final(self)),
    {
        match self {
            JsonValue::Object(fields) => {
                match find_key(fields, key) {
                    Some(i) => {
                        let ghost before = fields@;
                        proof {
                            lemma_first_key(before, key@, i as int);
                        }
                        let (_, value) = fields.remove(i);
                        proof {
                            let after = fields@;
                            assert(after =~= before.remove(i as int));
                            assert forall|a: int, b: int| 0 <= a < b < after.len() && keys_distinct(before)
                                implies #[trigger] after[a].0@ != #[trigger] after[b].0@ by {
                                let a0 = if a < i { a } else { a + 1 };
                                let b0 = if b < i { b } else { b + 1 };
                                assert(after[a] == before[a0]);
                                assert(after[b] == before[b0]);
                                assert(before[a0].0@ != before[b0].0@);
                            }
                            assert forall|k: Seq<char>| k != key@ implies
                                #[trigger] has_key(after, k) == has_key(before, k) && (has_key(before, k) ==>
                                    after[choose|j: int| is_first_key(after, k, j)].1
                                        == before[choose|j: int| is_first_key(before, k, j)].1) by {
                                lemma_remove_other_key(before, i as int, key@, k);
                            }
                        }
                        Some(value)
                    },
                    None => None,
                }
            },
            _ => None,
        }
    }

    /// The text of the member `key`, when that member exists and is a string.
    pub fn member_text(&self, key: &String) -> (text: Option<String>)
        ensures
            match text {
                Some(t) => member_text(*self, key@) == Some(t@),
                None => member_text(*self, key@) is None,
            },
    {
        match self {
            JsonValue::Object(fields) => match find_key(fields, key) {
                Some(i) => {
                    proof {
                        lemma_first_key(fields@, key@, i as int);
                    }
                    match &fields[i].1 {
                        JsonValue::Text(s) => Some(s.clone()),
                        _ => None,
                    }
                },
                None => None,
            },
            _ => None,
        }
    }
}

/// Removing the member at `i`, whose key is `removed`, leaves the first member with any
/// other key as it was.
pub proof fn lemma_remove_other_key(fields: Seq<(String, JsonValue)>, i: int, removed: Seq<char>, k: Seq<char>)
    requires
        0 <= i < fields.len(),
        fields[i].0@ == removed,
        k != removed,
    ensures
        has_key(fields.remove(i), k) == has_key(fields, k),
        has_key(fields, k) ==> fields.remove(i)[choose|j: int| is_first_key(fields.remove(i), k, j)].1
            == fields[choose|j: int| is_first_key(fields, k, j)].1,
{
    let after = fields.remove(i);
    if has_key(fields, k) {
        let w = choose|j: int| 0 <= j < fields.len() && #[trigger] fields[j].0@ == k;
        let f = first_key_of(fields, k, w);
        lemma_first_key(fields, k, f);
        let g = if f < i { f } else { f - 1 };
        assert(after[g] == fields[f]);
        assert forall|j: int| 0 <= j < g implies #[trigger] after[j].0@ != k by {
            if j < i {
                assert(after[j] == fields[j]);
            } else {
                assert(after[j] == fields[j + 1]);
            }
        }
        assert(is_first_key(after, k, g));
        lemma_first_key(after, k, g);
    }
    if has_key(after, k) {
        let w = choose|j: int| 0 <= j < after.len() && #[trigger] after[j].0@ == k;
        if w < i {
            assert(fields[w] == after[w]);
        } else {
            assert(fields[w + 1] == after[w]);
        }
    }
}

/// From any position holding `key`, the first such position.
pub proof fn first_key_of(fields: Seq<(String, JsonValue)>, key: Seq<char>, w: int) -> (f: int)
    requires
        0 <= w < fields.len(),
        fields[w].0@ == key,
    ensures
        is_first_key(fields, key, f),
        f <= w,
    decreases w,
{
    if exists|j: int| 0 <= j < w && #[trigger] fields[j].0@ == key {
        let v = choose|j: int| 0 <= j < w && #[trigger] fields[j].0@ == key;
        first_key_of(fields, key, v)
    } else {
        w
    }
}

} // verus!
