//! A self-contained model of decoded JSON data.
//!
//! The remote endpoint answers with JSON; the normalizer only restructures
//! that data and never interprets field semantics, so the model keeps every
//! leaf as a plain value.  A number is carried as its literal decimal text,
//! uninterpreted, which keeps the model exact for any numeric payload.
//! An object is an ordered list of key/value pairs; lookup finds the first
//! binding of a key.

use vstd::prelude::*;

verus! {

/// Decoded JSON data, as the normalizer sees it.
#[derive(Debug, PartialEq, Eq)]
pub enum Json {
    Null,
    Bool(bool),
    /// The literal decimal text of a JSON number, uninterpreted.
    Num(String),
    Str(String),
    Arr(Vec<Json>),
    Obj(Vec<(String, Json)>),
}

/// The first value bound to `key` among `fields`, if any.
pub open spec fn spec_lookup(fields: Seq<(String, Json)>, key: Seq<char>) -> Option<Json>
    decreases fields.len(),
{
    if fields.len() == 0 {
        None
    } else if fields[0].0@ == key {
        Some(fields[0].1)
    } else {
        spec_lookup(fields.skip(1), key)
    }
}

/// `spec_lookup` returns the value at the first index whose key matches.
pub proof fn lemma_lookup_at(fields: Seq<(String, Json)>, key: Seq<char>, i: int)
    requires
        0 <= i < fields.len(),
        fields[i].0@ == key,
        forall|j: int| 0 <= j < i ==> #[trigger] fields[j].0@ != key,
    ensures
        spec_lookup(fields, key) == Some(fields[i].1),
    decreases i,
{
    if i > 0 {
        assert(fields.skip(1)[i - 1] == fields[i]);
        assert(forall|j: int| 0 <= j < i - 1 ==> #[trigger] fields.skip(1)[j].0@ != key);
        lemma_lookup_at(fields.skip(1), key, i - 1);
    }
}

/// `spec_lookup` finds nothing when no key matches.
pub proof fn lemma_lookup_none(fields: Seq<(String, Json)>, key: Seq<char>)
    requires
        forall|j: int| 0 <= j < fields.len() ==> #[trigger] fields[j].0@ != key,
    ensures
        spec_lookup(fields, key) is None,
    decreases fields.len(),
{
    if fields.len() > 0 {
        assert(forall|j: int| 0 <= j < fields.skip(1).len() ==> #[trigger] fields.skip(1)[j].0@
            != key);
        lemma_lookup_none(fields.skip(1), key);
    }
}

/// Index of the first pair of `fields` whose key equals `key`, if any.
pub fn find_key(fields: &Vec<(String, Json)>, key: &str) -> (r: Option<usize>)
    ensures
        match r {
            Some(i) => {
                &&& i < fields@.len()
                &&& fields@[i as int].0@ == key@
                &&& forall|j: int| 0 <= j < i ==> #[trigger] fields@[j].0@ != key@
                &&& spec_lookup(fields@, key@) == Some(fields@[i as int].1)
            },
            None => spec_lookup(fields@, key@) is None,
        },
{
    let key_string: String = key.to_owned();
    let mut i: usize = 0;
    while i < fields.len()
        invariant
            i <= fields@.len(),
            key_string@ == key@,
            forall|j: int| 0 <= j < i ==> #[trigger] fields@[j].0@ != key@,
        decreases fields@.len() - i,
    {
        if fields[i].0 == key_string {
            proof {
                lemma_lookup_at(fields@, key@, i as int);
            }
            return Some(i);
        }
        i += 1;
    }
    proof {
        lemma_lookup_none(fields@, key@);
    }
    None
}

} // verus!
