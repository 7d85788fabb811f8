//! The untyped body of a post, and the one typed field read out of it.

use vstd::prelude::*;

verus! {

/// A value inside a post record.
pub enum Value {
    Null,
    Bool(bool),
    Integer(i128),
    /// A floating-point number; its value is never read here.
    Float,
    String(String),
    Bytes(Vec<u8>),
    List(Vec<Value>),
    Mapping(Vec<(String, Value)>),
    /// A content link, held as the bytes of its identifier.
    Link(Vec<u8>),
}

/// The body of a post: a key-value document, or some other kind of value.
pub enum Record {
    Object(Vec<(String, Value)>),
    Null,
    Other(Value),
}

/// Why the text of a record could not be read.
#[derive(Debug, Clone, Copy, PartialEq, Eq)]
pub enum RecordError {
    /// The record is not a key-value document.
    NotAnObject,
    /// The document has no `text` key.
    MissingText,
    /// The `text` key holds something other than a string.
    TextNotString,
}

/// No key occurs twice among the entries.
pub open spec fn keys_distinct(entries: Seq<(String, Value)>) -> bool {
    forall|i: int, j: int| 0 <= i < j < entries.len() ==> entries[i].0@ != entries[j].0@
}

impl Record {
    /// The documents that a feed hands out never repeat a key.
    pub open spec fn wf(&self) -> bool {
        match self {
            Record::Object(entries) => keys_distinct(entries@),
            _ => true,
        }
    }
}

/// The value under `key`: that of the first entry with this key.
pub open spec fn lookup(entries: Seq<(String, Value)>, key: Seq<char>) -> Option<Value>
    decreases entries.len(),
{
    if entries.len() == 0 {
        None
    } else if entries[0].0@ == key {
        Some(entries[0].1)
    } else {
        lookup(entries.drop_first(), key)
    }
}

/// In a document whose keys are distinct, the value found under a key is that
/// of the one entry that has it, wherever that entry stands.
pub proof fn lookup_finds_the_entry(entries: Seq<(String, Value)>, i: int)
    requires
        keys_distinct(entries),
        0 <= i < entries.len(),
    ensures
        lookup(entries, entries[i].0@) == Some(entries[i].1),
    decreases entries.len(),
{
    if i > 0 {
        let rest = entries.drop_first();
        assert(rest[i - 1] == entries[i]);
        lookup_finds_the_entry(rest, i - 1);
    }
}

/// The key that holds a post's text.
pub open spec fn text_key() -> Seq<char> {
    "text"@
}

/// What reading the text of `record` gives.
pub open spec fn text_of(record: Record) -> Result<Seq<char>, RecordError> {
    match record {
        Record::Object(entries) => match lookup(entries@, text_key()) {
            Some(Value::String(s)) => Ok(s@),
            Some(_) => Err(RecordError::TextNotString),
            None => Err(RecordError::MissingText),
        },
        _ => Err(RecordError::NotAnObject),
    }
}

/// The view of an outcome that holds a `String`.
pub open spec fn outcome_view<E>(r: Result<String, E>) -> Result<Seq<char>, E> {
    match r {
        Ok(s) => Ok(s@),
        Err(e) => Err(e),
    }
}

/// Finds the position of the entry with key `key`, if any.
fn find_key(entries: &Vec<(String, Value)>, key: &String) -> (r: Option<usize>)
    ensures
        match r {
            Some(i) => i < entries@.len() && lookup(entries@, key@) == Some(entries@[i as int].1),
            None => lookup(entries@, key@) is None,
        },
{
    let mut i: usize = 0;
    assert(entries@.skip(0) =~= entries@);
    while i < entries.len()
        invariant
            i <= entries@.len(),
            lookup(entries@, key@) == lookup(entries@.skip(i as int), key@),
        decreases entries.len() - i,
    {
        if entries[i].0 == *key {
            return Some(i);
        }
        assert(entries@.skip(i as int).drop_first() =~= entries@.skip(i + 1));
        i += 1;
    }
    None
}

/// Reads the string under the `text` key of a record, unchanged.
pub fn extract_text(record: &Record) -> (r: Result<String, RecordError>)
    ensures
        outcome_view(r) == text_of(*record),
{
    match record {
        Record::Object(entries) => {
            let key = String::from_str("text");
            match find_key(entries, &key) {
                Some(i) => match &entries[i].1 {
                    Value::String(s) => Ok(s.clone()),
                    _ => Err(RecordError::TextNotString),
                },
                None => Err(RecordError::MissingText),
            }
        },
        _ => Err(RecordError::NotAnObject),
    }
}

/// Reading the text is a function of the record alone: equal records give equal
/// outcomes, the same text or the same kind of failure.
pub proof fn extract_text_is_pure(a: Record, b: Record)
    requires
        a == b,
    ensures
        text_of(a) == text_of(b),
{
}

} // verus!
