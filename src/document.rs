use vstd::prelude::*;

verus! {

/// A field value of a stored document, as far as this library reads it.
#[derive(Debug, Clone)]
pub enum Value {
    Str(String),
    /// A store identifier, in its hex form.
    ObjectId(String),
    /// Any other kind of value.
    Other,
}

/// A stored document: its fields in order.
#[derive(Debug, Clone)]
pub struct Document {
    pub entries: Vec<(String, Value)>,
}

/// The value of the first field named `key`.
pub open spec fn lookup(entries: Seq<(String, Value)>, key: Seq<char>) -> Option<Value>
    decreases entries.len(),
{
    if entries.len() == 0 {
        None
    } else if entries[0].0@ == key {
        Some(entries[0].1)
    } else {
        lookup(entries.drop_first(), key)
    }
}

/// The text of field `key`, where it is present and holds a string.
pub open spec fn str_field(d: Document, key: Seq<char>) -> Option<Seq<char>> {
    match lookup(d.entries@, key) {
        Some(Value::Str(s)) => Some(s@),
        _ => None,
    }
}

/// The hex text of field `key`, where it is present and holds an identifier.
pub open spec fn id_field(d: Document, key: Seq<char>) -> Option<Seq<char>> {
    match lookup(d.entries@, key) {
        Some(Value::ObjectId(s)) => Some(s@),
        _ => None,
    }
}

impl Document {
    pub fn new() -> (r: Document)
        ensures
            r.entries@.len() == 0,
    {
        Document { entries: Vec::new() }
    }

    /// Appends a field.
    pub fn push(&mut self, key: String, value: Value)
        ensures
            final(self).entries@ == old(self).entries@.push((key, value)),
    {
        self.entries.push((key, value));
    }

    /// The value of the first field named `key`.
    pub fn get(&self, key: &String) -> (r: Option<&Value>)
        ensures
            r matches Some(v) ==> lookup(self.entries@, key@) == Some(*v),
            r is None ==> lookup(self.entries@, key@) is None,
    {
        let mut i: usize = 0;
        assert(self.entries@.skip(0) =~= self.entries@);
        while i < self.entries.len()
            invariant
                i <= self.entries@.len(),
                lookup(self.entries@, key@) == lookup(self.entries@.skip(i as int), key@),
            decreases self.entries@.len() - i,
        {
            let ghost rest = self.entries@.skip(i as int);
            assert(rest.drop_first() =~= self.entries@.skip(i + 1));
            if self.entries[i].0 == *key {
                return Some(&self.entries[i].1);
            }
            i = i + 1;
        }
        None
    }

    /// The text of field `key`, where it is present and holds a string.
    pub fn get_str(&self, key: &String) -> (r: Option<String>)
        ensures
            r matches Some(s) ==> str_field(*self, key@) == Some(s@),
            r is None ==> str_field(*self, key@) is None,
    {
        match self.get(key) {
            Some(Value::Str(s)) => Some(s.clone()),
            _ => None,
        }
    }

    /// The hex text of field `key`, where it is present and holds an identifier.
    pub fn get_object_id(&self, key: &String) -> (r: Option<String>)
        ensures
            r matches Some(s) ==> id_field(*self, key@) == Some(s@),
            r is None ==> id_field(*self, key@) is None,
    {
        match self.get(key) {
            Some(Value::ObjectId(s)) => Some(s.clone()),
            _ => None,
        }
    }
}

} // verus!
