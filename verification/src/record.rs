use vstd::prelude::*;

use crate::authority::str_eq;

verus! {

/// A property value as the graph database hands it back, reduced to what
/// the server reads: text, integers, booleans, null, and anything else.
#[derive(Debug, Clone)]
pub enum PropValue {
    Text(String),
    Integer(i64),
    Boolean(bool),
    Null,
    Other,
}

/// The properties of one node or relationship of a result row, as key/value
/// pairs. A key is looked up at its first occurrence.
#[derive(Debug, Clone)]
pub struct NodeRecord {
    pub props: Vec<(String, PropValue)>,
}

/// A path of a result row: its nodes and its relationships, in order.
#[derive(Debug, Clone)]
pub struct PathRecord {
    pub nodes: Vec<NodeRecord>,
    pub rels: Vec<NodeRecord>,
}

/// The value stored under `key`, taken at its first occurrence.
pub open spec fn lookup(entries: Seq<(String, PropValue)>, key: Seq<char>) -> Option<PropValue>
    decreases entries.len(),
{
    if entries.len() == 0 {
        None
    } else if entries[0].0@ == key {
        Some(entries[0].1)
    } else {
        lookup(entries.drop_first(), key)
    }
}

impl NodeRecord {
    /// The text stored under `key`, if the key is there and holds text.
    pub open spec fn text(self, key: Seq<char>) -> Option<Seq<char>> {
        match lookup(self.props@, key) {
            Some(PropValue::Text(s)) => Some(s@),
            _ => None,
        }
    }

    /// The integer stored under `key`, if the key is there and holds one.
    pub open spec fn integer(self, key: Seq<char>) -> Option<i64> {
        match lookup(self.props@, key) {
            Some(PropValue::Integer(n)) => Some(n),
            _ => None,
        }
    }

    /// Finds the entry for `key`: its position among the entries, if any.
    fn position(&self, key: &str) -> (r: Option<usize>)
        ensures
            match r {
                Some(i) => i < self.props@.len() && lookup(self.props@, key@) == Some(
                    self.props@[i as int].1,
                ),
                None => lookup(self.props@, key@) is None,
            },
    {
        let n = self.props.len();
        let mut i: usize = 0;
        proof {
            assert(self.props@.skip(0) =~= self.props@);
        }
        while i < n
            invariant
                n == self.props@.len(),
                i <= n,
                lookup(self.props@, key@) == lookup(self.props@.skip(i as int), key@),
            decreases n - i,
        {
            let ghost rest = self.props@.skip(i as int);
            assert(rest[0] == self.props@[i as int]);
            if str_eq(self.props[i].0.as_str(), key) {
                return Some(i);
            }
            assert(rest.drop_first() =~= self.props@.skip(i + 1));
            i = i + 1;
        }
        None
    }

    /// The text stored under `key`, as the database driver's typed getter gives it.
    pub fn get_text(&self, key: &str) -> (r: Option<String>)
        ensures
            match r {
                Some(s) => self.text(key@) == Some(s@),
                None => self.text(key@) is None,
            },
    {
        match self.position(key) {
            Some(i) => match &self.props[i].1 {
                PropValue::Text(s) => Some(s.clone()),
                _ => None,
            },
            None => None,
        }
    }

    /// The integer stored under `key`, as the database driver's typed getter gives it.
    pub fn get_integer(&self, key: &str) -> (r: Option<i64>)
        ensures
            r == self.integer(key@),
    {
        match self.position(key) {
            Some(i) => match &self.props[i].1 {
                PropValue::Integer(n) => Some(*n),
                _ => None,
            },
            None => None,
        }
    }

    /// The text under `key`, where the record is known to hold it.
    pub fn text_at(&self, key: &str) -> (r: String)
        requires
            self.text(key@) is Some,
        ensures
            Some(r@) == self.text(key@),
    {
        match self.get_text(key) {
            Some(s) => s,
            None => String::new(),
        }
    }

    /// The integer under `key`, where the record is known to hold it.
    pub fn integer_at(&self, key: &str) -> (r: i64)
        requires
            self.integer(key@) is Some,
        ensures
            Some(r) == self.integer(key@),
    {
        match self.get_integer(key) {
            Some(n) => n,
            None => 0,
        }
    }
}

} // verus!
