//! A small string-keyed association list.
//!
//! Custom options and environment variables are kept as ordered key/value
//! pairs; inserting an existing key replaces its value.

use vstd::prelude::*;

verus! {

/// An ordered list of key/value pairs with unique keys.
#[derive(Debug, Clone, PartialEq, Eq)]
pub struct KvList {
    /// The entries, in insertion order.
    pub entries: Vec<(String, String)>,
}

impl KvList {
    /// Whether some entry has the given key.
    pub open spec fn contains_key(self, key: Seq<char>) -> bool {
        exists|i: int| 0 <= i < self.entries@.len() && (#[trigger] self.entries@[i]).0@ == key
    }

    /// Create an empty list.
    pub fn new() -> (r: KvList)
        ensures
            r.entries@.len() == 0,
    {
        KvList { entries: Vec::new() }
    }

    /// The number of entries.
    pub fn len(&self) -> (r: usize)
        ensures
            r == self.entries@.len(),
    {
        self.entries.len()
    }

    /// Whether the list is empty.
    pub fn is_empty(&self) -> (r: bool)
        ensures
            r == (self.entries@.len() == 0),
    {
        self.entries.len() == 0
    }

    /// Set `key` to `value`: an existing entry is removed, and the new pair
    /// is appended.
    pub fn insert(&mut self, key: &str, value: &str)
        ensures
            final(self).entries@.len() >= 1,
            final(self).entries@.last().0@ == key@ && final(self).entries@.last().1@ == value@,
            !old(self).contains_key(key@) ==> final(self).entries@.drop_last()
                == old(self).entries@,
            old(self).contains_key(key@) ==> exists|i: int|
                {
                    &&& 0 <= i < old(self).entries@.len()
                    &&& (#[trigger] old(self).entries@[i]).0@ == key@
                    &&& (forall|j: int| 0 <= j < i ==> old(self).entries@[j].0@ != key@)
                    &&& final(self).entries@.drop_last() == old(self).entries@.remove(i)
                },
    {
        let n = self.entries.len();
        let mut i: usize = 0;
        let mut found: bool = false;
        while i < n && !found
            invariant
                *self == *old(self),
                n == self.entries@.len(),
                0 <= i <= n,
                forall|j: int| 0 <= j < i ==> (#[trigger] self.entries@[j]).0@ != key@,
                found ==> i < n && self.entries@[i as int].0@ == key@,
            decreases n - i, (if found {
                0int
            } else {
                1int
            }),
        {
            if crate::strutil::str_eq(self.entries[i].0.as_str(), key) {
                found = true;
            } else {
                i = i + 1;
            }
        }
        if found {
            self.entries.remove(i);
        }
        self.entries.push((String::from_str(key), String::from_str(value)));
        assert(self.entries@.drop_last() =~= (if found {
            old(self).entries@.remove(i as int)
        } else {
            old(self).entries@
        }));
    }

    /// Look up the value stored under `key`.
    pub fn get(&self, key: &str) -> (r: Option<&String>)
        ensures
            r is Some <==> self.contains_key(key@),
            r matches Some(v) ==> exists|i: int|
                {
                    &&& 0 <= i < self.entries@.len()
                    &&& (#[trigger] self.entries@[i]).0@ == key@
                    &&& (forall|j: int| 0 <= j < i ==> self.entries@[j].0@ != key@)
                    &&& *v == self.entries@[i].1
                },
    {
        let n = self.entries.len();
        let mut i: usize = 0;
        while i < n
            invariant
                n == self.entries@.len(),
                0 <= i <= n,
                forall|j: int| 0 <= j < i ==> (#[trigger] self.entries@[j]).0@ != key@,
            decreases n - i,
        {
            if crate::strutil::str_eq(self.entries[i].0.as_str(), key) {
                return Some(&self.entries[i].1);
            }
            i = i + 1;
        }
        None
    }
}

impl Default for KvList {
    /// The default list is empty.
    fn default() -> (r: KvList)
        ensures
            r.entries@.len() == 0,
    {
        KvList { entries: Vec::new() }
    }
}

} // verus!
