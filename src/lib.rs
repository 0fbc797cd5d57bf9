//! A codec layer for a byte-oriented key-value store.
//!
//! Values are encoded to bytes and decoded back either as zero-copy views into
//! the buffer they were read from or as independently owned copies.
use vstd::prelude::*;

pub mod gat;
pub mod impls;
pub mod trait_def;
pub mod wire;

verus! {

/// What went wrong in an encode or a decode.
#[derive(Clone, Copy, Debug, PartialEq, Eq, Structural)]
pub enum ErrorKind {
    /// The bytes are too short, or a field holds no valid content.
    MalformedInput,
    /// The value cannot be represented in the wire format.
    EncodingError,
}

/// The error of the codecs of this crate.
#[derive(Clone, Copy, Debug, PartialEq, Eq, Structural)]
pub struct Error {
    pub kind: ErrorKind,
}

impl Error {
    pub fn malformed() -> (e: Error)
        ensures
            e.kind == ErrorKind::MalformedInput,
    {
        Error { kind: ErrorKind::MalformedInput }
    }

    pub fn encoding() -> (e: Error)
        ensures
            e.kind == ErrorKind::EncodingError,
    {
        Error { kind: ErrorKind::EncodingError }
    }
}

/// An in-memory key-value store: entry `i` maps `keys[i]` to `values[i]`.
/// Only the first `min(keys.len(), values.len())` pairs are entries.
pub struct DB {
    pub keys: Vec<Vec<u8>>,
    pub values: Vec<Vec<u8>>,
}

impl Default for DB {
    fn default() -> (db: DB)
        ensures
            db.keys@.len() == 0,
            db.values@.len() == 0,
    {
        DB { keys: Vec::new(), values: Vec::new() }
    }
}

/// Whether the byte sequences `a` and `b` are equal.
pub fn bytes_equal(a: &[u8], b: &[u8]) -> (r: bool)
    ensures
        r == (a@ == b@),
{
    if a.len() != b.len() {
        return false;
    }
    let mut i: usize = 0;
    while i < a.len()
        invariant
            i <= a@.len(),
            a@.len() == b@.len(),
            forall|j: int| 0 <= j < i ==> a@[j] == b@[j],
        decreases a@.len() - i,
    {
        if a[i] != b[i] {
            return false;
        }
        i = i + 1;
    }
    assert(a@ =~= b@);
    true
}

impl DB {
    /// The number of entries.
    pub open spec fn entries(&self) -> int {
        if self.keys@.len() <= self.values@.len() {
            self.keys@.len() as int
        } else {
            self.values@.len() as int
        }
    }

    /// The first entry at or after `i` whose key is `key`.
    pub open spec fn find_from(&self, key: Seq<u8>, i: int) -> Option<int>
        decreases self.entries() - i,
    {
        if i < 0 || i >= self.entries() {
            None
        } else if self.keys@[i]@ == key {
            Some(i)
        } else {
            self.find_from(key, i + 1)
        }
    }

    /// The value stored under `key`: that of the first entry with that key.
    pub open spec fn spec_get(&self, key: Seq<u8>) -> Option<Seq<u8>> {
        match self.find_from(key, 0) {
            Some(i) => Some(self.values@[i]@),
            None => None,
        }
    }

    /// Looks up the value stored under `key`, borrowing it from the store.
    pub fn get(&self, key: &[u8]) -> (r: Option<&[u8]>)
        ensures
            match r {
                Some(v) => self.spec_get(key@) == Some(v@),
                None => self.spec_get(key@) is None,
            },
    {
        let n: usize = if self.keys.len() <= self.values.len() {
            self.keys.len()
        } else {
            self.values.len()
        };
        let mut i: usize = 0;
        while i < n
            invariant
                n == self.entries(),
                i <= n,
                self.find_from(key@, 0) == self.find_from(key@, i as int),
            decreases n - i,
        {
            if bytes_equal(self.keys[i].as_slice(), key) {
                return Some(self.values[i].as_slice());
            }
            i = i + 1;
        }
        None
    }
}

} // verus!
