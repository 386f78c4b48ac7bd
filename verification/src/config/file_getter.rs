//! Reads values of configuration files by nested keys, and remembers the
//! files it has read.

use vstd::prelude::*;
use serde_yaml::Value;
use crate::config::yaml::yaml_child;
use crate::config::yaml::yaml_entry;
use crate::error::Error;
use crate::error_kind::NOT_FOUND;
use crate::text::joined;
use crate::text::pieces;
use crate::text::split;
use crate::text_map::TextMap;

verus! {

/// The character between the keys of a nested key, as in `Root:Parent:Child`.
pub const KEY_SPLIT: char = ':';

pub const PATH_SPLIT: &'static str = "/";

pub const KEY_MISSING: &'static str = "could not find key '";

pub const FILE_MISSING: &'static str = "could not find file path '";

pub const FILE_MISSING_END: &'static str = "' within cache after insertion";

pub const QUOTE_END: &'static str = "'";

/// The value that a walk along `keys` into `value` ends at, or the first key
/// that the walk does not find.
pub open spec fn descend(value: Value, keys: Seq<Seq<char>>) -> Result<Value, Seq<char>>
    decreases keys.len(),
{
    if keys.len() == 0 {
        Ok(value)
    } else {
        match yaml_entry(value, keys[0]) {
            None => Err(keys[0]),
            Some(child) => descend(child, keys.drop_first()),
        }
    }
}

/// The value that a walk along `keys` into `value` ends at. Where a key is not
/// found the walk fails as not found, and names the key.
pub fn inner_value<'a>(value: &'a Value, keys: &Vec<String>) -> (found: Result<&'a Value, Error>)
    ensures
        match descend(*value, keys.deep_view()) {
            Ok(end) => found matches Ok(at) && *at == end,
            Err(key) => found matches Err(error) && error@.kind == NOT_FOUND@ && error@.message
                == KEY_MISSING@ + key + QUOTE_END@,
        },
{
    let mut current: &Value = value;
    let mut i: usize = 0;
    proof {
        assert(keys.deep_view().skip(0) =~= keys.deep_view());
    }
    while i < keys.len()
        invariant
            i <= keys.len(),
            descend(*value, keys.deep_view()) == descend(*current, keys.deep_view().skip(i as int)),
        decreases keys.len() - i,
    {
        let key = keys[i].as_str();
        proof {
            assert(keys.deep_view().skip(i as int)[0] == key@);
            assert(keys.deep_view().skip(i as int).drop_first() =~= keys.deep_view().skip(i + 1));
        }
        match yaml_child(current, key) {
            None => {
                let naming = joined(KEY_MISSING, key);
                return Err(Error::with_detail(NOT_FOUND, naming.as_str(), QUOTE_END));
            },
            Some(child) => {
                current = child;
            },
        }
        i += 1;
    }
    Ok(current)
}

/// Reads values from the files below a directory.
pub struct FileGetter {
    target_path: String,
    cache: TextMap<Value>,
}

impl FileGetter {
    /// The directory below which the files lie.
    pub closed spec fn target_path(&self) -> Seq<char> {
        self.target_path@
    }

    /// The files that were read, each by its path, with what it holds.
    pub closed spec fn documents(&self) -> Map<Seq<char>, Value> {
        self.cache@
    }

    /// The getter for the files below `target_path`, with no file read yet.
    pub fn new(target_path: String) -> (getter: FileGetter)
        ensures
            getter.target_path() == target_path@,
            getter.documents() == Map::<Seq<char>, Value>::empty(),
    {
        FileGetter { target_path, cache: TextMap::new() }
    }

    /// Where the file `file_path` lies: below the directory of the getter.
    pub fn complete_path(&self, file_path: &str) -> (path: String)
        ensures
            path@ == self.target_path() + PATH_SPLIT@ + file_path@,
    {
        let directory = joined(self.target_path.as_str(), PATH_SPLIT);
        joined(directory.as_str(), file_path)
    }

    /// Whether the file `file_path` was read before.
    pub fn is_cached(&self, file_path: &str) -> (cached: bool)
        ensures
            cached == self.documents().contains_key(file_path@),
    {
        self.cache.contains_key(file_path)
    }

    /// Remembers what the file `file_path` holds.
    pub fn remember(&mut self, file_path: &str, document: Value)
        ensures
            final(self).target_path() == old(self).target_path(),
            final(self).documents() == old(self).documents().insert(file_path@, document),
    {
        self.cache.insert(file_path.to_owned(), document);
    }

    /// The value of the file `file_path` under the nested key `key`, whose
    /// keys stand between colons. The file must have been read before; else,
    /// and where a key is not found, the value is not found.
    pub fn get(&self, file_path: &str, key: &str) -> (value: Result<&Value, Error>)
        ensures
            if self.documents().contains_key(file_path@) {
                match descend(self.documents()[file_path@], pieces(key@, KEY_SPLIT)) {
                    Ok(end) => value matches Ok(at) && *at == end,
                    Err(missing) => value matches Err(error) && error@.kind == NOT_FOUND@
                        && error@.message == KEY_MISSING@ + missing + QUOTE_END@,
                }
            } else {
                value matches Err(error) && error@.kind == NOT_FOUND@ && error@.message
                    == FILE_MISSING@ + file_path@ + FILE_MISSING_END@
            },
    {
        match self.cache.get(file_path) {
            None => {
                let naming = joined(FILE_MISSING, file_path);
                Err(Error::with_detail(NOT_FOUND, naming.as_str(), FILE_MISSING_END))
            },
            Some(document) => {
                let keys = split(key, KEY_SPLIT);
                inner_value(document, &keys)
            },
        }
    }
}

} // verus!
