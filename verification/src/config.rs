use crate::error::{ConfigError, ErrorModel};
use crate::store::{entries_map, lookup};
use crate::value::{ParamValue, ValueModel};
use vstd::prelude::*;

verus! {

/// The immutable, final path-to-value mapping, produced exactly once by
/// finalizing a [`crate::ConfigurationBuilder`]. Exposes lookup by path and no
/// mutation.
#[derive(Debug)]
pub struct Config {
    pub(crate) entries: Vec<(String, ParamValue)>,
}

impl View for Config {
    type V = Map<Seq<char>, ValueModel>;

    closed spec fn view(&self) -> Map<Seq<char>, ValueModel> {
        entries_map(self.entries@)
    }
}

impl Config {
    /// Snapshots the accumulated entries as the final mapping.
    pub(crate) fn from_entries(entries: Vec<(String, ParamValue)>) -> (c: Config)
        ensures
            c@ == entries_map(entries@),
    {
        Config { entries }
    }

    /// Looks the parameter at `path` up. Returns its value exactly when some
    /// layer defined the path, and the missing-path error naming the path
    /// otherwise — never a default-constructed value.
    pub fn get(&self, path: &str) -> (r: Result<ParamValue, ConfigError>)
        ensures
            match r {
                Ok(v) => self@.contains_key(path@) && v@ == self@[path@],
                Err(e) => !self@.contains_key(path@) && e@ == ErrorModel::MissingParam(path@),
            },
    {
        match lookup(&self.entries, path) {
            Some(v) => Ok(v.duplicate()),
            None => Err(ConfigError::MissingParam(path.to_owned())),
        }
    }
}

} // verus!
