use crate::digits::{dec_str, dec_val, int_dec_str, parse_dec_u64, parses_as_dec, render_isize,
    render_u64};
use crate::error::{ConfigError, ErrorModel};
use vstd::prelude::*;

verus! {

/// A typed configuration value: the closed set of kinds a parameter can hold.
///
/// A filesystem path is carried as its textual form and a duration as its
/// whole-second count, so that every payload is a plain value.
#[derive(Debug, PartialEq, Eq)]
pub enum ParamValue {
    /// Free text.
    Text(String),
    /// A pointer-sized unsigned number.
    UnsignedSize(usize),
    /// A 64-bit unsigned number.
    U64(u64),
    /// A 32-bit unsigned number.
    U32(u32),
    /// A pointer-sized signed number.
    SignedSize(isize),
    /// A duration, counted in whole seconds.
    Duration(u64),
    /// A filesystem path, carried as its textual form.
    FilesystemPath(String),
    /// An optional string-to-string mapping, carried as key/value pairs
    /// ordered by key.
    OptionalStringMapping(Option<Vec<(String, String)>>),
}

/// Mathematical model of a [`ParamValue`]: the same variants over unbounded
/// numbers and character sequences.
pub ghost enum ValueModel {
    Text(Seq<char>),
    UnsignedSize(nat),
    U64(nat),
    U32(nat),
    SignedSize(int),
    Duration(nat),
    FilesystemPath(Seq<char>),
    OptionalStringMapping(Option<Seq<(Seq<char>, Seq<char>)>>),
}

/// Model of a sequence of string pairs: each string as its characters.
pub open spec fn string_pairs_model(ps: Seq<(String, String)>) -> Seq<(Seq<char>, Seq<char>)> {
    ps.map(|i: int, p: (String, String)| (p.0@, p.1@))
}

/// Model of an optional string-to-string mapping.
pub open spec fn mapping_model(m: Option<Vec<(String, String)>>) -> Option<
    Seq<(Seq<char>, Seq<char>)>,
> {
    match m {
        None => None,
        Some(v) => Some(string_pairs_model(v@)),
    }
}

impl View for ParamValue {
    type V = ValueModel;

    open spec fn view(&self) -> ValueModel {
        match self {
            ParamValue::Text(s) => ValueModel::Text(s@),
            ParamValue::UnsignedSize(u) => ValueModel::UnsignedSize(*u as nat),
            ParamValue::U64(u) => ValueModel::U64(*u as nat),
            ParamValue::U32(u) => ValueModel::U32(*u as nat),
            ParamValue::SignedSize(i) => ValueModel::SignedSize(*i as int),
            ParamValue::Duration(secs) => ValueModel::Duration(*secs as nat),
            ParamValue::FilesystemPath(p) => ValueModel::FilesystemPath(p@),
            ParamValue::OptionalStringMapping(m) => ValueModel::OptionalStringMapping(
                mapping_model(*m),
            ),
        }
    }
}

impl Default for ParamValue {
    /// The default value is empty text.
    fn default() -> (r: Self)
        ensures
            r@ == ValueModel::Text(Seq::<char>::empty()),
    {
        ParamValue::Text(String::new())
    }
}

/// What parsing the text payload as a JSON object of string keys and string
/// values yields: the pairs ordered by key, or nothing when the payload is
/// malformed. Determined by the characters alone.
pub uninterp spec fn json_string_map_of(s: Seq<char>) -> Option<Seq<(Seq<char>, Seq<char>)>>;

/// Relies on `serde_json::from_str` deserializing a JSON object into a
/// `BTreeMap<String, String>`: it succeeds exactly on a complete JSON document
/// that is an object with string values, and iterating the map yields the
/// pairs sorted by key, so the result is a function of the text alone. A
/// deserialization error is degraded to "no mapping" by design.
#[verifier::external_body]
fn parse_json_mapping(s: &str) -> (r: Option<Vec<(String, String)>>)
    ensures
        mapping_model(r) == json_string_map_of(s@),
{
    match serde_json::from_str::<std::collections::BTreeMap<String, String>>(s) {
        Ok(m) => Some(m.into_iter().collect()),
        Err(_) => None,
    }
}

/// The supported conversions to text: text and paths pass through, unsigned
/// and signed numbers and durations render in decimal.
pub open spec fn as_text(v: ValueModel) -> Option<Seq<char>> {
    match v {
        ValueModel::Text(s) => Some(s),
        ValueModel::UnsignedSize(n) => Some(dec_str(n)),
        ValueModel::U64(n) => Some(dec_str(n)),
        ValueModel::SignedSize(i) => Some(int_dec_str(i)),
        ValueModel::Duration(n) => Some(dec_str(n)),
        ValueModel::FilesystemPath(p) => Some(p),
        _ => None,
    }
}

/// The supported conversions to an unsigned size: the matching variant passes
/// through, text parses as decimal.
pub open spec fn as_unsigned_size(v: ValueModel) -> Option<nat> {
    match v {
        ValueModel::UnsignedSize(n) => Some(n),
        ValueModel::Text(s) => if parses_as_dec(s) && dec_val(s) <= usize::MAX {
            Some(dec_val(s))
        } else {
            None
        },
        _ => None,
    }
}

/// The supported conversions to a 64-bit unsigned number.
pub open spec fn as_u64(v: ValueModel) -> Option<nat> {
    match v {
        ValueModel::U64(n) => Some(n),
        ValueModel::Text(s) => if parses_as_dec(s) && dec_val(s) <= u64::MAX {
            Some(dec_val(s))
        } else {
            None
        },
        _ => None,
    }
}

/// The supported conversions to a 32-bit unsigned number.
pub open spec fn as_u32(v: ValueModel) -> Option<nat> {
    match v {
        ValueModel::U32(n) => Some(n),
        ValueModel::Text(s) => if parses_as_dec(s) && dec_val(s) <= u32::MAX {
            Some(dec_val(s))
        } else {
            None
        },
        _ => None,
    }
}

/// The supported conversions to a signed size: only the matching variant.
pub open spec fn as_signed_size(v: ValueModel) -> Option<int> {
    match v {
        ValueModel::SignedSize(i) => Some(i),
        _ => None,
    }
}

/// The supported conversions to a duration: the matching variant passes
/// through, unsigned numbers count whole seconds, text parses as decimal
/// seconds.
pub open spec fn as_duration_secs(v: ValueModel) -> Option<nat> {
    match v {
        ValueModel::Duration(n) => Some(n),
        ValueModel::U64(n) => Some(n),
        ValueModel::UnsignedSize(n) => Some(n),
        ValueModel::Text(s) => if parses_as_dec(s) && dec_val(s) <= u64::MAX {
            Some(dec_val(s))
        } else {
            None
        },
        _ => None,
    }
}

/// The supported conversions to a filesystem path: the matching variant passes
/// through, text is taken as a path without validation.
pub open spec fn as_path(v: ValueModel) -> Option<Seq<char>> {
    match v {
        ValueModel::FilesystemPath(p) => Some(p),
        ValueModel::Text(s) => Some(s),
        _ => None,
    }
}

/// The supported conversions to an optional string mapping: the matching
/// variant passes through, text parses as a JSON object with a lenient
/// fallback to "no mapping".
pub open spec fn as_mapping(v: ValueModel) -> Option<Option<Seq<(Seq<char>, Seq<char>)>>> {
    match v {
        ValueModel::OptionalStringMapping(m) => Some(m),
        ValueModel::Text(s) => Some(json_string_map_of(s)),
        _ => None,
    }
}

/// Copies an optional string mapping, pair by pair.
fn clone_mapping(m: &Option<Vec<(String, String)>>) -> (r: Option<Vec<(String, String)>>)
    ensures
        mapping_model(r) == mapping_model(*m),
{
    match m {
        None => None,
        Some(pairs) => {
            let mut out: Vec<(String, String)> = Vec::new();
            let mut i: usize = 0;
            while i < pairs.len()
                invariant
                    i <= pairs@.len(),
                    out@.len() == i,
                    forall|j: int|
                        0 <= j < i ==> out@[j].0@ == pairs@[j].0@ && out@[j].1@ == pairs@[j].1@,
                decreases pairs@.len() - i,
            {
                let p = &pairs[i];
                out.push((p.0.clone(), p.1.clone()));
                i = i + 1;
            }
            proof {
                assert(string_pairs_model(out@) =~= string_pairs_model(pairs@));
            }
            Some(out)
        },
    }
}

impl ParamValue {
    /// Copies the value; the copy has the same model.
    pub fn duplicate(&self) -> (r: Self)
        ensures
            r@ == self@,
    {
        match self {
            ParamValue::Text(s) => ParamValue::Text(s.clone()),
            ParamValue::UnsignedSize(u) => ParamValue::UnsignedSize(*u),
            ParamValue::U64(u) => ParamValue::U64(*u),
            ParamValue::U32(u) => ParamValue::U32(*u),
            ParamValue::SignedSize(i) => ParamValue::SignedSize(*i),
            ParamValue::Duration(secs) => ParamValue::Duration(*secs),
            ParamValue::FilesystemPath(p) => ParamValue::FilesystemPath(p.clone()),
            ParamValue::OptionalStringMapping(m) => ParamValue::OptionalStringMapping(
                clone_mapping(m),
            ),
        }
    }

    /// Converts to text, exactly as [`as_text`] states.
    pub fn to_text(&self) -> (r: Result<String, ConfigError>)
        ensures
            match r {
                Ok(s) => as_text(self@) == Some(s@),
                Err(e) => as_text(self@) is None && e@ == ErrorModel::UnsupportedConversion,
            },
    {
        match self {
            ParamValue::Text(s) => Ok(s.clone()),
            ParamValue::UnsignedSize(u) => Ok(render_u64(*u as u64)),
            ParamValue::U64(u) => Ok(render_u64(*u)),
            ParamValue::SignedSize(i) => Ok(render_isize(*i)),
            ParamValue::Duration(secs) => Ok(render_u64(*secs)),
            ParamValue::FilesystemPath(p) => Ok(p.clone()),
            _ => Err(ConfigError::UnsupportedConversion),
        }
    }

    /// Converts to an unsigned size, exactly as [`as_unsigned_size`] states.
    pub fn to_unsigned_size(&self) -> (r: Result<usize, ConfigError>)
        ensures
            match r {
                Ok(u) => as_unsigned_size(self@) == Some(u as nat),
                Err(e) => as_unsigned_size(self@) is None && e@
                    == ErrorModel::UnsupportedConversion,
            },
    {
        match self {
            ParamValue::UnsignedSize(u) => Ok(*u),
            ParamValue::Text(s) => {
                match parse_dec_u64(s.as_str()) {
                    Some(v) => if v <= usize::MAX as u64 {
                        Ok(v as usize)
                    } else {
                        Err(ConfigError::UnsupportedConversion)
                    },
                    None => Err(ConfigError::UnsupportedConversion),
                }
            },
            _ => Err(ConfigError::UnsupportedConversion),
        }
    }

    /// Converts to a 64-bit unsigned number, exactly as [`as_u64`] states.
    pub fn to_u64(&self) -> (r: Result<u64, ConfigError>)
        ensures
            match r {
                Ok(u) => as_u64(self@) == Some(u as nat),
                Err(e) => as_u64(self@) is None && e@ == ErrorModel::UnsupportedConversion,
            },
    {
        match self {
            ParamValue::U64(u) => Ok(*u),
            ParamValue::Text(s) => {
                match parse_dec_u64(s.as_str()) {
                    Some(v) => Ok(v),
                    None => Err(ConfigError::UnsupportedConversion),
                }
            },
            _ => Err(ConfigError::UnsupportedConversion),
        }
    }

    /// Converts to a 32-bit unsigned number, exactly as [`as_u32`] states.
    pub fn to_u32(&self) -> (r: Result<u32, ConfigError>)
        ensures
            match r {
                Ok(u) => as_u32(self@) == Some(u as nat),
                Err(e) => as_u32(self@) is None && e@ == ErrorModel::UnsupportedConversion,
            },
    {
        match self {
            ParamValue::U32(u) => Ok(*u),
            ParamValue::Text(s) => {
                match parse_dec_u64(s.as_str()) {
                    Some(v) => if v <= u32::MAX as u64 {
                        Ok(v as u32)
                    } else {
                        Err(ConfigError::UnsupportedConversion)
                    },
                    None => Err(ConfigError::UnsupportedConversion),
                }
            },
            _ => Err(ConfigError::UnsupportedConversion),
        }
    }

    /// Converts to a signed size, exactly as [`as_signed_size`] states: only
    /// the matching variant is supported.
    pub fn to_signed_size(&self) -> (r: Result<isize, ConfigError>)
        ensures
            match r {
                Ok(i) => as_signed_size(self@) == Some(i as int),
                Err(e) => as_signed_size(self@) is None && e@ == ErrorModel::UnsupportedConversion,
            },
    {
        match self {
            ParamValue::SignedSize(i) => Ok(*i),
            _ => Err(ConfigError::UnsupportedConversion),
        }
    }

    /// Converts to a duration in whole seconds, exactly as
    /// [`as_duration_secs`] states.
    pub fn to_duration_secs(&self) -> (r: Result<u64, ConfigError>)
        ensures
            match r {
                Ok(secs) => as_duration_secs(self@) == Some(secs as nat),
                Err(e) => as_duration_secs(self@) is None && e@
                    == ErrorModel::UnsupportedConversion,
            },
    {
        match self {
            ParamValue::Duration(secs) => Ok(*secs),
            ParamValue::U64(u) => Ok(*u),
            ParamValue::UnsignedSize(u) => Ok(*u as u64),
            ParamValue::Text(s) => {
                match parse_dec_u64(s.as_str()) {
                    Some(v) => Ok(v),
                    None => Err(ConfigError::UnsupportedConversion),
                }
            },
            _ => Err(ConfigError::UnsupportedConversion),
        }
    }

    /// Converts to a filesystem path, exactly as [`as_path`] states.
    pub fn to_path(&self) -> (r: Result<String, ConfigError>)
        ensures
            match r {
                Ok(p) => as_path(self@) == Some(p@),
                Err(e) => as_path(self@) is None && e@ == ErrorModel::UnsupportedConversion,
            },
    {
        match self {
            ParamValue::FilesystemPath(p) => Ok(p.clone()),
            ParamValue::Text(s) => Ok(s.clone()),
            _ => Err(ConfigError::UnsupportedConversion),
        }
    }

    /// Converts to an optional string mapping, exactly as [`as_mapping`]
    /// states: a malformed text payload degrades to no mapping instead of
    /// failing.
    pub fn to_mapping(&self) -> (r: Result<Option<Vec<(String, String)>>, ConfigError>)
        ensures
            match r {
                Ok(m) => as_mapping(self@) == Some(mapping_model(m)),
                Err(e) => as_mapping(self@) is None && e@ == ErrorModel::UnsupportedConversion,
            },
    {
        match self {
            ParamValue::OptionalStringMapping(m) => Ok(clone_mapping(m)),
            ParamValue::Text(s) => Ok(parse_json_mapping(s.as_str())),
            _ => Err(ConfigError::UnsupportedConversion),
        }
    }
}

} // verus!
