use crate::value::{ParamValue, ValueModel};
use vstd::prelude::*;

verus! {

/// Static descriptive record for one parameter: its human-facing long and
/// short names, a description, and an optional default value. Purely
/// descriptive; it never participates in resolution.
#[derive(Debug)]
pub struct ParamMetadata {
    pub long: String,
    pub short: Option<String>,
    pub description: String,
    pub default_value: Option<ParamValue>,
}

/// Mathematical model of a [`ParamMetadata`].
pub ghost struct MetadataModel {
    pub long: Seq<char>,
    pub short: Option<Seq<char>>,
    pub description: Seq<char>,
    pub default_value: Option<ValueModel>,
}

/// Model of an optional string.
pub open spec fn opt_string_model(s: Option<String>) -> Option<Seq<char>> {
    match s {
        None => None,
        Some(t) => Some(t@),
    }
}

/// Model of an optional value.
pub open spec fn opt_value_model(v: Option<ParamValue>) -> Option<ValueModel> {
    match v {
        None => None,
        Some(w) => Some(w@),
    }
}

impl View for ParamMetadata {
    type V = MetadataModel;

    open spec fn view(&self) -> MetadataModel {
        MetadataModel {
            long: self.long@,
            short: opt_string_model(self.short),
            description: self.description@,
            default_value: opt_value_model(self.default_value),
        }
    }
}

impl ParamMetadata {
    /// Bundles the descriptive fields of one parameter.
    pub fn new(
        long: String,
        short: Option<String>,
        description: String,
        default_value: Option<ParamValue>,
    ) -> (r: Self)
        ensures
            r@ == (MetadataModel {
                long: long@,
                short: opt_string_model(short),
                description: description@,
                default_value: opt_value_model(default_value),
            }),
    {
        Self { description, long, short, default_value }
    }
}

} // verus!
