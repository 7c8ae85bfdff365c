use vstd::prelude::*;

verus! {

/// The ways configuration resolution and lookup can fail. Every failure is
/// fatal to startup by design: nothing here is retried or defaulted.
#[derive(Debug, PartialEq, Eq)]
pub enum ConfigError {
    /// `Config::get` was asked for a path that no layer defined. Carries the
    /// offending path.
    MissingParam(String),
    /// A tagged value was converted to a target type outside the declared
    /// support matrix, or its text content did not parse as the target type.
    UnsupportedConversion,
    /// A default-layer value referenced a path that no earlier record of the
    /// default layer defined. Carries the referenced path.
    UndefinedReference(String),
    /// A default-layer value referenced a path whose current value is not
    /// text-bearing. Carries the referenced path.
    ReferenceNotText(String),
    /// A default-layer record is neither blank, a comment, nor a
    /// `key = value` pair. Carries the record's text.
    MalformedRecord(String),
}

/// Mathematical model of a [`ConfigError`]: the same variants over character
/// sequences.
pub ghost enum ErrorModel {
    MissingParam(Seq<char>),
    UnsupportedConversion,
    UndefinedReference(Seq<char>),
    ReferenceNotText(Seq<char>),
    MalformedRecord(Seq<char>),
}

impl View for ConfigError {
    type V = ErrorModel;

    open spec fn view(&self) -> ErrorModel {
        match self {
            ConfigError::MissingParam(p) => ErrorModel::MissingParam(p@),
            ConfigError::UnsupportedConversion => ErrorModel::UnsupportedConversion,
            ConfigError::UndefinedReference(p) => ErrorModel::UndefinedReference(p@),
            ConfigError::ReferenceNotText(p) => ErrorModel::ReferenceNotText(p@),
            ConfigError::MalformedRecord(l) => ErrorModel::MalformedRecord(l@),
        }
    }
}

} // verus!
