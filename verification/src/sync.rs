use crate::config::Config;
use crate::error::{ConfigError, ErrorModel};
use crate::metadata::{MetadataModel, ParamMetadata};
use crate::value::{as_duration_secs, as_u32, ParamValue, ValueModel};
use vstd::prelude::*;

verus! {

/// The capability every application component may declare to centralize its
/// configuration: hydrating its typed settings from a built [`Config`], and
/// reporting them back out as (path, value, metadata) triples for default-file
/// generation and runtime introspection.
pub trait Configurable: Sized {
    /// Reads every value the component needs from the built configuration and
    /// assembles its settings. To be called only after all layers were applied
    /// and the builder finalized.
    fn new(built: &Config) -> Result<Self, ConfigError>;

    /// The reverse projection: the (path, value, metadata) triples this
    /// instance's settings correspond to, in a stable order.
    fn dump(&self) -> Vec<(String, ParamValue, ParamMetadata)>;
}

/// Model of a dump: each triple over its models.
pub open spec fn triples_model(ts: Seq<(String, ParamValue, ParamMetadata)>) -> Seq<
    (Seq<char>, ValueModel, MetadataModel),
> {
    ts.map(|i: int, t: (String, ParamValue, ParamMetadata)| (t.0@, t.1@, t.2@))
}

/// The settings of the block-synchronization component: how long it sleeps
/// between propagation rounds and after recoverable errors (whole seconds),
/// and how many blocks and state updates one stream may carry.
#[derive(Debug, Clone, Copy, PartialEq, Eq, Structural)]
pub struct SyncConfig {
    pub block_propagation_sleep_duration: u64,
    pub recoverable_error_sleep_duration: u64,
    pub blocks_max_stream_size: u32,
    pub state_updates_max_stream_size: u32,
}

/// Whether the value converts to a duration that fits a second count.
pub open spec fn dur_ok(v: ValueModel) -> bool {
    match as_duration_secs(v) {
        Some(n) => n <= u64::MAX,
        None => false,
    }
}

/// The second count the value converts to.
pub open spec fn dur_val(v: ValueModel) -> nat {
    match as_duration_secs(v) {
        Some(n) => n,
        None => 0,
    }
}

/// Whether the value converts to a 32-bit unsigned number.
pub open spec fn u32_ok(v: ValueModel) -> bool {
    match as_u32(v) {
        Some(n) => n <= u32::MAX,
        None => false,
    }
}

/// The 32-bit unsigned number the value converts to.
pub open spec fn u32_val(v: ValueModel) -> nat {
    match as_u32(v) {
        Some(n) => n,
        None => 0,
    }
}

/// What hydrating [`SyncConfig`] from a configuration mapping yields: its four
/// paths are looked up and converted in order, and the first missing path or
/// failing conversion is the failure reported.
pub open spec fn spec_hydrate(m: Map<Seq<char>, ValueModel>) -> Result<SyncConfig, ErrorModel> {
    if !m.contains_key("sync.block_propagation_sleep_duration"@) {
        Err(ErrorModel::MissingParam("sync.block_propagation_sleep_duration"@))
    } else if !dur_ok(m["sync.block_propagation_sleep_duration"@]) {
        Err(ErrorModel::UnsupportedConversion)
    } else if !m.contains_key("sync.recoverable_error_sleep_duration"@) {
        Err(ErrorModel::MissingParam("sync.recoverable_error_sleep_duration"@))
    } else if !dur_ok(m["sync.recoverable_error_sleep_duration"@]) {
        Err(ErrorModel::UnsupportedConversion)
    } else if !m.contains_key("sync.blocks_max_stream_size"@) {
        Err(ErrorModel::MissingParam("sync.blocks_max_stream_size"@))
    } else if !u32_ok(m["sync.blocks_max_stream_size"@]) {
        Err(ErrorModel::UnsupportedConversion)
    } else if !m.contains_key("sync.state_updates_max_stream_size"@) {
        Err(ErrorModel::MissingParam("sync.state_updates_max_stream_size"@))
    } else if !u32_ok(m["sync.state_updates_max_stream_size"@]) {
        Err(ErrorModel::UnsupportedConversion)
    } else {
        Ok(
            SyncConfig {
                block_propagation_sleep_duration: dur_val(
                    m["sync.block_propagation_sleep_duration"@],
                ) as u64,
                recoverable_error_sleep_duration: dur_val(
                    m["sync.recoverable_error_sleep_duration"@],
                ) as u64,
                blocks_max_stream_size: u32_val(m["sync.blocks_max_stream_size"@]) as u32,
                state_updates_max_stream_size: u32_val(
                    m["sync.state_updates_max_stream_size"@],
                ) as u32,
            },
        )
    }
}

/// The metadata a dumped parameter carries: its path as the long name.
pub open spec fn dump_meta(long: Seq<char>, description: Seq<char>) -> MetadataModel {
    MetadataModel { long, short: None, description, default_value: None }
}

/// What dumping a [`SyncConfig`] yields: its four parameters, in the order
/// they are hydrated.
pub open spec fn spec_dump(s: SyncConfig) -> Seq<(Seq<char>, ValueModel, MetadataModel)> {
    seq![
        (
            "sync.block_propagation_sleep_duration"@,
            ValueModel::Duration(s.block_propagation_sleep_duration as nat),
            dump_meta(
                "sync.block_propagation_sleep_duration"@,
                "Sleep between block propagation rounds, in seconds."@,
            ),
        ),
        (
            "sync.recoverable_error_sleep_duration"@,
            ValueModel::Duration(s.recoverable_error_sleep_duration as nat),
            dump_meta(
                "sync.recoverable_error_sleep_duration"@,
                "Sleep after a recoverable error, in seconds."@,
            ),
        ),
        (
            "sync.blocks_max_stream_size"@,
            ValueModel::U32(s.blocks_max_stream_size as nat),
            dump_meta("sync.blocks_max_stream_size"@, "Most blocks in one stream."@),
        ),
        (
            "sync.state_updates_max_stream_size"@,
            ValueModel::U32(s.state_updates_max_stream_size as nat),
            dump_meta("sync.state_updates_max_stream_size"@, "Most state updates in one stream."@),
        ),
    ]
}

impl SyncConfig {
    /// Looks the four sync parameters up and converts them, exactly as
    /// [`spec_hydrate`] states.
    pub fn hydrate(built: &Config) -> (r: Result<SyncConfig, ConfigError>)
        ensures
            match r {
                Ok(s) => spec_hydrate(built@) == Ok::<SyncConfig, ErrorModel>(s),
                Err(e) => spec_hydrate(built@) == Err::<SyncConfig, ErrorModel>(e@),
            },
    {
        let v1 = match built.get("sync.block_propagation_sleep_duration") {
            Ok(v) => v,
            Err(e) => {
                return Err(e);
            },
        };
        let d1 = match v1.to_duration_secs() {
            Ok(d) => d,
            Err(e) => {
                return Err(e);
            },
        };
        let v2 = match built.get("sync.recoverable_error_sleep_duration") {
            Ok(v) => v,
            Err(e) => {
                return Err(e);
            },
        };
        let d2 = match v2.to_duration_secs() {
            Ok(d) => d,
            Err(e) => {
                return Err(e);
            },
        };
        let v3 = match built.get("sync.blocks_max_stream_size") {
            Ok(v) => v,
            Err(e) => {
                return Err(e);
            },
        };
        let u3 = match v3.to_u32() {
            Ok(u) => u,
            Err(e) => {
                return Err(e);
            },
        };
        let v4 = match built.get("sync.state_updates_max_stream_size") {
            Ok(v) => v,
            Err(e) => {
                return Err(e);
            },
        };
        let u4 = match v4.to_u32() {
            Ok(u) => u,
            Err(e) => {
                return Err(e);
            },
        };
        Ok(
            SyncConfig {
                block_propagation_sleep_duration: d1,
                recoverable_error_sleep_duration: d2,
                blocks_max_stream_size: u3,
                state_updates_max_stream_size: u4,
            },
        )
    }

    /// Reports the four sync parameters back out, exactly as [`spec_dump`]
    /// states.
    pub fn dump_entries(&self) -> (r: Vec<(String, ParamValue, ParamMetadata)>)
        ensures
            triples_model(r@) == spec_dump(*self),
    {
        let mut out: Vec<(String, ParamValue, ParamMetadata)> = Vec::new();
        out.push(
            (
                "sync.block_propagation_sleep_duration".to_owned(),
                ParamValue::Duration(self.block_propagation_sleep_duration),
                ParamMetadata::new(
                    "sync.block_propagation_sleep_duration".to_owned(),
                    None,
                    "Sleep between block propagation rounds, in seconds.".to_owned(),
                    None,
                ),
            ),
        );
        out.push(
            (
                "sync.recoverable_error_sleep_duration".to_owned(),
                ParamValue::Duration(self.recoverable_error_sleep_duration),
                ParamMetadata::new(
                    "sync.recoverable_error_sleep_duration".to_owned(),
                    None,
                    "Sleep after a recoverable error, in seconds.".to_owned(),
                    None,
                ),
            ),
        );
        out.push(
            (
                "sync.blocks_max_stream_size".to_owned(),
                ParamValue::U32(self.blocks_max_stream_size),
                ParamMetadata::new(
                    "sync.blocks_max_stream_size".to_owned(),
                    None,
                    "Most blocks in one stream.".to_owned(),
                    None,
                ),
            ),
        );
        out.push(
            (
                "sync.state_updates_max_stream_size".to_owned(),
                ParamValue::U32(self.state_updates_max_stream_size),
                ParamMetadata::new(
                    "sync.state_updates_max_stream_size".to_owned(),
                    None,
                    "Most state updates in one stream.".to_owned(),
                    None,
                ),
            ),
        );
        proof {
            assert(triples_model(out@) =~= spec_dump(*self));
        }
        out
    }
}

impl Configurable for SyncConfig {
    fn new(built: &Config) -> Result<SyncConfig, ConfigError> {
        SyncConfig::hydrate(built)
    }

    fn dump(&self) -> Vec<(String, ParamValue, ParamMetadata)> {
        self.dump_entries()
    }
}

} // verus!
