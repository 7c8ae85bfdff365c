use papyrus_config::{Config, ConfigError, Configurable, ConfigurationBuilder, ParamMetadata,
    ParamValue, SyncConfig};

const DEFAULT_TEXT: &str = "// Sync configuration.\n\
sync.block_propagation_sleep_duration = 10\n\
sync.recoverable_error_sleep_duration = ${sync.block_propagation_sleep_duration}\n\
sync.blocks_max_stream_size = 1000\n\
sync.state_updates_max_stream_size = 1000\n";

fn get_built_configuration() -> Config {
    ConfigurationBuilder::apply_default(DEFAULT_TEXT)
        .unwrap()
        .apply_config_file(&vec![])
        .apply_env(&vec![])
        .apply_command_line(&vec![])
        .build()
}

#[test]
fn test_config() {
    let config = get_built_configuration();

    let sync_config = SyncConfig::new(&config).unwrap();

    assert_eq!(10u64, sync_config.block_propagation_sleep_duration);
    assert_eq!(10u64, sync_config.recoverable_error_sleep_duration);
    assert_eq!(1000u32, sync_config.blocks_max_stream_size);
    assert_eq!(1000u32, sync_config.state_updates_max_stream_size);
}

#[test]
fn default_layer_value_survives_empty_layers() {
    let config = get_built_configuration();
    let v = config.get("sync.blocks_max_stream_size").unwrap();
    assert_eq!(v, ParamValue::Text("1000".to_string()));
}

#[test]
fn cli_layer_overrides_default() {
    let default_text = "x.count = 5\n";
    let cli = vec![("x.count".to_string(), ParamValue::UnsignedSize(9))];
    let config = ConfigurationBuilder::apply_default(default_text)
        .unwrap()
        .apply_config_file(&vec![])
        .apply_env(&vec![])
        .apply_command_line(&cli)
        .build();
    let v = config.get("x.count").unwrap();
    assert_eq!(v.to_unsigned_size().unwrap(), 9);
}

#[test]
fn cli_layer_leaves_untouched_paths_alone() {
    let default_text = "x.count = 5\ny.count = 7\n";
    let cli = vec![("x.count".to_string(), ParamValue::UnsignedSize(9))];
    let config = ConfigurationBuilder::apply_default(default_text)
        .unwrap()
        .apply_config_file(&vec![])
        .apply_env(&vec![])
        .apply_command_line(&cli)
        .build();
    assert_eq!(config.get("y.count").unwrap().to_unsigned_size().unwrap(), 7);
}

#[test]
fn latest_layer_wins_for_every_combination() {
    let default_text = "a = d\n";
    let file = vec![("a".to_string(), ParamValue::Text("file".to_string()))];
    let env = vec![("a".to_string(), ParamValue::Text("env".to_string()))];
    let cli = vec![("a".to_string(), ParamValue::Text("cli".to_string()))];

    let all = ConfigurationBuilder::apply_default(default_text)
        .unwrap()
        .apply_config_file(&file)
        .apply_env(&env)
        .apply_command_line(&cli)
        .build();
    assert_eq!(all.get("a").unwrap(), ParamValue::Text("cli".to_string()));

    let file_env = ConfigurationBuilder::apply_default(default_text)
        .unwrap()
        .apply_config_file(&file)
        .apply_env(&env)
        .apply_command_line(&vec![])
        .build();
    assert_eq!(file_env.get("a").unwrap(), ParamValue::Text("env".to_string()));

    let file_only = ConfigurationBuilder::apply_default(default_text)
        .unwrap()
        .apply_config_file(&file)
        .apply_env(&vec![])
        .apply_command_line(&vec![])
        .build();
    assert_eq!(file_only.get("a").unwrap(), ParamValue::Text("file".to_string()));
}

#[test]
fn later_pair_of_one_layer_wins() {
    let layer = vec![
        ("a".to_string(), ParamValue::U64(1)),
        ("a".to_string(), ParamValue::U64(2)),
    ];
    let config = ConfigurationBuilder::apply_default("")
        .unwrap()
        .apply_config_file(&layer)
        .apply_env(&vec![])
        .apply_command_line(&vec![])
        .build();
    assert_eq!(config.get("a").unwrap(), ParamValue::U64(2));
}

#[test]
fn interpolation_round_trip() {
    let builder = ConfigurationBuilder::apply_default("a.x = 10\na.y = ${a.x}\n").unwrap();
    let config = builder.build();
    assert_eq!(config.get("a.y").unwrap().to_text().unwrap(), "10");
}

#[test]
fn forward_reference_fails() {
    let r = ConfigurationBuilder::apply_default("a.y = ${a.x}\na.x = 10\n");
    assert_eq!(r.unwrap_err(), ConfigError::UndefinedReference("a.x".to_string()));
}

#[test]
fn reference_to_non_text_value_fails() {
    let builder = ConfigurationBuilder::apply_default("")
        .unwrap()
        .apply_config_file(&vec![("k".to_string(), ParamValue::U64(1))]);
    let r = papyrus_config::parse_common_value(&builder, "${k}".to_string());
    assert_eq!(r.unwrap_err(), ConfigError::ReferenceNotText("k".to_string()));
}

#[test]
fn malformed_record_fails() {
    let r = ConfigurationBuilder::apply_default("this line has no separator\n");
    assert_eq!(
        r.unwrap_err(),
        ConfigError::MalformedRecord("this line has no separator".to_string())
    );
}

#[test]
fn comments_and_blank_lines_are_ignored() {
    let config = ConfigurationBuilder::apply_default("// comment\n\na = 1\n").unwrap().build();
    assert_eq!(config.get("a").unwrap(), ParamValue::Text("1".to_string()));
    assert!(config.get("// comment").is_err());
}

#[test]
fn value_splits_at_first_separator() {
    let config = ConfigurationBuilder::apply_default("a = b = c\n").unwrap().build();
    assert_eq!(config.get("a").unwrap().to_text().unwrap(), "b = c");
}

#[test]
fn missing_path_signals_missing_param() {
    let config = get_built_configuration();
    let r = config.get("gateway.max_events_chunk_size");
    assert_eq!(
        r.unwrap_err(),
        ConfigError::MissingParam("gateway.max_events_chunk_size".to_string())
    );
}

#[test]
fn text_conversions_render_decimals() {
    assert_eq!(ParamValue::Text("hi".to_string()).to_text().unwrap(), "hi");
    assert_eq!(ParamValue::UnsignedSize(42).to_text().unwrap(), "42");
    assert_eq!(ParamValue::U64(0).to_text().unwrap(), "0");
    assert_eq!(ParamValue::U64(18446744073709551615).to_text().unwrap(), "18446744073709551615");
    assert_eq!(ParamValue::SignedSize(-5).to_text().unwrap(), "-5");
    assert_eq!(ParamValue::SignedSize(7).to_text().unwrap(), "7");
    assert_eq!(ParamValue::Duration(90).to_text().unwrap(), "90");
    assert_eq!(ParamValue::FilesystemPath("/tmp/x".to_string()).to_text().unwrap(), "/tmp/x");
    assert_eq!(
        ParamValue::U32(3).to_text().unwrap_err(),
        ConfigError::UnsupportedConversion
    );
    assert_eq!(
        ParamValue::OptionalStringMapping(None).to_text().unwrap_err(),
        ConfigError::UnsupportedConversion
    );
}

#[test]
fn numeric_conversions_parse_text() {
    assert_eq!(ParamValue::UnsignedSize(3).to_unsigned_size().unwrap(), 3);
    assert_eq!(ParamValue::Text("42".to_string()).to_unsigned_size().unwrap(), 42);
    assert_eq!(
        ParamValue::Text("abc".to_string()).to_unsigned_size().unwrap_err(),
        ConfigError::UnsupportedConversion
    );
    assert_eq!(
        ParamValue::Duration(3).to_unsigned_size().unwrap_err(),
        ConfigError::UnsupportedConversion
    );
    assert_eq!(ParamValue::U64(7).to_u64().unwrap(), 7);
    assert_eq!(ParamValue::Text("7".to_string()).to_u64().unwrap(), 7);
    assert_eq!(
        ParamValue::Text("18446744073709551616".to_string()).to_u64().unwrap_err(),
        ConfigError::UnsupportedConversion
    );
    assert_eq!(ParamValue::U32(9).to_u32().unwrap(), 9);
    assert_eq!(ParamValue::Text("4294967295".to_string()).to_u32().unwrap(), 4294967295);
    assert_eq!(
        ParamValue::Text("4294967296".to_string()).to_u32().unwrap_err(),
        ConfigError::UnsupportedConversion
    );
    assert_eq!(
        ParamValue::Text("".to_string()).to_u64().unwrap_err(),
        ConfigError::UnsupportedConversion
    );
}

#[test]
fn signed_size_accepts_only_its_own_variant() {
    assert_eq!(ParamValue::SignedSize(-3).to_signed_size().unwrap(), -3);
    assert_eq!(
        ParamValue::Text("5".to_string()).to_signed_size().unwrap_err(),
        ConfigError::UnsupportedConversion
    );
    assert_eq!(
        ParamValue::U64(5).to_signed_size().unwrap_err(),
        ConfigError::UnsupportedConversion
    );
}

#[test]
fn duration_conversions_count_whole_seconds() {
    assert_eq!(ParamValue::Duration(10).to_duration_secs().unwrap(), 10);
    assert_eq!(ParamValue::U64(7).to_duration_secs().unwrap(), 7);
    assert_eq!(ParamValue::UnsignedSize(8).to_duration_secs().unwrap(), 8);
    assert_eq!(ParamValue::Text("10".to_string()).to_duration_secs().unwrap(), 10);
    assert_eq!(
        ParamValue::U32(10).to_duration_secs().unwrap_err(),
        ConfigError::UnsupportedConversion
    );
}

#[test]
fn path_conversions_wrap_text() {
    assert_eq!(
        ParamValue::FilesystemPath("/a/b".to_string()).to_path().unwrap(),
        "/a/b"
    );
    assert_eq!(ParamValue::Text("rel/c".to_string()).to_path().unwrap(), "rel/c");
    assert_eq!(
        ParamValue::Duration(1).to_path().unwrap_err(),
        ConfigError::UnsupportedConversion
    );
}

#[test]
fn mapping_conversion_parses_json_objects() {
    let v = ParamValue::Text("{\"b\":\"2\",\"a\":\"1\"}".to_string());
    let m = v.to_mapping().unwrap().unwrap();
    assert_eq!(
        m,
        vec![("a".to_string(), "1".to_string()), ("b".to_string(), "2".to_string())]
    );
}

#[test]
fn mapping_conversion_degrades_malformed_text_to_none() {
    assert_eq!(ParamValue::Text("not json".to_string()).to_mapping().unwrap(), None);
    assert_eq!(
        ParamValue::Text("{\"a\":3}".to_string()).to_mapping().unwrap(),
        None
    );
}

#[test]
fn mapping_conversion_passes_its_own_variant_through() {
    let pairs = vec![("k".to_string(), "v".to_string())];
    let v = ParamValue::OptionalStringMapping(Some(pairs.clone()));
    assert_eq!(v.to_mapping().unwrap(), Some(pairs));
    assert_eq!(ParamValue::OptionalStringMapping(None).to_mapping().unwrap(), None);
    assert_eq!(
        ParamValue::U64(1).to_mapping().unwrap_err(),
        ConfigError::UnsupportedConversion
    );
}

#[test]
fn default_value_is_empty_text() {
    let v = ParamValue::default();
    assert_eq!(v, ParamValue::Text(String::new()));
}

#[test]
fn metadata_new_keeps_its_fields() {
    let m = ParamMetadata::new(
        "gateway.max_events_chunk_size".to_string(),
        Some("c".to_string()),
        "Most events of one chunk.".to_string(),
        Some(ParamValue::UnsignedSize(128)),
    );
    assert_eq!(m.long, "gateway.max_events_chunk_size");
    assert_eq!(m.short, Some("c".to_string()));
    assert_eq!(m.description, "Most events of one chunk.");
    assert_eq!(m.default_value, Some(ParamValue::UnsignedSize(128)));
}

#[test]
fn hydrate_dump_rehydrate_is_idempotent() {
    let config = get_built_configuration();
    let first = SyncConfig::new(&config).unwrap();

    let dumped = first.dump();
    let layer: Vec<(String, ParamValue)> =
        dumped.into_iter().map(|(path, value, _)| (path, value)).collect();
    let rebuilt = ConfigurationBuilder::apply_default("")
        .unwrap()
        .apply_config_file(&layer)
        .apply_env(&vec![])
        .apply_command_line(&vec![])
        .build();
    let second = SyncConfig::new(&rebuilt).unwrap();
    assert_eq!(first, second);
}

#[test]
fn dump_is_stable_and_order_preserving() {
    let s = SyncConfig {
        block_propagation_sleep_duration: 1,
        recoverable_error_sleep_duration: 2,
        blocks_max_stream_size: 3,
        state_updates_max_stream_size: 4,
    };
    let d1 = s.dump();
    let d2 = s.dump();
    let paths1: Vec<String> = d1.iter().map(|t| t.0.clone()).collect();
    let paths2: Vec<String> = d2.iter().map(|t| t.0.clone()).collect();
    assert_eq!(paths1, paths2);
    assert_eq!(
        paths1,
        vec![
            "sync.block_propagation_sleep_duration".to_string(),
            "sync.recoverable_error_sleep_duration".to_string(),
            "sync.blocks_max_stream_size".to_string(),
            "sync.state_updates_max_stream_size".to_string(),
        ]
    );
    assert_eq!(d1[0].1, ParamValue::Duration(1));
    assert_eq!(d1[2].1, ParamValue::U32(3));
}

#[test]
fn hydrate_reports_the_missing_path() {
    let config = ConfigurationBuilder::apply_default("sync.block_propagation_sleep_duration = 10\n")
        .unwrap()
        .build();
    let r = SyncConfig::new(&config);
    assert_eq!(
        r.unwrap_err(),
        ConfigError::MissingParam("sync.recoverable_error_sleep_duration".to_string())
    );
}

#[test]
fn empty_interpolation_target_is_undefined() {
    let r = ConfigurationBuilder::apply_default("a = ${}\n");
    assert_eq!(r.unwrap_err(), ConfigError::UndefinedReference("".to_string()));
}
