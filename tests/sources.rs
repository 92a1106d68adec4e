use remote_config::format::ends_with_suffix;
use remote_config::{watch, ConfigError, Consul, ConsulFormat, ConsulStoredFormat, SourceError};
use serde_json::Value;

#[test]
fn it_works() {
    let result = remote_config::add(2, 2);
    assert_eq!(result, 4);
}

#[test]
fn every_format_has_suffixes_that_map_back() {
    for f in ConsulFormat::all() {
        let exts = f.extensions();
        assert!(!exts.is_empty());
        assert_eq!(f.file_extensions(), exts);
        for e in exts {
            let name = format!("cfg://host/settings.{}", e);
            assert_eq!(ConsulFormat::detect(&name), Some(f));
        }
    }
}

#[test]
fn suffix_lists_are_fixed() {
    assert_eq!(ConsulFormat::Toml.extensions(), vec!["toml"]);
    assert_eq!(ConsulFormat::Json.extensions(), vec!["json"]);
    assert_eq!(ConsulFormat::Yaml.extensions(), vec!["yaml", "yml"]);
    assert_eq!(ConsulFormat::Ron.extensions(), vec!["ron"]);
    assert_eq!(ConsulFormat::Json5.extensions(), vec!["json5"]);
}

#[test]
fn detection_ignores_ascii_case_of_the_name() {
    assert_eq!(ConsulFormat::detect("/etc/app.YAML"), Some(ConsulFormat::Yaml));
    assert_eq!(ConsulFormat::detect("/etc/app.Json5"), Some(ConsulFormat::Json5));
    assert_eq!(ConsulFormat::detect("/etc/app.json"), Some(ConsulFormat::Json));
    assert_eq!(ConsulFormat::detect(".toml"), Some(ConsulFormat::Toml));
}

#[test]
fn detection_fails_without_a_registered_suffix() {
    assert_eq!(ConsulFormat::detect("/settings"), None);
    assert_eq!(ConsulFormat::detect("/settings.xyz"), None);
    assert_eq!(ConsulFormat::detect("/settingsyaml"), None);
    assert_eq!(ConsulFormat::detect("yaml"), None);
}

#[test]
fn suffix_needs_the_dot() {
    assert!(ends_with_suffix("a.yml", "yml"));
    assert!(ends_with_suffix("a.YML", "yml"));
    assert!(!ends_with_suffix("ayml", "yml"));
    assert!(!ends_with_suffix("yml", "yml"));
    assert!(!ends_with_suffix("a.yml", "yaml"));
}

#[test]
fn each_grammar_reads_a_table() {
    let cases = [
        (ConsulFormat::Toml, "a = 1"),
        (ConsulFormat::Json, "{\"a\": 1}"),
        (ConsulFormat::Yaml, "a: 1"),
        (ConsulFormat::Ron, "{\"a\": 1}"),
        (ConsulFormat::Json5, "{a: 1}"),
    ];
    for (f, text) in cases {
        let t = f.parse(None, text).unwrap();
        assert_eq!(t.len(), 1);
        assert_eq!(t.get("a"), Some(&Value::from(1)));
    }
}

#[test]
fn parsing_is_deterministic() {
    let text = "name: app\nport: 8080\nlist: [1, 2]\n";
    let a = ConsulFormat::Yaml.parse(None, text).unwrap();
    let b = ConsulFormat::Yaml.parse(Some(&"elsewhere".to_string()), text).unwrap();
    assert_eq!(a, b);
    assert_eq!(a.len(), 3);
}

#[test]
fn scenario_yaml_one_entry() {
    let c = Consul::with_name("cfg://host/settings.yaml").unwrap();
    let resolved = c.source().resolve_fetched(*c.format_hint(), Ok("key: value".to_string()));
    let t = c.collect_resolved(resolved).unwrap();
    assert_eq!(t.len(), 1);
    assert_eq!(t.get("key"), Some(&Value::String("value".to_string())));
}

#[test]
fn scenario_optional_unreachable_is_empty() {
    let c = Consul::with_name("cfg://host/settings.yaml").unwrap().required(false);
    let t = c.collect().unwrap();
    assert!(t.is_empty());
}

#[test]
fn required_unreachable_propagates_backend_error() {
    let c = Consul::with_name("cfg://host/settings.yaml").unwrap();
    assert!(c.is_required());
    match c.collect() {
        Err(ConfigError::Foreign(cause)) => assert!(!cause.is_empty()),
        other => panic!("unexpected {:?}", other),
    }
    let resolved = Err(SourceError::Backend("connection refused".to_string()));
    assert_eq!(
        c.collect_resolved(resolved),
        Err(ConfigError::Foreign("connection refused".to_string()))
    );
}

#[test]
fn scenario_invalid_json_is_file_parse() {
    for required in [true, false] {
        let c = Consul::new("cfg://host/settings", ConsulFormat::Json).unwrap().required(required);
        let resolved = c.source().resolve_fetched(*c.format_hint(), Ok("{not valid json".to_string()));
        match c.collect_resolved(resolved) {
            Err(ConfigError::FileParse { uri, cause }) => {
                assert_eq!(uri, Some("cfg://host/settings".to_string()));
                assert!(!cause.is_empty());
            }
            other => panic!("unexpected {:?}", other),
        }
    }
}

#[test]
fn scenario_unknown_suffix_is_detection_error() {
    for required in [true, false] {
        let c = Consul::with_name("cfg://host/settings.xyz").unwrap().required(required);
        assert_eq!(
            c.collect(),
            Err(ConfigError::UndetectedFormat("cfg://host/settings.xyz".to_string()))
        );
    }
}

#[test]
fn pinned_format_overrides_the_suffix() {
    let c = Consul::with_name("cfg://host/settings.yaml").unwrap().format(ConsulFormat::Json);
    assert_eq!(c.format_hint(), &Some(ConsulFormat::Json));
    let resolved = c.source().resolve_fetched(*c.format_hint(), Ok("{\"k\": true}".to_string()));
    let t = c.collect_resolved(resolved).unwrap();
    assert_eq!(t.get("k"), Some(&Value::Bool(true)));
}

#[test]
fn resolution_reports_origin_content_and_format() {
    let c = Consul::with_name("cfg://host/dir/app.toml").unwrap();
    let res = c.source().resolve_fetched(None, Ok("x = 'y'".to_string())).unwrap();
    assert_eq!(res.uri(), &Some("cfg://host/dir/app.toml".to_string()));
    assert_eq!(res.content(), "x = 'y'");
    assert_eq!(res.format(), &ConsulFormat::Toml);
}

#[test]
fn malformed_locator_fails_construction() {
    assert!(matches!(Consul::with_name("not a uri"), Err(ConfigError::InvalidLocator(_))));
    assert!(matches!(
        Consul::new("settings.json", ConsulFormat::Json),
        Err(ConfigError::InvalidLocator(_))
    ));
}

#[test]
fn watch_is_a_passthrough() {
    assert_eq!(watch(&5u8), Ok(()));
}

#[test]
fn detection_reads_the_path_not_the_query() {
    let c = Consul::with_name("cfg://host/settings.yaml?version=2").unwrap();
    let res = c.source().resolve_fetched(None, Ok("a: b".to_string())).unwrap();
    assert_eq!(res.format, ConsulFormat::Yaml);
    let c = Consul::with_name("cfg://host/settings?name=x.yaml").unwrap();
    assert!(matches!(
        c.source().resolve_fetched(None, Ok(String::new())),
        Err(SourceError::UndetectedFormat(_))
    ));
}

#[test]
fn detection_error_comes_before_fetch_failure() {
    let c = Consul::with_name("cfg://host/settings.xyz").unwrap();
    let res = c.source().resolve_fetched(None, Err("timeout".to_string()));
    assert_eq!(res.unwrap_err(), SourceError::UndetectedFormat("cfg://host/settings.xyz".to_string()));
    let res = c.source().resolve_fetched(Some(ConsulFormat::Ron), Err("timeout".to_string()));
    assert_eq!(res.unwrap_err(), SourceError::Backend("timeout".to_string()));
}

#[test]
fn clones_are_independent() {
    let a = Consul::with_name("cfg://host/settings.json").unwrap();
    let b = a.clone().required(false).format(ConsulFormat::Toml);
    assert!(a.is_required());
    assert_eq!(a.format_hint(), &None);
    assert!(!b.is_required());
    assert_eq!(b.format_hint(), &Some(ConsulFormat::Toml));
}

fn nested_json5(arrays: usize) -> String {
    format!("{{a: {}1{}}}", "[".repeat(arrays), "]".repeat(arrays))
}

#[test]
fn json5_at_the_depth_bound_is_read() {
    let text = nested_json5(remote_config::grammar::JSON5_MAX_DEPTH - 1);
    assert_eq!(remote_config::grammar::json5_nesting_depth(&text), 128);
    let t = ConsulFormat::Json5.parse(None, &text).unwrap();
    assert_eq!(t.len(), 1);
    assert!(t.get("a").unwrap().is_array());
}

#[test]
fn json5_past_the_depth_bound_is_refused() {
    let text = nested_json5(remote_config::grammar::JSON5_MAX_DEPTH);
    assert_eq!(
        ConsulFormat::Json5.parse(None, &text),
        Err("JSON5 text nests too deeply to be read safely".to_string())
    );
    let deep = nested_json5(100_000);
    assert!(ConsulFormat::Json5.parse(None, &deep).is_err());
    assert!(ConsulFormat::Json.parse(None, &deep).is_err());
}

#[test]
fn json5_many_shallow_objects_are_read() {
    let items = vec!["{x: 1}"; 130].join(", ");
    let text = format!("{{list: [{}]}}", items);
    assert_eq!(remote_config::grammar::json5_nesting_depth(&text), 3);
    let t = ConsulFormat::Json5.parse(None, &text).unwrap();
    assert_eq!(t.get("list").unwrap().as_array().unwrap().len(), 130);
}

#[test]
fn json5_depth_skips_strings_and_comments() {
    let text = format!("{{a: '{}', b: \"{}\\\"[\"}}", "{".repeat(200), "[".repeat(200));
    assert_eq!(remote_config::grammar::json5_nesting_depth(&text), 1);
    let t = ConsulFormat::Json5.parse(None, &text).unwrap();
    assert_eq!(t.len(), 2);
    let commented = format!("// [[[[\n{{a: /* {} */ [1, {{b: 2}}]}}", "{".repeat(200));
    assert_eq!(remote_config::grammar::json5_nesting_depth(&commented), 3);
    assert!(ConsulFormat::Json5.parse(None, &commented).is_ok());
    assert_eq!(remote_config::grammar::json5_nesting_depth("]]{"), 1);
}

#[test]
fn file_parse_carries_the_parser_error() {
    let c = Consul::new("cfg://host/settings", ConsulFormat::Json).unwrap();
    let resolved = c.source().resolve_fetched(*c.format_hint(), Ok("{not valid json".to_string()));
    let direct = ConsulFormat::Json.parse(None, "{not valid json").unwrap_err();
    assert_eq!(
        c.collect_resolved(resolved),
        Err(ConfigError::FileParse { uri: Some("cfg://host/settings".to_string()), cause: direct })
    );
}
