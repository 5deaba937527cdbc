use serde_yaml_ng::Value;
use verge_config::runtime::{
    find_key, insert_entry, mapping_from_text, IRuntime, MappingError, RuntimeMapping, RuntimeValue, YamlKey,
};
use verge_config::verge::{default_pac, to_ascii_lower, IVerge, LogLevel};

/// A patch that repeats the template's values except the fields the tests
/// look at, which it leaves unset.
fn sparse_patch() -> IVerge {
    let mut p = IVerge::template("en");
    p.theme_mode = None;
    p.language = None;
    p.env_type = None;
    p.start_page = None;
    p.clash_core = None;
    p.app_log_level = None;
    p.enable_system_proxy = None;
    p.verge_mixed_port = None;
    p
}

#[test]
fn template_defaults() {
    let t = IVerge::template("zh");
    assert_eq!(t.language, Some("zh".to_string()));
    assert_eq!(t.clash_core, Some("verge-mihomo".to_string()));
    assert_eq!(t.start_page, Some("/".to_string()));
    assert_eq!(t.theme_mode, Some("system".to_string()));
    assert_eq!(t.verge_mixed_port, Some(7897));
    assert_eq!(t.app_log_max_size, Some(128));
    assert_eq!(t.app_log_max_count, Some(8));
    assert_eq!(t.pac_file_content.as_deref(), Some(default_pac()));
    assert_eq!(t.get_log_level(), LogLevel::Info);
    assert!(!t.is_system_proxy_enabled());
    assert!(!t.is_tun_mode_enabled());
    assert!(!t.is_auto_launch_enabled());
    assert!(t.is_global_hotkey_enabled());
}

#[test]
fn patch_takes_set_fields_only() {
    let mut v = IVerge::template("en");
    let mut p = sparse_patch();
    p.theme_mode = Some("dark".to_string());
    p.verge_mixed_port = Some(1080);
    v.patch_config(&p);
    assert_eq!(v.theme_mode, Some("dark".to_string()));
    assert_eq!(v.verge_mixed_port, Some(1080));
    assert_eq!(v.language, Some("en".to_string()));
    assert_eq!(v.clash_core, Some("verge-mihomo".to_string()));
}

#[test]
fn patch_twice_same_as_once() {
    let mut p = sparse_patch();
    p.enable_system_proxy = Some(true);
    p.app_log_level = Some("debug".to_string());
    let mut once = IVerge::template("en");
    once.patch_config(&p);
    let mut twice = IVerge::template("en");
    twice.patch_config(&p);
    twice.patch_config(&p);
    assert_eq!(once.enable_system_proxy, twice.enable_system_proxy);
    assert_eq!(once.app_log_level, twice.app_log_level);
    assert!(twice.is_system_proxy_enabled());
    assert_eq!(twice.get_log_level(), LogLevel::Debug);
}

#[test]
fn log_levels_ignore_case() {
    let mut v = IVerge::template("en");
    for (name, level) in [
        ("SILENT", LogLevel::Off),
        ("error", LogLevel::Error),
        ("Warn", LogLevel::Warn),
        ("info", LogLevel::Info),
        ("DeBuG", LogLevel::Debug),
        ("trace", LogLevel::Trace),
        ("verbose", LogLevel::Info),
    ] {
        v.app_log_level = Some(name.to_string());
        assert_eq!(v.get_log_level(), level);
    }
    assert_eq!(to_ascii_lower("AbC-Ü"), "abc-Ü");
}

#[test]
fn core_names() {
    assert!(IVerge::is_valid_clash_core("verge-mihomo"));
    assert!(IVerge::is_valid_clash_core("verge-mihomo-alpha"));
    assert!(!IVerge::is_valid_clash_core("clash"));
    assert!(!IVerge::is_valid_clash_core(""));
    let mut v = IVerge::template("en");
    v.clash_core = None;
    assert_eq!(v.get_valid_clash_cores(), "verge-mihomo");
}

#[test]
fn fix_core_setting() {
    let mut v = IVerge::template("en");
    assert!(!v.validate_and_fix_config());
    assert_eq!(v.clash_core, Some("verge-mihomo".to_string()));
    v.clash_core = None;
    assert!(v.validate_and_fix_config());
    assert_eq!(v.clash_core, Some("verge-mihomo".to_string()));
    v.clash_core = Some("clash-premium".to_string());
    assert!(v.validate_and_fix_config());
    assert_eq!(v.clash_core, Some("verge-mihomo".to_string()));
    assert!(!v.validate_and_fix_config());
}

#[test]
fn fix_home_page() {
    let mut v = IVerge::template("en");
    v.start_page = Some("/home".to_string());
    v.fix_start_page();
    assert_eq!(v.start_page, Some("/".to_string()));
    v.start_page = Some("/proxies".to_string());
    v.fix_start_page();
    assert_eq!(v.start_page, Some("/proxies".to_string()));
}

#[test]
fn singleton_port_and_core_path() {
    assert_eq!(IVerge::get_singleton_port(), 11235);
    let mut v = IVerge::template("en");
    assert_eq!(v.get_clash_core_path(), None);
    v.set_clash_core_path("/usr/bin/verge-mihomo");
    assert_eq!(v.get_clash_core_path(), Some("/usr/bin/verge-mihomo".to_string()));
}

fn text(s: &str) -> YamlKey {
    YamlKey::Text(s.to_string())
}

fn get<'a>(m: &'a RuntimeMapping, key: &str) -> Option<&'a RuntimeValue> {
    find_key(&m.entries, key).map(|i| &m.entries[i].1)
}

fn plain(m: &RuntimeMapping, key: &str) -> Option<Value> {
    match get(m, key) {
        Some(RuntimeValue::Plain(v)) => Some(v.clone()),
        _ => None,
    }
}

fn tun_value(m: &RuntimeMapping, key: &str) -> Option<Value> {
    match get(m, "tun") {
        Some(RuntimeValue::Mapping(t)) => find_key(t, key).map(|i| t[i].1.clone()),
        _ => None,
    }
}

#[test]
fn runtime_patch_copies_plain_settings() {
    let mut rt = IRuntime::new();
    rt.config = Some(RuntimeMapping {
        entries: vec![
            (text("mixed-port"), RuntimeValue::Plain(Value::from(7897))),
            (text("allow-lan"), RuntimeValue::Plain(Value::Bool(false))),
        ],
    });
    let patch = RuntimeMapping {
        entries: vec![
            (text("allow-lan"), RuntimeValue::Plain(Value::Bool(true))),
            (text("ipv6"), RuntimeValue::Plain(Value::Bool(true))),
            (text("mixed-port"), RuntimeValue::Plain(Value::from(1))),
        ],
    };
    rt.patch_config(&patch);
    let c = rt.config.as_ref().unwrap();
    assert_eq!(plain(c, "allow-lan"), Some(Value::Bool(true)));
    assert_eq!(plain(c, "ipv6"), Some(Value::Bool(true)));
    assert_eq!(plain(c, "mixed-port"), Some(Value::from(7897)));
    assert_eq!(c.entries.len(), 3);
}

#[test]
fn runtime_patch_merges_tun_keys() {
    let mut rt = IRuntime::new();
    rt.config = Some(RuntimeMapping {
        entries: vec![(
            text("tun"),
            RuntimeValue::Mapping(vec![
                (text("enable"), Value::Bool(false)),
                (text("stack"), Value::String("gvisor".to_string())),
            ]),
        )],
    });
    let patch = RuntimeMapping {
        entries: vec![(
            text("tun"),
            RuntimeValue::Mapping(vec![
                (text("enable"), Value::Bool(true)),
                (text("Stack"), Value::String("system".to_string())),
            ]),
        )],
    };
    rt.patch_config(&patch);
    let c = rt.config.as_ref().unwrap();
    assert_eq!(tun_value(c, "enable"), Some(Value::Bool(true)));
    // "Stack" lower-cases to "stack", which the patch itself does not hold.
    assert_eq!(tun_value(c, "stack"), Some(Value::String("gvisor".to_string())));
}

#[test]
fn runtime_patch_without_config_does_nothing() {
    let mut rt = IRuntime::new();
    let patch = RuntimeMapping { entries: vec![(text("ipv6"), RuntimeValue::Plain(Value::Bool(true)))] };
    rt.patch_config(&patch);
    assert!(rt.config.is_none());
}

#[test]
fn insert_then_lookup() {
    let mut entries: Vec<(YamlKey, u8)> = vec![(text("a"), 1), (text("b"), 2)];
    insert_entry(&mut entries, "b", 5);
    insert_entry(&mut entries, "c", 9);
    assert_eq!(find_key(&entries, "b"), Some(1));
    assert_eq!(entries[1].1, 5);
    assert_eq!(find_key(&entries, "c"), Some(2));
    assert_eq!(entries[2].1, 9);
    assert_eq!(find_key(&entries, "a"), Some(0));
    assert_eq!(find_key(&entries, "z"), None);
}

/// A patch that sets nothing.
fn empty_patch() -> IVerge {
    IVerge::default()
}

#[test]
fn default_sets_nothing() {
    let d = IVerge::default();
    assert_eq!(d.clash_core, None);
    assert_eq!(d.language, None);
    assert_eq!(d.verge_mixed_port, None);
    assert_eq!(d.get_log_level(), LogLevel::Info);
}

#[test]
fn empty_patch_changes_nothing() {
    let mut v = IVerge::template("en");
    v.webdav_url = Some("https://dav".to_string());
    v.patch_config(&empty_patch());
    assert_eq!(v.language, Some("en".to_string()));
    assert_eq!(v.clash_core, Some("verge-mihomo".to_string()));
    assert_eq!(v.webdav_url, Some("https://dav".to_string()));
    assert_eq!(v.verge_mixed_port, Some(7897));
    assert_eq!(v.app_log_max_count, Some(8));
    assert_eq!(v.enable_global_hotkey, Some(true));
}

#[test]
fn mapping_from_yaml_text() {
    let m = mapping_from_text("a.yaml", Some("mixed-port: 7890\ntun:\n  enable: true\n  stack: gvisor\nrules: [a, b]\n"))
        .ok()
        .unwrap();
    assert_eq!(m.entries.len(), 3);
    assert_eq!(plain(&m, "mixed-port"), Some(Value::from(7890)));
    assert_eq!(tun_value(&m, "stack"), Some(Value::String("gvisor".to_string())));
    assert!(matches!(get(&m, "rules"), Some(RuntimeValue::Plain(Value::Sequence(_)))));
}

#[test]
fn mapping_from_yaml_applies_merge_keys() {
    let text = "base: &b\n  ipv6: true\ntop:\n  <<: *b\n  port: 1\n";
    let m = mapping_from_text("m.yaml", Some(text)).ok().unwrap();
    match get(&m, "top") {
        Some(RuntimeValue::Mapping(t)) => {
            let i = find_key(t, "ipv6").unwrap();
            assert_eq!(t[i].1, Value::Bool(true));
            assert!(find_key(t, "<<").is_none());
        }
        _ => panic!("expected a nested mapping"),
    }
}

#[test]
fn mapping_errors() {
    let e = mapping_from_text("x.yaml", None).err().unwrap();
    assert!(matches!(&e, MappingError::NotFound(p) if p == "x.yaml"));
    assert_eq!(e.message(), "file not found \"x.yaml\"");
    let e = mapping_from_text("x.yaml", Some("a: [1, 2")).err().unwrap();
    assert!(matches!(&e, MappingError::Syntax(p, m) if p == "x.yaml" && !m.is_empty()));
    assert!(e.message().starts_with("YAML syntax error: in x.yaml: "));
    let e = mapping_from_text("x.yaml", Some("a: 1\nb:\n  <<: 3\n")).err().unwrap();
    assert!(matches!(&e, MappingError::Merge(_)));
    assert_eq!(e.message(), "failed to apply merge \"x.yaml\"");
    let e = mapping_from_text("x.yaml", Some("- 1\n- 2\n")).err().unwrap();
    assert!(matches!(&e, MappingError::NotMapping(_)));
    assert_eq!(e.message(), "failed to transform to yaml mapping \"x.yaml\"");
}
