use zenoh_jni::config::{get_json, insert_json5, load_default_config, load_json_config, load_yaml_config};

#[test]
fn json_configuration_loads() {
    let config = load_json_config("{ mode: 'client' }").unwrap();
    assert_eq!(get_json(&config, "mode"), Ok("\"client\"".to_string()));
}

#[test]
fn malformed_json5_is_refused_with_the_parser_message() {
    let err = load_json_config("{ mode: ").err().unwrap();
    assert!(!err.starts_with("JSON error: "), "{err}");
    assert!(!err.starts_with("Invalid configuration: "), "{err}");
}

#[test]
fn json_of_the_wrong_shape_is_a_json_error() {
    let err = load_json_config("{ mode: 42 }").err().unwrap();
    assert!(err.starts_with("JSON error: ") || err.starts_with("Invalid configuration: "), "{err}");
}

#[test]
fn yaml_configuration_loads() {
    let config = load_yaml_config("mode: peer\n").unwrap();
    assert_eq!(get_json(&config, "mode"), Ok("\"peer\"".to_string()));
}

#[test]
fn malformed_yaml_is_a_yaml_error() {
    let err = load_yaml_config("mode: [").err().unwrap();
    assert!(err.starts_with("YAML error: "), "{err}");
}

#[test]
fn insert_then_get_reads_the_value_back() {
    let mut config = load_default_config();
    insert_json5(&mut config, "mode", "'router'").unwrap();
    assert_eq!(get_json(&config, "mode"), Ok("\"router\"".to_string()));
}

#[test]
fn unknown_keys_are_refused() {
    let config = load_default_config();
    assert!(get_json(&config, "no_such_key").is_err());
    let mut config = load_default_config();
    assert!(insert_json5(&mut config, "no_such_key", "1").is_err());
}

#[test]
fn unparsable_json5_gets_exactly_the_parser_message() {
    let expected = match json5::Deserializer::from_str("{ mode: ") {
        Ok(_) => panic!("the text should not parse"),
        Err(err) => err.to_string(),
    };
    assert_eq!(load_json_config("{ mode: ").err().unwrap(), expected);
}

#[test]
fn default_configurations_read_alike() {
    let first = load_default_config();
    let second = load_default_config();
    for key in ["id", "mode", "connect", "scouting/multicast/enabled", "no_such_key"] {
        assert_eq!(get_json(&first, key), get_json(&second, key));
    }
}

#[test]
fn a_refused_insertion_reports_zenoh_message() {
    let mut config = load_default_config();
    let err = insert_json5(&mut config, "mode", "'not-a-mode'").unwrap_err();
    assert!(!err.is_empty());
}

#[test]
fn insertions_into_plugins_that_are_not_an_object_are_refused() {
    let mut config = load_json_config("{ plugins: null }").unwrap();
    let before = get_json(&config, "plugins");
    assert_eq!(
        insert_json5(&mut config, "plugins/a", "1"),
        Err("Unable to insert at 'plugins/a': the plugins configuration is not an object".to_string())
    );
    assert_eq!(
        insert_json5(&mut config, "/plugins/a", "1"),
        Err("Unable to insert at '/plugins/a': the plugins configuration is not an object".to_string())
    );
    assert_eq!(get_json(&config, "plugins"), before);
}

#[test]
fn insertions_into_plugins_that_are_an_object_go_through() {
    let mut config = load_default_config();
    insert_json5(&mut config, "plugins/a", "{ x: 1 }").unwrap();
    assert_eq!(get_json(&config, "plugins/a"), Ok("{\"x\":1}".to_string()));
}

#[test]
fn a_failed_insertion_leaves_the_configuration_as_it_was() {
    let mut config = load_json_config("{ mode: 'client' }").unwrap();
    let keys = ["mode", "connect", "listen", "scouting"];
    let before: Vec<_> = keys.iter().map(|k| get_json(&config, k)).collect();
    assert!(insert_json5(&mut config, "mode", "'banana'").is_err());
    assert!(insert_json5(&mut config, "mode", "{ not json5").is_err());
    let after: Vec<_> = keys.iter().map(|k| get_json(&config, k)).collect();
    assert_eq!(before, after);
}
