use confload::parser::extension_of;
use confload::ConfigFormat;

#[test]
fn from_extension_recognizes_toml_case_insensitively() {
    assert_eq!(ConfigFormat::from_extension("toml"), Some(ConfigFormat::Toml));
    assert_eq!(ConfigFormat::from_extension("TOML"), Some(ConfigFormat::Toml));
    assert_eq!(ConfigFormat::from_extension("Toml"), Some(ConfigFormat::Toml));
    assert_eq!(ConfigFormat::from_extension("tOmL"), Some(ConfigFormat::Toml));
}

#[test]
fn from_extension_recognizes_json_case_insensitively() {
    assert_eq!(ConfigFormat::from_extension("json"), Some(ConfigFormat::Json));
    assert_eq!(ConfigFormat::from_extension("JSON"), Some(ConfigFormat::Json));
    assert_eq!(ConfigFormat::from_extension("Json"), Some(ConfigFormat::Json));
}

#[test]
fn from_extension_rejects_everything_else() {
    assert_eq!(ConfigFormat::from_extension("yaml"), None);
    assert_eq!(ConfigFormat::from_extension("tml"), None);
    assert_eq!(ConfigFormat::from_extension("toml "), None);
    assert_eq!(ConfigFormat::from_extension(""), None);
    assert_eq!(ConfigFormat::from_extension("toml2"), None);
}

#[test]
fn extension_of_takes_the_part_after_the_last_dot() {
    assert_eq!(extension_of("config.toml"), Some("toml"));
    assert_eq!(extension_of("a/b/c.json"), Some("json"));
    assert_eq!(extension_of("x.a.JSON"), Some("JSON"));
    assert_eq!(extension_of("trailing."), Some(""));
}

#[test]
fn extension_of_is_none_without_a_dot_in_the_file_name() {
    assert_eq!(extension_of("noext"), None);
    assert_eq!(extension_of("dir.d/file"), None);
    assert_eq!(extension_of(""), None);
    assert_eq!(extension_of("a/b/"), None);
}

#[test]
fn extension_of_ignores_a_leading_dot_in_the_file_name() {
    assert_eq!(extension_of(".hidden"), None);
    assert_eq!(extension_of("a/b/.toml"), None);
    assert_eq!(extension_of(".config.toml"), Some("toml"));
}
