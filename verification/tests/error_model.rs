use confload::ConfigError;

#[test]
fn builders_set_each_field() {
    let e = ConfigError::new("boom").with_kind("IOError").with_context("ctx");
    assert_eq!(e.message(), "boom");
    assert_eq!(e.kind().unwrap().as_str(), "IOError");
    assert_eq!(e.context().unwrap().as_str(), "ctx");
    assert!(e.source().is_none());
}

#[test]
fn new_leaves_optional_fields_empty() {
    let e = ConfigError::new("just a message");
    assert_eq!(e.message(), "just a message");
    assert!(e.kind().is_none());
    assert!(e.context().is_none());
    assert!(e.source().is_none());
}

#[test]
fn source_chain_preserves_the_cause() {
    let root = ConfigError::new("root cause").with_kind("ParseError");
    let e = ConfigError::new("outer").with_source(root);
    let chained = e.source().expect("cause should be preserved");
    assert_eq!(chained.message(), "root cause");
    assert_eq!(chained.kind().unwrap().as_str(), "ParseError");
    assert!(chained.source().is_none());
}

#[test]
fn new_or_uses_the_text_when_it_is_non_empty() {
    let e = ConfigError::new_or("diagnostic", "fallback");
    assert_eq!(e.message(), "diagnostic");
}

#[test]
fn new_or_falls_back_on_empty_text() {
    let e = ConfigError::new_or("", "fallback");
    assert_eq!(e.message(), "fallback");
}

#[test]
fn describe_combines_kind_context_and_message() {
    let e = ConfigError::new("bad value").with_kind("ValidationError").with_context("field: port");
    assert_eq!(
        e.describe(),
        "Configuration error [ValidationError] in field: port: bad value"
    );
}

#[test]
fn describe_with_message_only() {
    let e = ConfigError::new("bad value");
    assert_eq!(e.describe(), "Configuration error: bad value");
}

#[test]
fn describe_with_kind_only() {
    let e = ConfigError::new("gone").with_kind("IOError");
    assert_eq!(e.describe(), "Configuration error [IOError]: gone");
}
