use cargo_quill::error::NewError;
use cargo_quill::template::{
    plugin_name, plugin_name_from_pascal, render_source, replace_all, LIB_RS_FILE_TEXT,
    PLACEHOLDER,
};

#[test]
fn plugin_name_examples() {
    assert_eq!(plugin_name("simple"), Ok("SimplePlugin".to_string()));
    assert_eq!(plugin_name("multi-word-name"), Ok("MultiWordNamePlugin".to_string()));
    assert_eq!(plugin_name("Already_Pascal"), Ok("AlreadyPascalPlugin".to_string()));
    assert_eq!(plugin_name("my-cool-plugin"), Ok("MyCoolPluginPlugin".to_string()));
}

#[test]
fn plugin_name_is_deterministic() {
    assert_eq!(plugin_name("my plugin"), plugin_name("my plugin"));
}

#[test]
fn plugin_name_needs_alphanumeric() {
    assert_eq!(plugin_name(""), Err(NewError::InvalidName));
    assert_eq!(plugin_name("-_-"), Err(NewError::InvalidName));
}

#[test]
fn plugin_name_from_pascal_appends_suffix() {
    assert_eq!(plugin_name_from_pascal("Foo"), "FooPlugin");
    assert_eq!(plugin_name_from_pascal(""), "Plugin");
}

#[test]
fn replace_all_every_occurrence() {
    assert_eq!(replace_all("a$xb$x", "$x", "YY"), "aYYbYY");
    assert_eq!(replace_all("nothing here", "$x", "YY"), "nothing here");
    assert_eq!(replace_all("aaa", "aa", "X"), "Xa");
    assert_eq!(replace_all("", "a", "X"), "");
}

#[test]
fn render_source_fills_every_placeholder() {
    let placeholders = LIB_RS_FILE_TEXT.matches(PLACEHOLDER).count();
    assert_eq!(placeholders, 4);
    let out = render_source("MyPluginPlugin");
    assert!(!out.contains(PLACEHOLDER));
    assert!(!out.contains('$'));
    assert_eq!(out.matches("MyPluginPlugin").count(), placeholders);
    assert!(out.contains("quill::plugin!(MyPluginPlugin);"));
    assert!(out.contains("struct MyPluginPlugin {}"));
    assert!(out.contains("impl Plugin for MyPluginPlugin {"));
    assert_eq!(out, LIB_RS_FILE_TEXT.replace(PLACEHOLDER, "MyPluginPlugin"));
}
