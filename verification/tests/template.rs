use bili_sync::template::{path_safe_register, path_safe_template, path_safe_text};
use handlebars::Handlebars;
use serde_json::Value;

fn data(name: &str, value: &str) -> Value {
    let mut map = serde_json::Map::new();
    map.insert(name.to_string(), Value::String(value.to_string()));
    Value::Object(map)
}

#[test]
fn separators_of_a_template_come_back() {
    for text in ["", "/", "a/b", "/a//b/", "__SEP", "a_/b__/c", "SEP__/x", "__SE/P__", "___SEP"] {
        let marked = path_safe_template(text, '/');
        assert!(!marked.contains('/'));
        assert_eq!(path_safe_text(&marked, '/'), text);
    }
    assert_eq!(path_safe_template("a/b", '/'), "a__SEP__b");
    assert_eq!(path_safe_template("a/b\\c", '\\'), "a/b__SEP__c");
    assert_eq!(path_safe_text("a__SEP__b__SEP__", '\\'), "a\\b\\");
}

#[test]
fn ambiguous_texts_do_not_come_back() {
    for text in ["__SEP__", "__SEP/x", "__SEP_/x"] {
        assert_ne!(path_safe_text(&path_safe_template(text, '/'), '/'), text);
    }
}

#[test]
fn separators_in_values_do_not_become_separators() {
    let mut registry = Handlebars::new();
    path_safe_register(&mut registry, "path", "videos/{{{name}}}/x", '/').unwrap();
    let rendered = registry.render("path", &data("name", "a/b")).unwrap();
    assert_eq!(rendered, "videos__SEP__a/b__SEP__x");
    let cleaned = rendered.replace('/', "_");
    assert_eq!(path_safe_text(&cleaned, '/'), "videos/a_b/x");
}

#[test]
fn broken_templates_change_nothing() {
    let mut registry = Handlebars::new();
    path_safe_register(&mut registry, "path", "{{name}}", '/').unwrap();
    let error = path_safe_register(&mut registry, "path", "{{#if name}}/", '/').unwrap_err();
    assert!(!error.is_empty());
    assert_eq!(registry.render("path", &data("name", "n")).unwrap(), "n");
    let mismatch = "{{#> (foo a=1 b=2)}}x{{/bar}}";
    assert!(path_safe_register(&mut registry, "path", mismatch, '\\').is_err());
    path_safe_register(&mut registry, "path", "{{name}}/", '/').unwrap();
    assert_eq!(registry.render("path", &data("name", "n")).unwrap(), "n__SEP__");
}
