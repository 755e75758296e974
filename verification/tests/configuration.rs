use table_constraints::configuration::{Configuration, Setting};

fn text(value: &str) -> Option<String> {
    Some(value.to_string())
}

#[test]
fn new_configuration_is_empty() {
    let configuration = Configuration::new();
    assert!(configuration.settings().is_empty());
    assert!(!configuration.contains_key("a"));
    assert_eq!(configuration.get("a"), None);
    assert_eq!(configuration.get(""), None);
}

#[test]
fn insert_stores_under_the_key() {
    let mut configuration = Configuration::new();
    configuration.insert("a".to_string(), text("1"));
    configuration.insert("b".to_string(), text("2"));
    assert!(configuration.contains_key("a"));
    assert!(configuration.contains_key("b"));
    assert!(!configuration.contains_key("c"));
    assert!(!configuration.contains_key("A"));
    assert_eq!(configuration.get("a"), Some(&text("1")));
    assert_eq!(configuration.get("b"), Some(&text("2")));
    assert_eq!(configuration.get("ab"), None);
    assert_eq!(configuration.settings().len(), 2);
}

#[test]
fn insert_replaces_what_the_key_held() {
    let mut configuration = Configuration::new();
    configuration.insert("a".to_string(), text("1"));
    configuration.insert("b".to_string(), text("2"));
    configuration.insert("a".to_string(), text("3"));
    assert_eq!(configuration.get("a"), Some(&text("3")));
    assert_eq!(configuration.get("b"), Some(&text("2")));
    assert_eq!(configuration.settings().len(), 2);
}

#[test]
fn key_without_text_is_held() {
    let mut configuration = Configuration::new();
    configuration.insert("a".to_string(), None);
    assert!(configuration.contains_key("a"));
    assert_eq!(configuration.get("a"), Some(&None));
    configuration.insert("a".to_string(), text("1"));
    assert_eq!(configuration.get("a"), Some(&text("1")));
    configuration.insert("a".to_string(), None);
    assert_eq!(configuration.get("a"), Some(&None));
}

#[test]
fn empty_key_is_a_key() {
    let mut configuration = Configuration::new();
    configuration.insert(String::new(), text("nothing"));
    assert!(configuration.contains_key(""));
    assert_eq!(configuration.get(""), Some(&text("nothing")));
}

#[test]
fn settings_list_each_key_once() {
    let mut configuration = Configuration::new();
    for (key, value) in [("a", "1"), ("b", "2"), ("a", "3"), ("c", "4"), ("b", "5")] {
        configuration.insert(key.to_string(), text(value));
    }
    let mut listed: Vec<(String, Option<String>)> = configuration
        .settings()
        .iter()
        .map(|setting| (setting.key.clone(), setting.value.clone()))
        .collect();
    listed.sort();
    assert_eq!(
        listed,
        vec![
            ("a".to_string(), text("3")),
            ("b".to_string(), text("5")),
            ("c".to_string(), text("4")),
        ]
    );
}

#[test]
fn clone_holds_the_same_settings() {
    let mut configuration = Configuration::new();
    configuration.insert("a".to_string(), text("1"));
    configuration.insert("b".to_string(), None);
    let mut copy = configuration.clone();
    assert_eq!(copy.get("a"), Some(&text("1")));
    assert_eq!(copy.get("b"), Some(&None));
    assert_eq!(copy.settings().len(), 2);
    copy.insert("a".to_string(), text("9"));
    assert_eq!(configuration.get("a"), Some(&text("1")));
}

#[test]
fn merged_prefers_the_other_side() {
    let mut left = Configuration::new();
    left.insert("a".to_string(), text("1"));
    left.insert("b".to_string(), text("2"));
    let mut right = Configuration::new();
    right.insert("b".to_string(), text("20"));
    right.insert("c".to_string(), None);
    let both = left.merged(&right);
    assert_eq!(both.get("a"), Some(&text("1")));
    assert_eq!(both.get("b"), Some(&text("20")));
    assert_eq!(both.get("c"), Some(&None));
    assert_eq!(both.settings().len(), 3);
    let other_way = right.merged(&left);
    assert_eq!(other_way.get("b"), Some(&text("2")));
    assert_eq!(left.merged(&Configuration::new()).settings().len(), 2);
    assert_eq!(Configuration::new().merged(&right).get("b"), Some(&text("20")));
}

#[test]
fn setting_is_a_key_and_a_value() {
    let mut configuration = Configuration::new();
    configuration.insert("a".to_string(), text("1"));
    assert_eq!(
        configuration.settings()[0],
        Setting { key: "a".to_string(), value: text("1") }
    );
}
