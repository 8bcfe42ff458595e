use aconfig_java::{
    any_read_write, class_element_json, context_json, create_class_element, create_context, Cache,
    ClassElement, FlagState, GenerationErrorKind, Item, Permission,
};

fn item(namespace: &str, name: &str, state: FlagState, permission: Permission) -> Item {
    Item { namespace: namespace.to_string(), name: name.to_string(), state, permission }
}

fn element(name: &str, is_read_write: bool) -> ClassElement {
    ClassElement {
        default_value: "false".to_string(),
        device_config_namespace: "ns".to_string(),
        device_config_flag: format!("com.example.{}", name),
        flag_name_constant_suffix: name.to_uppercase(),
        is_read_write,
        method_name: name.to_string(),
    }
}

#[test]
fn element_of_enabled_read_write_flag() {
    let flag = item("aconfig_test", "enabled_rw", FlagState::Enabled, Permission::ReadWrite);
    let element = create_class_element("com.android.aconfig.test", &flag);
    assert_eq!(element.default_value, "true");
    assert_eq!(element.device_config_namespace, "aconfig_test");
    assert_eq!(element.device_config_flag, "com.android.aconfig.test.enabled_rw");
    assert_eq!(element.flag_name_constant_suffix, "ENABLED_RW");
    assert!(element.is_read_write);
    assert_eq!(element.method_name, "enabled_rw");
}

#[test]
fn element_of_disabled_read_only_flag() {
    let flag = item("other", "disabled_ro", FlagState::Disabled, Permission::ReadOnly);
    let element = create_class_element("com.example", &flag);
    assert_eq!(element.default_value, "false");
    assert_eq!(element.device_config_namespace, "other");
    assert_eq!(element.device_config_flag, "com.example.disabled_ro");
    assert_eq!(element.flag_name_constant_suffix, "DISABLED_RO");
    assert!(!element.is_read_write);
    assert_eq!(element.method_name, "disabled_ro");
}

#[test]
fn default_value_is_true_exactly_for_enabled_flags() {
    for state in [FlagState::Enabled, FlagState::Disabled] {
        for permission in [Permission::ReadOnly, Permission::ReadWrite] {
            let element = create_class_element("com.example", &item("ns", "f", state, permission));
            assert_eq!(element.default_value == "true", state == FlagState::Enabled);
            assert_eq!(element.default_value == "false", state == FlagState::Disabled);
            assert_eq!(element.is_read_write, permission == Permission::ReadWrite);
        }
    }
}

#[test]
fn constant_suffix_folds_ascii_letters_only() {
    let element = create_class_element(
        "com.example",
        &item("ns", "a1_b2z", FlagState::Enabled, Permission::ReadOnly),
    );
    assert_eq!(element.flag_name_constant_suffix, "A1_B2Z");
}

#[test]
fn namespace_is_copied_verbatim() {
    let element = create_class_element(
        "com.example",
        &item("Some Namespace/\u{e9}", "f", FlagState::Enabled, Permission::ReadOnly),
    );
    assert_eq!(element.device_config_namespace, "Some Namespace/\u{e9}");
}

#[test]
fn any_read_write_is_the_disjunction() {
    assert!(!any_read_write(&vec![]));
    assert!(!any_read_write(&vec![element("a", false), element("b", false)]));
    assert!(any_read_write(&vec![element("a", true)]));
    assert!(any_read_write(&vec![element("a", false), element("b", false), element("c", true)]));
    assert!(any_read_write(&vec![element("a", true), element("b", false)]));
}

#[test]
fn context_keeps_the_order_of_the_flags() {
    let cache = Cache::new(
        "com.example".to_string(),
        vec![
            item("ns", "zebra", FlagState::Enabled, Permission::ReadOnly),
            item("ns", "apple", FlagState::Disabled, Permission::ReadWrite),
            item("ns", "mango", FlagState::Disabled, Permission::ReadOnly),
        ],
    );
    let context = create_context(&cache).unwrap();
    assert_eq!(context.package_name, "com.example");
    assert!(context.is_read_write);
    let names: Vec<&str> =
        context.class_elements.iter().map(|element| element.method_name.as_str()).collect();
    assert_eq!(names, vec!["zebra", "apple", "mango"]);
    let flags: Vec<&str> =
        context.class_elements.iter().map(|element| element.device_config_flag.as_str()).collect();
    assert_eq!(flags, vec!["com.example.zebra", "com.example.apple", "com.example.mango"]);
    let values: Vec<&str> =
        context.class_elements.iter().map(|element| element.default_value.as_str()).collect();
    assert_eq!(values, vec!["true", "false", "false"]);
}

#[test]
fn context_of_read_only_flags_is_not_read_write() {
    let cache = Cache::new(
        "com.example".to_string(),
        vec![
            item("ns", "a", FlagState::Enabled, Permission::ReadOnly),
            item("ns", "b", FlagState::Disabled, Permission::ReadOnly),
        ],
    );
    let context = create_context(&cache).unwrap();
    assert!(!context.is_read_write);
    assert_eq!(context.class_elements.len(), 2);
}

#[test]
fn context_of_no_flags() {
    let cache = Cache::new("com.example".to_string(), vec![]);
    let context = create_context(&cache).unwrap();
    assert_eq!(context.package_name, "com.example");
    assert!(!context.is_read_write);
    assert!(context.class_elements.is_empty());
}

#[test]
fn context_of_no_flags_does_not_look_at_the_package_name() {
    let cache = Cache::new("Not A Package".to_string(), vec![]);
    let context = create_context(&cache).unwrap();
    assert_eq!(context.package_name, "Not A Package");
    assert!(context.class_elements.is_empty());
}

#[test]
fn context_needs_well_formed_names() {
    let cache = Cache::new(
        "com.example".to_string(),
        vec![
            item("ns", "good", FlagState::Enabled, Permission::ReadOnly),
            item("ns", "", FlagState::Enabled, Permission::ReadOnly),
        ],
    );
    let error = create_context(&cache).unwrap_err();
    assert_eq!(error.kind, GenerationErrorKind::ContractViolation);
    assert_eq!(error.package, "com.example");

    let cache = Cache::new(
        "com..example".to_string(),
        vec![item("ns", "good", FlagState::Enabled, Permission::ReadOnly)],
    );
    let error = create_context(&cache).unwrap_err();
    assert_eq!(error.kind, GenerationErrorKind::ContractViolation);
    assert_eq!(error.package, "com..example");
}

#[test]
fn cache_gives_its_package() {
    let cache = Cache::new("com.example".to_string(), vec![]);
    assert_eq!(cache.package(), "com.example");
    assert!(cache.items.is_empty());
}

#[test]
fn element_as_json_object() {
    let flag = item("aconfig_test", "enabled_rw", FlagState::Enabled, Permission::ReadWrite);
    let element = create_class_element("com.android.aconfig.test", &flag);
    let value = class_element_json(&element);
    let object = value.as_object().unwrap();
    assert_eq!(object.len(), 6);
    assert_eq!(value["default_value"], serde_json::Value::String("true".to_string()));
    assert_eq!(
        value["device_config_namespace"],
        serde_json::Value::String("aconfig_test".to_string())
    );
    assert_eq!(
        value["device_config_flag"],
        serde_json::Value::String("com.android.aconfig.test.enabled_rw".to_string())
    );
    assert_eq!(
        value["flag_name_constant_suffix"],
        serde_json::Value::String("ENABLED_RW".to_string())
    );
    assert_eq!(value["is_read_write"], serde_json::Value::Bool(true));
    assert_eq!(value["method_name"], serde_json::Value::String("enabled_rw".to_string()));
}

#[test]
fn context_as_json_object() {
    let cache = Cache::new(
        "com.example".to_string(),
        vec![
            item("ns", "first", FlagState::Enabled, Permission::ReadOnly),
            item("ns", "second", FlagState::Disabled, Permission::ReadOnly),
        ],
    );
    let context = create_context(&cache).unwrap();
    let value = context_json(&context);
    assert_eq!(value.as_object().unwrap().len(), 3);
    assert_eq!(value["package_name"], serde_json::Value::String("com.example".to_string()));
    assert_eq!(value["is_read_write"], serde_json::Value::Bool(false));
    let elements = value["class_elements"].as_array().unwrap();
    assert_eq!(elements.len(), 2);
    assert_eq!(elements[0], class_element_json(&context.class_elements[0]));
    assert_eq!(elements[1], class_element_json(&context.class_elements[1]));
    assert_eq!(elements[0]["method_name"], serde_json::Value::String("first".to_string()));
    assert_eq!(elements[1]["default_value"], serde_json::Value::String("false".to_string()));
}
