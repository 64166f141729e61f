use app_health::AttributeString;

#[test]
fn test_new_static() {
    let attr = AttributeString::new("test");
    assert_eq!(attr.as_str(), "test");
    match attr {
        AttributeString::Static(_) => (),
        AttributeString::Boxed(_) => panic!("Expected Static variant"),
    }
}

#[test]
fn test_as_str() {
    let static_attr = AttributeString::new("static");
    let boxed_attr = AttributeString::from("boxed");

    assert_eq!(static_attr.as_str(), "static");
    assert_eq!(boxed_attr.as_str(), "boxed");
}

#[test]
fn attribute_string_test_from_string() {
    let s = String::from("test_string");
    let attr = AttributeString::from(s);
    assert_eq!(attr.as_str(), "test_string");
    match attr {
        AttributeString::Boxed(_) => (),
        AttributeString::Static(_) => panic!("Expected Boxed variant"),
    }
}

#[test]
fn attribute_string_test_from_box_str() {
    let boxed_str: Box<str> = Box::from("test_box");
    let attr = AttributeString::from(boxed_str);
    assert_eq!(attr.as_str(), "test_box");
    match attr {
        AttributeString::Boxed(_) => (),
        AttributeString::Static(_) => panic!("Expected Boxed variant"),
    }
}

#[test]
fn attribute_string_test_from_str_ref() {
    let attr = AttributeString::from("test_ref");
    assert_eq!(attr.as_str(), "test_ref");
    match attr {
        AttributeString::Boxed(_) => (),
        AttributeString::Static(_) => panic!("Expected Boxed variant"),
    }
}

#[test]
fn test_equality() {
    let static1 = AttributeString::new("same");
    let static2 = AttributeString::new("same");
    let boxed1 = AttributeString::from("same");
    let boxed2 = AttributeString::from("same");
    let different = AttributeString::from("different");

    assert_eq!(static1, static2);
    assert_eq!(static1, boxed1);
    assert_eq!(boxed1, boxed2);
    assert_ne!(static1, different);
    assert_ne!(boxed1, different);
}

#[test]
fn test_ordering() {
    let attr_a = AttributeString::from("a");
    let attr_b = AttributeString::from("b");
    let attr_a_static = AttributeString::new("a");

    assert!(attr_a < attr_b);
    assert!(attr_b > attr_a);
    assert_eq!(attr_a.partial_cmp(&attr_a_static), Some(core::cmp::Ordering::Equal));
    assert_eq!(attr_a.partial_cmp(&attr_b), Some(core::cmp::Ordering::Less));
}

#[test]
fn attribute_string_test_hash() {
    let static_attr = AttributeString::new("test");
    let boxed_attr = AttributeString::from("test");

    let mut hasher1 = std::collections::hash_map::DefaultHasher::new();
    let mut hasher2 = std::collections::hash_map::DefaultHasher::new();

    core::hash::Hash::hash(&static_attr, &mut hasher1);
    core::hash::Hash::hash(&boxed_attr, &mut hasher2);

    assert_eq!(
        core::hash::Hasher::finish(&hasher1),
        core::hash::Hasher::finish(&hasher2)
    );
}

#[test]
fn test_hash_map_usage() {
    let mut map = std::collections::HashMap::new();
    let key1 = AttributeString::new("key");
    let key2 = AttributeString::from("key");

    let _ = map.insert(key1, "value1");
    assert_eq!(map.get(&key2), Some(&"value1"));
}

#[test]
fn attribute_string_test_display() {
    let static_attr = AttributeString::new("static_display");
    let boxed_attr = AttributeString::from("boxed_display");

    assert_eq!(format!("{}", static_attr.as_str()), "static_display");
    assert_eq!(format!("{}", boxed_attr.as_str()), "boxed_display");
}

#[test]
fn attribute_string_test_debug() {
    let static_attr = AttributeString::new("debug");
    let boxed_attr = AttributeString::from("debug");

    let static_debug = format!("{static_attr:?}");
    let boxed_debug = format!("{boxed_attr:?}");

    assert!(static_debug.contains("Static"));
    assert!(static_debug.contains("debug"));
    assert!(boxed_debug.contains("Boxed"));
    assert!(boxed_debug.contains("debug"));
}

#[test]
fn test_borrow() {
    let attr = AttributeString::from("borrow_test");
    let borrowed: &str = core::borrow::Borrow::borrow(&attr);
    assert_eq!(borrowed, "borrow_test");
}

#[test]
fn attribute_string_test_clone() {
    let original = AttributeString::from("clone_test");
    let cloned = original.clone();
    assert_eq!(original, cloned);
    assert_eq!(original.as_str(), cloned.as_str());
}

#[test]
fn attribute_string_test_empty_string() {
    let empty_static = AttributeString::new("");
    let empty_boxed = AttributeString::from("");

    assert_eq!(empty_static.as_str(), "");
    assert_eq!(empty_boxed.as_str(), "");
    assert_eq!(empty_static, empty_boxed);
}

#[test]
fn test_unicode_string() {
    let unicode = AttributeString::from("Hello, 世界! 🦀");
    assert_eq!(unicode.as_str(), "Hello, 世界! 🦀");
    assert_eq!(format!("{}", unicode.as_str()), "Hello, 世界! 🦀");
}

#[test]
fn test_long_string() {
    let long_str = "a".repeat(1000);
    let attr = AttributeString::from(long_str.as_str());
    assert_eq!(attr.as_str().len(), 1000);
    assert!(attr.as_str().chars().all(|c| c == 'a'));
}
