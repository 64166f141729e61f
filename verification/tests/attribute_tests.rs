use app_health::{Attribute, AttributeString, AttributeValue};

#[test]
fn test_new() {
    let attr = Attribute::new(
        AttributeString::new("test_key"),
        AttributeValue::String(AttributeString::new("test_value")),
    );
    assert_eq!(attr.name().as_str(), "test_key");
    match attr.value() {
        AttributeValue::String(s) => assert_eq!(s.as_str(), "test_value"),
        _ => panic!("Expected String variant"),
    }
}

#[test]
fn test_name() {
    let attr = Attribute::new(AttributeString::new("key"), AttributeValue::Int(42));
    assert_eq!(attr.name().as_str(), "key");
}

#[test]
fn test_value() {
    let attr = Attribute::new(AttributeString::new("key"), AttributeValue::Int(42));
    match attr.value() {
        AttributeValue::Int(42) => (),
        _ => panic!("Expected Int(42)"),
    }
}

#[test]
fn test_from_tuple_string_int() {
    let attr = Attribute::from(("key", 42i64));
    assert_eq!(attr.name().as_str(), "key");
    match attr.value() {
        AttributeValue::Int(42) => (),
        _ => panic!("Expected Int(42)"),
    }
}

#[test]
fn test_from_tuple_string_bool() {
    let attr = Attribute::from(("key", true));
    assert_eq!(attr.name().as_str(), "key");
    match attr.value() {
        AttributeValue::Boolean(true) => (),
        _ => panic!("Expected Boolean(true)"),
    }
}

#[test]
fn test_from_tuple_string_string() {
    let attr = Attribute::from(("key", "value"));
    assert_eq!(attr.name().as_str(), "key");
    match attr.value() {
        AttributeValue::String(s) => assert_eq!(s.as_str(), "value"),
        _ => panic!("Expected String variant"),
    }
}

#[test]
fn test_from_tuple_owned_string() {
    let attr = Attribute::from(("key".to_string(), "value".to_string()));
    assert_eq!(attr.name().as_str(), "key");
    match attr.value() {
        AttributeValue::String(s) => assert_eq!(s.as_str(), "value"),
        _ => panic!("Expected String variant"),
    }
}

#[test]
fn attribute_test_partial_eq() {
    let attr1 = Attribute::from(("key", "value"));
    let attr2 = Attribute::from(("key", "value"));
    let attr3 = Attribute::from(("key", "different"));
    let attr4 = Attribute::from(("different", "value"));

    assert_eq!(attr1, attr2);
    assert_ne!(attr1, attr3);
    assert_ne!(attr1, attr4);
}

#[test]
fn test_partial_ord() {
    let attr_a = Attribute::from(("a", "value"));
    let attr_b = Attribute::from(("b", "value"));
    let attr_c = Attribute::from(("c", "value"));

    assert!(attr_a < attr_b);
    assert!(attr_b < attr_c);
    assert!(attr_a < attr_c);

    // Same keys but different values compare equal: ordering is by name only
    let attr_same1 = Attribute::from(("same", "value1"));
    let attr_same2 = Attribute::from(("same", "value2"));
    assert_eq!(
        attr_same1.partial_cmp(&attr_same2),
        Some(core::cmp::Ordering::Equal)
    );
}

#[test]
fn attribute_test_hash() {
    let attr1 = Attribute::from(("key", "value1"));
    let attr2 = Attribute::from(("key", "value2"));
    let attr3 = Attribute::from(("different", "value"));

    let mut hasher1 = std::collections::hash_map::DefaultHasher::new();
    let mut hasher2 = std::collections::hash_map::DefaultHasher::new();
    let mut hasher3 = std::collections::hash_map::DefaultHasher::new();

    core::hash::Hash::hash(&attr1, &mut hasher1);
    core::hash::Hash::hash(&attr2, &mut hasher2);
    core::hash::Hash::hash(&attr3, &mut hasher3);

    // Same key should produce same hash regardless of value
    assert_eq!(
        core::hash::Hasher::finish(&hasher1),
        core::hash::Hasher::finish(&hasher2)
    );
    // Different key should produce different hash
    assert_ne!(
        core::hash::Hasher::finish(&hasher1),
        core::hash::Hasher::finish(&hasher3)
    );
}

#[test]
fn attribute_test_debug() {
    let attr = Attribute::from(("debug_key", 123i64));
    let debug_str = format!("{attr:?}");
    assert!(debug_str.contains("debug_key"));
    assert!(debug_str.contains("123"));
}

#[test]
fn attribute_test_clone() {
    let attr1 = Attribute::from(("key", "value"));
    let attr2 = attr1.clone();
    assert_eq!(attr1, attr2);
    assert_eq!(attr1.name().as_str(), attr2.name().as_str());
}

#[test]
fn test_ordering_consistency() {
    let mut attrs = [
        Attribute::from(("z", 1)),
        Attribute::from(("a", 2)),
        Attribute::from(("m", 3)),
        Attribute::from(("b", 4)),
    ];

    attrs.sort_by(|a, b| a.partial_cmp(b).unwrap());

    assert_eq!(attrs[0].name().as_str(), "a");
    assert_eq!(attrs[1].name().as_str(), "b");
    assert_eq!(attrs[2].name().as_str(), "m");
    assert_eq!(attrs[3].name().as_str(), "z");
}

#[test]
fn test_different_value_types() {
    let attr_int = Attribute::from(("int_key", 42i64));
    let attr_float = Attribute::new(
        AttributeString::new("float_key"),
        AttributeValue::Double((5.24f64).to_bits()),
    );
    let attr_bool = Attribute::from(("bool_key", true));
    let attr_string = Attribute::from(("string_key", "test"));

    // Verify each type is stored correctly
    match attr_int.value() {
        AttributeValue::Int(42) => (),
        _ => panic!("Expected Int(42)"),
    }

    match attr_float.value() {
        AttributeValue::Double(bits) if (f64::from_bits(*bits) - 5.24).abs() < f64::EPSILON => (),
        _ => panic!("Expected Double(5.24)"),
    }

    match attr_bool.value() {
        AttributeValue::Boolean(true) => (),
        _ => panic!("Expected Boolean(true)"),
    }

    match attr_string.value() {
        AttributeValue::String(s) => assert_eq!(s.as_str(), "test"),
        _ => panic!("Expected String variant"),
    }
}

#[test]
fn test_edge_cases() {
    // Test with empty string
    let attr_empty = Attribute::from(("", ""));
    assert_eq!(attr_empty.name().as_str(), "");
    match attr_empty.value() {
        AttributeValue::String(s) => assert_eq!(s.as_str(), ""),
        _ => panic!("Expected String variant"),
    }

    // Test with zero values
    let attr_zero_int = Attribute::from(("zero", 0i64));
    let attr_zero_float = Attribute::new(
        AttributeString::new("zero"),
        AttributeValue::Double((0.0f64).to_bits()),
    );
    let attr_false = Attribute::from(("false", false));

    match attr_zero_int.value() {
        AttributeValue::Int(0) => (),
        _ => panic!("Expected Int(0)"),
    }

    match attr_zero_float.value() {
        AttributeValue::Double(bits) if f64::from_bits(*bits).abs() < f64::EPSILON => (),
        _ => panic!("Expected Double(0.0)"),
    }

    match attr_false.value() {
        AttributeValue::Boolean(false) => (),
        _ => panic!("Expected Boolean(false)"),
    }
}

#[test]
fn attribute_test_special_float_values() {
    let attr_nan = Attribute::new(
        AttributeString::new("nan"),
        AttributeValue::Double(f64::NAN.to_bits()),
    );
    let attr_inf = Attribute::new(
        AttributeString::new("inf"),
        AttributeValue::Double(f64::INFINITY.to_bits()),
    );
    let attr_neg_inf = Attribute::new(
        AttributeString::new("neg_inf"),
        AttributeValue::Double(f64::NEG_INFINITY.to_bits()),
    );

    match attr_nan.value() {
        AttributeValue::Double(bits) if f64::from_bits(*bits).is_nan() => (),
        _ => panic!("Expected NaN"),
    }

    match attr_inf.value() {
        AttributeValue::Double(bits)
            if f64::from_bits(*bits).is_infinite()
                && f64::from_bits(*bits).is_sign_positive() => (),
        _ => panic!("Expected positive infinity"),
    }

    match attr_neg_inf.value() {
        AttributeValue::Double(bits)
            if f64::from_bits(*bits).is_infinite()
                && f64::from_bits(*bits).is_sign_negative() => (),
        _ => panic!("Expected negative infinity"),
    }
}

#[test]
fn test_negative_and_large_values() {
    let attr_negative = Attribute::from(("negative", -42i64));
    let attr_large = Attribute::from(("large", i64::MAX));

    match attr_negative.value() {
        AttributeValue::Int(-42) => (),
        _ => panic!("Expected Int(-42)"),
    }

    match attr_large.value() {
        AttributeValue::Int(v) if *v == i64::MAX => (),
        _ => panic!("Expected Int(i64::MAX)"),
    }
}
