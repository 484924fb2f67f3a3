use v8js::convert::{index_to_string, js_value_from_zval, zval_from_jsvalue};
use v8js::values::{JsBuild, JsValue, PhpKey, PhpValue};

fn s(text: &str) -> String {
    String::from(text)
}

#[test]
fn js_scalars_to_php() {
    assert_eq!(zval_from_jsvalue(&JsValue::Str(s("hi"))), PhpValue::Str(s("hi")));
    assert_eq!(zval_from_jsvalue(&JsValue::Null), PhpValue::Null);
    assert_eq!(zval_from_jsvalue(&JsValue::Undefined), PhpValue::Null);
    assert_eq!(zval_from_jsvalue(&JsValue::Bool(true)), PhpValue::Bool(true));
    assert_eq!(zval_from_jsvalue(&JsValue::Bool(false)), PhpValue::Bool(false));
    assert_eq!(zval_from_jsvalue(&JsValue::Function), PhpValue::Str(s("Function")));
    assert_eq!(zval_from_jsvalue(&JsValue::Other(s("Symbol(x)"))), PhpValue::Str(s("Symbol(x)")));
}

#[test]
fn js_numbers_become_php_floats() {
    let two = 2.0f64.to_bits();
    assert_eq!(zval_from_jsvalue(&JsValue::Number(two)), PhpValue::Double(two));
    let third = (1.0f64 / 3.0).to_bits();
    assert_eq!(zval_from_jsvalue(&JsValue::Number(third)), PhpValue::Double(third));
}

#[test]
fn js_array_to_php_array() {
    let js = JsValue::Array(vec![
        JsValue::Str(s("a")),
        JsValue::Undefined,
        JsValue::Array(vec![JsValue::Bool(true)]),
    ]);
    let expected = PhpValue::Array(vec![
        (PhpKey::Index(0), PhpValue::Str(s("a"))),
        (PhpKey::Index(1), PhpValue::Null),
        (PhpKey::Index(2), PhpValue::Array(vec![(PhpKey::Index(0), PhpValue::Bool(true))])),
    ]);
    assert_eq!(zval_from_jsvalue(&js), expected);
    assert_eq!(zval_from_jsvalue(&JsValue::Array(vec![])), PhpValue::Array(vec![]));
}

#[test]
fn js_object_to_v8object() {
    let js = JsValue::Object(vec![
        (s("name"), JsValue::Str(s("x"))),
        (s("f"), JsValue::Function),
        (s("inner"), JsValue::Object(vec![(s("ok"), JsValue::Bool(true))])),
    ]);
    let expected = PhpValue::Object(vec![
        (s("name"), PhpValue::Str(s("x"))),
        (s("f"), PhpValue::Str(s("Function"))),
        (s("inner"), PhpValue::Object(vec![(s("ok"), PhpValue::Bool(true))])),
    ]);
    assert_eq!(zval_from_jsvalue(&js), expected);
}

#[test]
fn php_scalars_to_js() {
    assert_eq!(js_value_from_zval(&PhpValue::Str(s("hi"))), JsBuild::Str(s("hi")));
    assert_eq!(js_value_from_zval(&PhpValue::Long(-5)), JsBuild::Integer(-5));
    let half = 0.5f64.to_bits();
    assert_eq!(js_value_from_zval(&PhpValue::Double(half)), JsBuild::Number(half));
    assert_eq!(js_value_from_zval(&PhpValue::Bool(true)), JsBuild::Bool(true));
    assert_eq!(js_value_from_zval(&PhpValue::Null), JsBuild::Null);
    assert_eq!(js_value_from_zval(&PhpValue::Other), JsBuild::Null);
    assert_eq!(js_value_from_zval(&PhpValue::Object(vec![])), JsBuild::Null);
}

#[test]
fn php_numeric_array_to_js_array() {
    let php = PhpValue::Array(vec![
        (PhpKey::Index(0), PhpValue::Long(1)),
        (PhpKey::Index(5), PhpValue::Str(s("b"))),
    ]);
    let expected = JsBuild::Array(vec![JsBuild::Integer(1), JsBuild::Str(s("b"))]);
    assert_eq!(js_value_from_zval(&php), expected);
    assert_eq!(js_value_from_zval(&PhpValue::Array(vec![])), JsBuild::Array(vec![]));
}

#[test]
fn php_string_keyed_array_to_js_object() {
    let php = PhpValue::Array(vec![
        (PhpKey::Index(3), PhpValue::Long(1)),
        (PhpKey::Name(s("key")), PhpValue::Array(vec![(PhpKey::Index(0), PhpValue::Bool(false))])),
    ]);
    let expected = JsBuild::Object(vec![
        (s("3"), JsBuild::Integer(1)),
        (s("key"), JsBuild::Array(vec![JsBuild::Bool(false)])),
    ]);
    assert_eq!(js_value_from_zval(&php), expected);
}

#[test]
fn decimal_index_names() {
    assert_eq!(index_to_string(0), "0");
    assert_eq!(index_to_string(7), "7");
    assert_eq!(index_to_string(10), "10");
    assert_eq!(index_to_string(12345), "12345");
    assert_eq!(index_to_string(u64::MAX), u64::MAX.to_string());
}

#[test]
fn distinct_indices_give_distinct_names() {
    let names: Vec<String> = [0u64, 1, 10, 100, 101, 1000].iter().map(|n| index_to_string(*n)).collect();
    for i in 0..names.len() {
        for j in 0..names.len() {
            assert_eq!(i == j, names[i] == names[j]);
        }
    }
}
