//! The mapping rules between PHP and JavaScript values.
//!
//! | PHP -> JavaScript           | JavaScript -> PHP      |
//! |-----------------------------|------------------------|
//! | String -> string            | string -> String       |
//! | Bool -> bool                | bool -> Bool           |
//! | Array (numeric) -> Array    | array -> Array         |
//! | Array (string keys) -> Object | Object -> V8Object   |
//! | Int -> Number               | Number -> Float        |
use vstd::prelude::*;
use crate::values::{JsBuild, JsBuildData, JsData, JsValue, PhpData, PhpKey, PhpKeyData, PhpValue};

verus! {

/// The character of a decimal digit.
pub open spec fn digit_char(d: nat) -> char {
    if d == 0 {
        '0'
    } else if d == 1 {
        '1'
    } else if d == 2 {
        '2'
    } else if d == 3 {
        '3'
    } else if d == 4 {
        '4'
    } else if d == 5 {
        '5'
    } else if d == 6 {
        '6'
    } else if d == 7 {
        '7'
    } else if d == 8 {
        '8'
    } else {
        '9'
    }
}

/// The decimal text of a natural number, without leading zeros.
pub open spec fn decimal(n: nat) -> Seq<char>
    decreases n,
{
    if n < 10 {
        seq![digit_char(n)]
    } else {
        decimal(n / 10) + seq![digit_char(n % 10)]
    }
}

/// The text under which a PHP array key becomes a JavaScript property name.
pub open spec fn key_text(k: PhpKeyData) -> Seq<char> {
    match k {
        PhpKeyData::Index(n) => decimal(n as nat),
        PhpKeyData::Name(s) => s,
    }
}

/// Whether some entry of a PHP array has a string key.
pub open spec fn has_string_key(entries: Seq<(PhpKeyData, PhpData)>) -> bool {
    exists|i: int| 0 <= i < entries.len() && entries[i].0 is Name
}

/// What a JavaScript value becomes in PHP.
pub open spec fn php_of_js(v: JsData) -> PhpData
    decreases v,
{
    match v {
        JsData::Str(s) => PhpData::Str(s),
        JsData::Undefined => PhpData::Null,
        JsData::Null => PhpData::Null,
        JsData::Bool(b) => PhpData::Bool(b),
        JsData::Number(bits) => PhpData::Double(bits),
        JsData::Array(items) => PhpData::Array(
            Seq::new(
                items.len(),
                |i: int|
                    if 0 <= i < items.len() {
                        (PhpKeyData::Index(i as u64), php_of_js(items[i]))
                    } else {
                        (PhpKeyData::Index(0), PhpData::Null)
                    },
            ),
        ),
        JsData::Function => PhpData::Str("Function"@),
        JsData::Object(props) => PhpData::Object(
            Seq::new(
                props.len(),
                |i: int|
                    if 0 <= i < props.len() {
                        (props[i].0, php_of_js(props[i].1))
                    } else {
                        (Seq::empty(), PhpData::Null)
                    },
            ),
        ),
        JsData::Other(text) => PhpData::Str(text),
    }
}

/// What a PHP value becomes in JavaScript.
pub open spec fn js_of_php(v: PhpData) -> JsBuildData
    decreases v,
{
    match v {
        PhpData::Str(s) => JsBuildData::Str(s),
        PhpData::Long(n) => JsBuildData::Integer(n),
        PhpData::Double(bits) => JsBuildData::Number(bits),
        PhpData::Bool(b) => JsBuildData::Bool(b),
        PhpData::Null => JsBuildData::Null,
        PhpData::Array(entries) => if has_string_key(entries) {
            JsBuildData::Object(
                Seq::new(
                    entries.len(),
                    |i: int|
                        if 0 <= i < entries.len() {
                            (key_text(entries[i].0), js_of_php(entries[i].1))
                        } else {
                            (Seq::empty(), JsBuildData::Null)
                        },
                ),
            )
        } else {
            JsBuildData::Array(
                Seq::new(
                    entries.len(),
                    |i: int|
                        if 0 <= i < entries.len() {
                            js_of_php(entries[i].1)
                        } else {
                            JsBuildData::Null
                        },
                ),
            )
        },
        PhpData::Object(_) => JsBuildData::Null,
        PhpData::Other => JsBuildData::Null,
    }
}

fn digit_str(d: u64) -> (s: &'static str)
    requires
        d < 10,
    ensures
        s@ == seq![digit_char(d as nat)],
{
    proof {
        reveal_strlit("0");
        reveal_strlit("1");
        reveal_strlit("2");
        reveal_strlit("3");
        reveal_strlit("4");
        reveal_strlit("5");
        reveal_strlit("6");
        reveal_strlit("7");
        reveal_strlit("8");
        reveal_strlit("9");
    }
    if d == 0 {
        "0"
    } else if d == 1 {
        "1"
    } else if d == 2 {
        "2"
    } else if d == 3 {
        "3"
    } else if d == 4 {
        "4"
    } else if d == 5 {
        "5"
    } else if d == 6 {
        "6"
    } else if d == 7 {
        "7"
    } else if d == 8 {
        "8"
    } else {
        "9"
    }
}

fn push_decimal(n: u64, out: &mut String)
    ensures
        final(out)@ == old(out)@ + decimal(n as nat),
    decreases n,
{
    if n >= 10 {
        push_decimal(n / 10, out);
    }
    out.append(digit_str(n % 10));
    proof {
        if n >= 10 {
            assert(decimal(n as nat) == decimal((n / 10) as nat) + seq![digit_char((n % 10) as nat)]);
        }
    }
}

/// The decimal text of an array index.
pub fn index_to_string(n: u64) -> (s: String)
    ensures
        s@ == decimal(n as nat),
{
    let mut s = String::new();
    push_decimal(n, &mut s);
    assert(s@ =~= decimal(n as nat));
    s
}

proof fn lemma_array_item_smaller(v: JsValue, i: int)
    requires
        v is Array,
        0 <= i < v->Array_0@.len(),
    ensures
        decreases_to!(v => v->Array_0@[i]),
{
    assert(decreases_to!(v => v->Array_0));
    assert(decreases_to!(v->Array_0 => v->Array_0@));
    assert(decreases_to!(v->Array_0@ => v->Array_0@[i]));
}

proof fn lemma_property_value_smaller(v: JsValue, i: int)
    requires
        v is Object,
        0 <= i < v->Object_0@.len(),
    ensures
        decreases_to!(v => v->Object_0@[i].1),
{
    assert(decreases_to!(v => v->Object_0));
    assert(decreases_to!(v->Object_0 => v->Object_0@));
    assert(decreases_to!(v->Object_0@ => v->Object_0@[i]));
    assert(decreases_to!(v->Object_0@[i] => v->Object_0@[i].1));
}

proof fn lemma_entry_value_smaller(z: PhpValue, i: int)
    requires
        z is Array,
        0 <= i < z->Array_0@.len(),
    ensures
        decreases_to!(z => z->Array_0@[i].1),
{
    assert(decreases_to!(z => z->Array_0));
    assert(decreases_to!(z->Array_0 => z->Array_0@));
    assert(decreases_to!(z->Array_0@ => z->Array_0@[i]));
    assert(decreases_to!(z->Array_0@[i] => z->Array_0@[i].1));
}

/// Converts a JavaScript value into a PHP value.
pub fn zval_from_jsvalue(result: &JsValue) -> (zval: PhpValue)
    ensures
        zval@ == php_of_js(result@),
    decreases result,
{
    match result {
        JsValue::Str(s) => PhpValue::Str(s.clone()),
        JsValue::Undefined => PhpValue::Null,
        JsValue::Null => PhpValue::Null,
        JsValue::Bool(b) => PhpValue::Bool(*b),
        JsValue::Number(bits) => PhpValue::Double(*bits),
        JsValue::Array(items) => {
            let mut entries: Vec<(PhpKey, PhpValue)> = Vec::new();
            let mut index: usize = 0;
            while index < items.len()
                invariant
                    *result == JsValue::Array(*items),
                    index <= items@.len(),
                    entries@.len() == index,
                    forall|j: int|
                        0 <= j < index ==> {
                            &&& #[trigger] entries@[j].0@ == PhpKeyData::Index(j as u64)
                            &&& entries@[j].1@ == php_of_js(items@[j]@)
                        },
                decreases items@.len() - index,
            {
                proof {
                    lemma_array_item_smaller(*result, index as int);
                }
                let converted = zval_from_jsvalue(&items[index]);
                entries.push((PhpKey::Index(index as u64), converted));
                index = index + 1;
            }
            let zval = PhpValue::Array(entries);
            proof {
                let items_data = result@->Array_0;
                assert(items_data.len() == items@.len());
                assert forall|j: int| 0 <= j < items@.len() implies items_data[j] == items@[j]@ by {}
                let expected = php_of_js(result@);
                assert forall|j: int| 0 <= j < items@.len() implies expected->Array_0[j] == zval@->Array_0[j] by {
                    assert(entries@[j].0@ == PhpKeyData::Index(j as u64));
                    assert(entries@[j].1@ == php_of_js(items@[j]@));
                }
                assert(expected->Array_0 =~= zval@->Array_0);
            }
            zval
        },
        JsValue::Function => PhpValue::Str(String::from_str("Function")),
        JsValue::Object(props) => {
            let mut converted_props: Vec<(String, PhpValue)> = Vec::new();
            let mut index: usize = 0;
            while index < props.len()
                invariant
                    *result == JsValue::Object(*props),
                    index <= props@.len(),
                    converted_props@.len() == index,
                    forall|j: int|
                        0 <= j < index ==> {
                            &&& #[trigger] converted_props@[j].0@ == props@[j].0@
                            &&& converted_props@[j].1@ == php_of_js(props@[j].1@)
                        },
                decreases props@.len() - index,
            {
                proof {
                    lemma_property_value_smaller(*result, index as int);
                }
                let converted = zval_from_jsvalue(&props[index].1);
                converted_props.push((props[index].0.clone(), converted));
                index = index + 1;
            }
            let zval = PhpValue::Object(converted_props);
            proof {
                let props_data = result@->Object_0;
                assert(props_data.len() == props@.len());
                assert forall|j: int| 0 <= j < props@.len() implies props_data[j] == (props@[j].0@, props@[j].1@) by {}
                let expected = php_of_js(result@);
                assert(expected->Object_0 =~= zval@->Object_0);
            }
            zval
        },
        JsValue::Other(text) => PhpValue::Str(text.clone()),
    }
}


fn any_string_key(entries: &Vec<(PhpKey, PhpValue)>) -> (found: bool)
    ensures
        found == has_string_key(
            Seq::new(entries@.len(), |i: int| (entries@[i].0@, entries@[i].1@)),
        ),
{
    let ghost view = Seq::new(entries@.len(), |i: int| (entries@[i].0@, entries@[i].1@));
    let mut index: usize = 0;
    while index < entries.len()
        invariant
            index <= entries@.len(),
            view == Seq::new(entries@.len(), |i: int| (entries@[i].0@, entries@[i].1@)),
            forall|j: int| 0 <= j < index ==> !(view[j].0 is Name),
        decreases entries@.len() - index,
    {
        match &entries[index].0 {
            PhpKey::Name(_) => {
                assert(view[index as int].0 is Name);
                return true;
            },
            PhpKey::Index(_) => {},
        }
        index = index + 1;
    }
    false
}

/// Converts a PHP value into the JavaScript value to create for it.
pub fn js_value_from_zval(zval: &PhpValue) -> (result: JsBuild)
    ensures
        result@ == js_of_php(zval@),
    decreases zval,
{
    match zval {
        PhpValue::Str(s) => JsBuild::Str(s.clone()),
        PhpValue::Long(n) => JsBuild::Integer(*n),
        PhpValue::Double(bits) => JsBuild::Number(*bits),
        PhpValue::Bool(b) => JsBuild::Bool(*b),
        PhpValue::Null => JsBuild::Null,
        PhpValue::Array(entries) => {
            let ghost entries_data = zval@->Array_0;
            assert(entries_data =~= Seq::new(entries@.len(), |i: int| (entries@[i].0@, entries@[i].1@)));
            let string_keys = any_string_key(entries);
            if string_keys {
                let mut props: Vec<(String, JsBuild)> = Vec::new();
                let mut index: usize = 0;
                while index < entries.len()
                    invariant
                        *zval == PhpValue::Array(*entries),
                        index <= entries@.len(),
                        props@.len() == index,
                        forall|j: int|
                            0 <= j < index ==> {
                                &&& #[trigger] props@[j].0@ == key_text(entries@[j].0@)
                                &&& props@[j].1@ == js_of_php(entries@[j].1@)
                            },
                    decreases entries@.len() - index,
                {
                    proof {
                        lemma_entry_value_smaller(*zval, index as int);
                    }
                    let key = match &entries[index].0 {
                        PhpKey::Name(name) => name.clone(),
                        PhpKey::Index(n) => index_to_string(*n),
                    };
                    assert(key@ == key_text(entries@[index as int].0@));
                    let value = js_value_from_zval(&entries[index].1);
                    props.push((key, value));
                    assert(props@[index as int].0@ == key_text(entries@[index as int].0@));
                    index = index + 1;
                }
                let result = JsBuild::Object(props);
                proof {
                    let expected = js_of_php(zval@);
                    assert forall|j: int| 0 <= j < entries@.len() implies expected->Object_0[j] == result@->Object_0[j] by {
                        assert(props@[j].0@ == key_text(entries@[j].0@));
                        assert(props@[j].1@ == js_of_php(entries@[j].1@));
                    }
                    assert(expected->Object_0 =~= result@->Object_0);
                }
                result
            } else {
                let mut items: Vec<JsBuild> = Vec::new();
                let mut index: usize = 0;
                while index < entries.len()
                    invariant
                        *zval == PhpValue::Array(*entries),
                        index <= entries@.len(),
                        items@.len() == index,
                        forall|j: int| 0 <= j < index ==> #[trigger] items@[j]@ == js_of_php(entries@[j].1@),
                    decreases entries@.len() - index,
                {
                    proof {
                        lemma_entry_value_smaller(*zval, index as int);
                    }
                    let value = js_value_from_zval(&entries[index].1);
                    items.push(value);
                    index = index + 1;
                }
                let result = JsBuild::Array(items);
                proof {
                    let expected = js_of_php(zval@);
                    assert forall|j: int| 0 <= j < entries@.len() implies expected->Array_0[j] == result@->Array_0[j] by {
                        assert(items@[j]@ == js_of_php(entries@[j].1@));
                    }
                    assert(expected->Array_0 =~= result@->Array_0);
                }
                result
            }
        },
        PhpValue::Object(_) => JsBuild::Null,
        PhpValue::Other => JsBuild::Null,
    }
}

} // verus!
