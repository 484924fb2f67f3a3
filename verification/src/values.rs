//! The values that cross the bridge between PHP and JavaScript.
//!
//! `JsValue` is a JavaScript value as the bridge reads it out of the engine,
//! `JsBuild` is a JavaScript value that the bridge asks the engine to create,
//! and `PhpValue` is a PHP value in either direction. Each has a view made of
//! mathematical sequences, over which the conversion contracts are stated.
use vstd::prelude::*;

verus! {

/// A JavaScript value, as read from the engine.
#[derive(Debug, PartialEq, Eq)]
pub enum JsValue {
    Undefined,
    Null,
    Bool(bool),
    /// A number, held as the bit pattern of its IEEE-754 double.
    Number(u64),
    Str(String),
    /// An array, with its elements in index order.
    Array(Vec<JsValue>),
    Function,
    /// Any other object, with its own enumerable properties in engine order.
    Object(Vec<(String, JsValue)>),
    /// A value of any other kind, with the text that the engine gives for it.
    Other(String),
}

/// A key of a PHP array: an integer index or a string.
#[derive(Debug, PartialEq, Eq)]
pub enum PhpKey {
    Index(u64),
    Name(String),
}

/// A PHP value.
#[derive(Debug, PartialEq, Eq)]
pub enum PhpValue {
    Null,
    Bool(bool),
    Long(i64),
    /// A float, held as the bit pattern of its IEEE-754 double.
    Double(u64),
    Str(String),
    /// An array, with its entries in iteration order.
    Array(Vec<(PhpKey, PhpValue)>),
    /// An instance of the `V8Object` class with the given properties.
    Object(Vec<(String, PhpValue)>),
    /// Any other PHP value (other objects, resources, references).
    Other,
}

/// A JavaScript value that the engine is asked to create.
#[derive(Debug, PartialEq, Eq)]
pub enum JsBuild {
    Null,
    Bool(bool),
    Str(String),
    /// The number nearest to the given integer.
    Integer(i64),
    /// The number with the given IEEE-754 bit pattern.
    Number(u64),
    /// An array holding the given elements at indices 0, 1, ...
    Array(Vec<JsBuild>),
    /// An object with a null prototype and the given properties.
    Object(Vec<(String, JsBuild)>),
}

/// The mathematical view of a `JsValue`.
pub enum JsData {
    Undefined,
    Null,
    Bool(bool),
    Number(u64),
    Str(Seq<char>),
    Array(Seq<JsData>),
    Function,
    Object(Seq<(Seq<char>, JsData)>),
    Other(Seq<char>),
}

/// The mathematical view of a `PhpKey`.
pub enum PhpKeyData {
    Index(u64),
    Name(Seq<char>),
}

/// The mathematical view of a `PhpValue`.
pub enum PhpData {
    Null,
    Bool(bool),
    Long(i64),
    Double(u64),
    Str(Seq<char>),
    Array(Seq<(PhpKeyData, PhpData)>),
    Object(Seq<(Seq<char>, PhpData)>),
    Other,
}

/// The mathematical view of a `JsBuild`.
pub enum JsBuildData {
    Null,
    Bool(bool),
    Str(Seq<char>),
    Integer(i64),
    Number(u64),
    Array(Seq<JsBuildData>),
    Object(Seq<(Seq<char>, JsBuildData)>),
}

pub open spec fn js_data(v: JsValue) -> JsData
    decreases v,
{
    match v {
        JsValue::Undefined => JsData::Undefined,
        JsValue::Null => JsData::Null,
        JsValue::Bool(b) => JsData::Bool(b),
        JsValue::Number(bits) => JsData::Number(bits),
        JsValue::Str(s) => JsData::Str(s@),
        JsValue::Array(items) => JsData::Array(
            Seq::new(
                items@.len(),
                |i: int|
                    if 0 <= i < items@.len() {
                        js_data(items@[i])
                    } else {
                        JsData::Undefined
                    },
            ),
        ),
        JsValue::Function => JsData::Function,
        JsValue::Object(props) => JsData::Object(
            Seq::new(
                props@.len(),
                |i: int|
                    if 0 <= i < props@.len() {
                        (props@[i].0@, js_data(props@[i].1))
                    } else {
                        (Seq::empty(), JsData::Undefined)
                    },
            ),
        ),
        JsValue::Other(text) => JsData::Other(text@),
    }
}

pub open spec fn php_key_data(k: PhpKey) -> PhpKeyData {
    match k {
        PhpKey::Index(n) => PhpKeyData::Index(n),
        PhpKey::Name(s) => PhpKeyData::Name(s@),
    }
}

pub open spec fn php_data(v: PhpValue) -> PhpData
    decreases v,
{
    match v {
        PhpValue::Null => PhpData::Null,
        PhpValue::Bool(b) => PhpData::Bool(b),
        PhpValue::Long(n) => PhpData::Long(n),
        PhpValue::Double(bits) => PhpData::Double(bits),
        PhpValue::Str(s) => PhpData::Str(s@),
        PhpValue::Array(entries) => PhpData::Array(
            Seq::new(
                entries@.len(),
                |i: int|
                    if 0 <= i < entries@.len() {
                        (php_key_data(entries@[i].0), php_data(entries@[i].1))
                    } else {
                        (PhpKeyData::Index(0), PhpData::Null)
                    },
            ),
        ),
        PhpValue::Object(props) => PhpData::Object(
            Seq::new(
                props@.len(),
                |i: int|
                    if 0 <= i < props@.len() {
                        (props@[i].0@, php_data(props@[i].1))
                    } else {
                        (Seq::empty(), PhpData::Null)
                    },
            ),
        ),
        PhpValue::Other => PhpData::Other,
    }
}

pub open spec fn js_build_data(v: JsBuild) -> JsBuildData
    decreases v,
{
    match v {
        JsBuild::Null => JsBuildData::Null,
        JsBuild::Bool(b) => JsBuildData::Bool(b),
        JsBuild::Str(s) => JsBuildData::Str(s@),
        JsBuild::Integer(n) => JsBuildData::Integer(n),
        JsBuild::Number(bits) => JsBuildData::Number(bits),
        JsBuild::Array(items) => JsBuildData::Array(
            Seq::new(
                items@.len(),
                |i: int|
                    if 0 <= i < items@.len() {
                        js_build_data(items@[i])
                    } else {
                        JsBuildData::Null
                    },
            ),
        ),
        JsBuild::Object(props) => JsBuildData::Object(
            Seq::new(
                props@.len(),
                |i: int|
                    if 0 <= i < props@.len() {
                        (props@[i].0@, js_build_data(props@[i].1))
                    } else {
                        (Seq::empty(), JsBuildData::Null)
                    },
            ),
        ),
    }
}

impl View for JsValue {
    type V = JsData;

    open spec fn view(&self) -> JsData {
        js_data(*self)
    }
}

impl View for PhpKey {
    type V = PhpKeyData;

    open spec fn view(&self) -> PhpKeyData {
        php_key_data(*self)
    }
}

impl View for PhpValue {
    type V = PhpData;

    open spec fn view(&self) -> PhpData {
        php_data(*self)
    }
}

impl View for JsBuild {
    type V = JsBuildData;

    open spec fn view(&self) -> JsBuildData {
        js_build_data(*self)
    }
}

} // verus!
