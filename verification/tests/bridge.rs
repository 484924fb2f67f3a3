use v8js::bridge::{
    commonjs_module_source, exception_for_error, finish_require, loaded_module_source, php_call_result, php_callback,
    php_callback_exit, php_callback_require, php_callback_sleep, php_callback_var_dump,
    CallbackPlan, ExceptionClass, GlobalFunction, PhpException, PropertyInstall, RequirePlan,
    V8Js,
};
use v8js::runtime::{script_error_data, Error, JsRuntimeState};
use v8js::values::{JsBuild, JsValue, PhpKey, PhpValue};

fn s(text: &str) -> String {
    String::from(text)
}

#[test]
fn construct_default_global_name() {
    let v8js: V8Js<u32> = V8Js::__construct(None);
    assert_eq!(v8js.global_name, "PHP");
    assert_eq!(v8js.user_properties.len(), 0);
}

#[test]
fn construct_given_global_name() {
    let v8js: V8Js<u32> = V8Js::__construct(Some(s("myObj")));
    assert_eq!(v8js.global_name, "myObj");
}

#[test]
fn global_functions_in_order() {
    let functions = V8Js::<u32>::global_functions();
    let expected = vec![
        (s("var_dump"), GlobalFunction::VarDump),
        (s("print"), GlobalFunction::VarDump),
        (s("exit"), GlobalFunction::Exit),
        (s("sleep"), GlobalFunction::Sleep),
        (s("require"), GlobalFunction::Require),
    ];
    assert_eq!(functions, expected);
}

#[test]
fn set_then_get_property() {
    let mut v8js: V8Js<u32> = V8Js::__construct(None);
    let mut state: JsRuntimeState<u32, u32> = JsRuntimeState::new();
    let install = v8js.__set(&mut state, s("foo"), 7, &PhpValue::Long(7), false);
    assert_eq!(install, PropertyInstall::Value(JsBuild::Integer(7)));
    assert_eq!(v8js.__get(&s("foo")), Some(&7));
    assert_eq!(v8js.__get(&s("bar")), None);
    assert_eq!(state.callbacks.len(), 0);
    v8js.__set(&mut state, s("foo"), 8, &PhpValue::Long(8), false);
    assert_eq!(v8js.__get(&s("foo")), Some(&8));
}

#[test]
fn set_callable_property_registers_callback() {
    let mut v8js: V8Js<u32> = V8Js::__construct(None);
    let mut state: JsRuntimeState<u32, u32> = JsRuntimeState::new();
    let install = v8js.__set(&mut state, s("cb"), 3, &PhpValue::Other, true);
    assert_eq!(install, PropertyInstall::Callback { callback_name: s("cb") });
    assert_eq!(v8js.__get(&s("cb")), Some(&3));
    assert_eq!(state.callbacks.get(&s("cb")), Some(&3));
    match php_callback(&state, &s("cb"), &vec![JsValue::Bool(true), JsValue::Null], true) {
        CallbackPlan::Invoke { callback, args } => {
            assert_eq!(*callback, 3);
            assert_eq!(args, vec![PhpValue::Bool(true), PhpValue::Null]);
        },
        other => panic!("callback should be invoked, got {:?}", other),
    }
}

#[test]
fn unknown_callback_is_not_found() {
    let state: JsRuntimeState<u32, u32> = JsRuntimeState::new();
    let plan = php_callback(&state, &s("nope"), &vec![], true);
    assert_eq!(plan, CallbackPlan::NotFound);
}

#[test]
fn uncallable_callback_is_not_called() {
    let mut state: JsRuntimeState<u32, u32> = JsRuntimeState::new();
    state.add_callback(s("cb"), 4);
    let plan = php_callback(&state, &s("cb"), &vec![JsValue::Null], false);
    assert_eq!(plan, CallbackPlan::NotCallable);
}

#[test]
fn execute_string_value_and_null() {
    let ok = V8Js::<u32>::execute_string(Ok(Some(JsValue::Str(s("r")))));
    assert_eq!(ok, Ok(PhpValue::Str(s("r"))));
    let none = V8Js::<u32>::execute_string(Ok(None));
    assert_eq!(none, Ok(PhpValue::Null));
}

#[test]
fn execute_string_errors_map_to_exceptions() {
    let timeout = V8Js::<u32>::execute_string(Err(Error::ExecutionTimeout));
    assert_eq!(timeout, Err(PhpException { class: ExceptionClass::TimeLimit, message: s("") }));
    let memory = V8Js::<u32>::execute_string(Err(Error::MemoryLimitExceeded));
    assert_eq!(memory, Err(PhpException { class: ExceptionClass::MemoryLimit, message: s("") }));
    let data = script_error_data(s("Error: boom"), s("f.js"), 1, 0, 4, s("boom()"));
    let script = V8Js::<u32>::execute_string(Err(Error::ScriptExecutionError(data)));
    assert_eq!(script, Err(PhpException { class: ExceptionClass::Script, message: s("Error: boom") }));
    let unknown = exception_for_error(Error::JSRuntimeError);
    assert_eq!(unknown, PhpException { class: ExceptionClass::Base, message: s("Unknown error.") });
    let v8 = exception_for_error(Error::V8Error);
    assert_eq!(v8, PhpException { class: ExceptionClass::Base, message: s("Unknown error.") });
}

#[test]
fn exception_class_names() {
    assert_eq!(ExceptionClass::TimeLimit.class_name(), "V8JsTimeLimitException");
    assert_eq!(ExceptionClass::MemoryLimit.class_name(), "V8JsMemoryLimitException");
    assert_eq!(ExceptionClass::Script.class_name(), "V8JsScriptException");
    assert_eq!(ExceptionClass::Base.class_name(), "Exception");
}

#[test]
fn builtin_calls_take_the_first_argument() {
    let call = php_callback_sleep(&vec![JsValue::Number(1.0f64.to_bits()), JsValue::Null]);
    assert_eq!(call.function, "sleep");
    assert_eq!(call.args, vec![PhpValue::Double(1.0f64.to_bits())]);
    let call = php_callback_var_dump(&vec![]);
    assert_eq!(call.function, "var_dump");
    assert_eq!(call.args, vec![PhpValue::Null]);
}

#[test]
fn builtin_call_results() {
    assert_eq!(php_call_result(Ok(PhpValue::Long(0))), JsBuild::Integer(0));
    assert_eq!(php_call_result(Err(())), JsBuild::Null);
}

#[test]
fn exit_spins_unless_terminating() {
    assert_eq!(php_callback_exit(true), None);
    assert_eq!(php_callback_exit(false), Some(s("for(;;);")));
}

#[test]
fn require_plans() {
    let mut state: JsRuntimeState<u32, u64> = JsRuntimeState::new();
    assert_eq!(php_callback_require(&state, &s("m")), RequirePlan::NoLoader);
    V8Js::set_module_loader(&mut state, 11);
    assert_eq!(
        php_callback_require(&state, &s("m")),
        RequirePlan::Load { loader: &11, argument: s("m") }
    );
    state.cache_module(s("m"), 99);
    assert_eq!(php_callback_require(&state, &s("m")), RequirePlan::Cached(&99));
    assert_eq!(
        php_callback_require(&state, &s("other")),
        RequirePlan::Load { loader: &11, argument: s("other") }
    );
}

#[test]
fn failing_loader_gives_nothing() {
    assert_eq!(loaded_module_source(Err(())), None);
    assert_eq!(
        loaded_module_source(Ok(s("exports.name = 'foo-module';"))),
        Some(s("(function (exports, module) {exports.name = 'foo-module';\n});"))
    );
}

#[test]
fn finishing_require_caches_exports() {
    let mut state: JsRuntimeState<u32, u64> = JsRuntimeState::new();
    assert_eq!(finish_require(&mut state, s("foo"), None), None);
    assert_eq!(state.commonjs_modules.len(), 0);
    assert_eq!(finish_require(&mut state, s("foo"), Some(5)), Some(5));
    assert_eq!(php_callback_require(&state, &s("foo")), RequirePlan::Cached(&5));
}

#[test]
fn module_source_is_wrapped() {
    assert_eq!(
        commonjs_module_source(&s("module.exports = 1;")),
        "(function (exports, module) {module.exports = 1;\n});"
    );
}

#[test]
fn round_trip_through_php() {
    let js = JsValue::Array(vec![
        JsValue::Str(s("a")),
        JsValue::Number(2.5f64.to_bits()),
        JsValue::Undefined,
        JsValue::Object(vec![]),
    ]);
    let back = v8js::convert::js_value_from_zval(&v8js::convert::zval_from_jsvalue(&js));
    assert_eq!(
        back,
        JsBuild::Array(vec![
            JsBuild::Str(s("a")),
            JsBuild::Number(2.5f64.to_bits()),
            JsBuild::Null,
            JsBuild::Null,
        ])
    );
    let _ = PhpKey::Index(0);
}

#[test]
fn round_trip_from_php() {
    let php = PhpValue::Array(vec![
        (PhpKey::Index(0), PhpValue::Str(s("x"))),
        (PhpKey::Index(1), PhpValue::Bool(true)),
        (PhpKey::Index(2), PhpValue::Null),
    ]);
    let built = v8js::convert::js_value_from_zval(&php);
    // what the engine reads back for the created array
    let read = match built {
        JsBuild::Array(items) => JsValue::Array(
            items
                .into_iter()
                .map(|item| match item {
                    JsBuild::Str(text) => JsValue::Str(text),
                    JsBuild::Bool(b) => JsValue::Bool(b),
                    JsBuild::Null => JsValue::Null,
                    other => panic!("unexpected {:?}", other),
                })
                .collect(),
        ),
        other => panic!("unexpected {:?}", other),
    };
    assert_eq!(v8js::convert::zval_from_jsvalue(&read), php);
}
