//! The `V8Js` object that PHP code works with: its global name, its user
//! properties, the functions it installs in the JavaScript global scope, how
//! a script's result reaches PHP, and the JavaScript functions that call back
//! into PHP.
use vstd::prelude::*;
use crate::convert::{js_value_from_zval, zval_from_jsvalue};
use crate::runtime::{Error, JsRuntimeState};
use crate::table::NamedTable;
use crate::values::{JsBuild, JsData, JsValue, PhpData, PhpValue};

verus! {

/// The PHP exception classes that a failed script is reported with.
#[derive(Debug, Clone, Copy, PartialEq, Eq)]
pub enum ExceptionClass {
    TimeLimit,
    MemoryLimit,
    Script,
    Base,
}

impl ExceptionClass {
    pub open spec fn spec_class_name(self) -> Seq<char> {
        match self {
            ExceptionClass::TimeLimit => "V8JsTimeLimitException"@,
            ExceptionClass::MemoryLimit => "V8JsMemoryLimitException"@,
            ExceptionClass::Script => "V8JsScriptException"@,
            ExceptionClass::Base => "Exception"@,
        }
    }

    /// The PHP name of the class.
    pub fn class_name(&self) -> (name: String)
        ensures
            name@ == self.spec_class_name(),
    {
        match self {
            ExceptionClass::TimeLimit => String::from_str("V8JsTimeLimitException"),
            ExceptionClass::MemoryLimit => String::from_str("V8JsMemoryLimitException"),
            ExceptionClass::Script => String::from_str("V8JsScriptException"),
            ExceptionClass::Base => String::from_str("Exception"),
        }
    }
}

/// A PHP exception to throw: its class and its message.
#[derive(Debug, Clone, PartialEq, Eq)]
pub struct PhpException {
    pub class: ExceptionClass,
    pub message: String,
}

/// The exception class and message that a runtime error is reported with.
pub open spec fn exception_for(error: Error) -> (ExceptionClass, Seq<char>) {
    match error {
        Error::ExecutionTimeout => (ExceptionClass::TimeLimit, Seq::empty()),
        Error::MemoryLimitExceeded => (ExceptionClass::MemoryLimit, Seq::empty()),
        Error::ScriptExecutionError(data) => (ExceptionClass::Script, data.message@),
        _ => (ExceptionClass::Base, "Unknown error."@),
    }
}

/// The functions that every `V8Js` object installs in the JavaScript global
/// scope, each backed by a PHP function.
#[derive(Debug, Clone, Copy, PartialEq, Eq)]
pub enum GlobalFunction {
    VarDump,
    Exit,
    Sleep,
    Require,
}

/// The global name under which the PHP object is reachable when none is given.
pub open spec fn default_global_name() -> Seq<char> {
    "PHP"@
}

/// The names of the global functions, in installation order, with the PHP
/// function behind each.
pub open spec fn global_function_table() -> Seq<(Seq<char>, GlobalFunction)> {
    seq![
        ("var_dump"@, GlobalFunction::VarDump),
        ("print"@, GlobalFunction::VarDump),
        ("exit"@, GlobalFunction::Exit),
        ("sleep"@, GlobalFunction::Sleep),
        ("require"@, GlobalFunction::Require),
    ]
}

/// How a property set on the `V8Js` object appears in JavaScript.
#[derive(Debug, PartialEq, Eq)]
pub enum PropertyInstall {
    /// As a function that calls the PHP callback registered under the name.
    Callback { callback_name: String },
    /// As the given value.
    Value(JsBuild),
}

/// The bookkeeping of a `V8Js` object. `V` stands for a PHP value. The
/// callbacks and modules live in the state of the object's runtime, where
/// the JavaScript functions that call back into PHP find them.
pub struct V8Js<V> {
    /// The name of the global JavaScript object through which scripts reach
    /// the properties set from PHP.
    pub global_name: String,
    /// The properties set from PHP, as PHP sees them.
    pub user_properties: NamedTable<V>,
}

impl<V> V8Js<V> {
    /// A new object: its global name is the given one or `PHP`, and it has no
    /// properties yet.
    pub fn __construct(object_name: Option<String>) -> (v8js: Self)
        ensures
            v8js.global_name@ == match object_name {
                Some(name) => name@,
                None => default_global_name(),
            },
            v8js.user_properties@ == Map::<Seq<char>, V>::empty(),
    {
        let global_name = match object_name {
            Some(name) => name,
            None => String::from_str("PHP"),
        };
        V8Js { global_name, user_properties: NamedTable::new() }
    }

    /// The global functions to install, in order, with the PHP function
    /// behind each.
    pub fn global_functions() -> (functions: Vec<(String, GlobalFunction)>)
        ensures
            functions@.len() == global_function_table().len(),
            forall|i: int|
                0 <= i < functions@.len() ==> (#[trigger] functions@[i]).0@
                    == global_function_table()[i].0 && functions@[i].1
                    == global_function_table()[i].1,
    {
        let mut functions = Vec::new();
        functions.push((String::from_str("var_dump"), GlobalFunction::VarDump));
        functions.push((String::from_str("print"), GlobalFunction::VarDump));
        functions.push((String::from_str("exit"), GlobalFunction::Exit));
        functions.push((String::from_str("sleep"), GlobalFunction::Sleep));
        functions.push((String::from_str("require"), GlobalFunction::Require));
        functions
    }

    /// Sets the PHP callable that loads CommonJS modules by name, in the
    /// state of the object's runtime.
    pub fn set_module_loader<M>(state: &mut JsRuntimeState<V, M>, callable: V)
        ensures
            final(state).commonjs_module_loader == Some(callable),
            final(state).callbacks@ == old(state).callbacks@,
            final(state).commonjs_modules@ == old(state).commonjs_modules@,
    {
        state.set_module_loader(callable);
    }

    /// Sets a property from PHP. The value is kept as the property's PHP
    /// value; a callable value is also registered as a callback under the
    /// property's name and appears in JavaScript as a function calling it,
    /// any other value appears as its JavaScript conversion. `model` is the
    /// value as the bridge reads it, `callable` whether PHP can call it;
    /// `state` is the state of the object's runtime.
    pub fn __set<M>(
        &mut self,
        state: &mut JsRuntimeState<V, M>,
        property: String,
        value: V,
        model: &PhpValue,
        callable: bool,
    ) -> (install: PropertyInstall) where V: Clone
        ensures
            final(self).user_properties@ == old(self).user_properties@.insert(property@, value),
            callable ==> {
                &&& final(state).callbacks@.dom() == old(state).callbacks@.dom().insert(property@)
                &&& cloned(value, final(state).callbacks@[property@])
                &&& forall|name: Seq<char>|
                    name != property@ && #[trigger] old(state).callbacks@.contains_key(name) ==> final(state).callbacks@[name] == old(state).callbacks@[name]
                &&& (install matches PropertyInstall::Callback { callback_name } && callback_name@
                    == property@)
            },
            !callable ==> {
                &&& final(state).callbacks@ == old(state).callbacks@
                &&& (install matches PropertyInstall::Value(js) && js@ == crate::convert::js_of_php(model@))
            },
            final(state).commonjs_module_loader == old(state).commonjs_module_loader,
            final(state).commonjs_modules@ == old(state).commonjs_modules@,
            final(self).global_name == old(self).global_name,
    {
        let install = if callable {
            let callback = value.clone();
            let callback_name = property.clone();
            state.add_callback(property.clone(), callback);
            PropertyInstall::Callback { callback_name }
        } else {
            PropertyInstall::Value(js_value_from_zval(model))
        };
        self.user_properties.insert(property, value);
        install
    }

    /// The PHP value of a property set earlier, if there is one.
    pub fn __get(&self, property: &String) -> (value: Option<&V>)
        ensures
            match value {
                Some(v) => self.user_properties@.contains_key(property@) && *v
                    == self.user_properties@[property@],
                None => !self.user_properties@.contains_key(property@),
            },
    {
        self.user_properties.get(property)
    }

    /// What PHP receives for a script run: the script's value converted to
    /// PHP, `null` when it produced none, or the exception for its error.
    pub fn execute_string(result: Result<Option<JsValue>, Error>) -> (outcome: Result<
        PhpValue,
        PhpException,
    >)
        ensures
            match result {
                Ok(Some(v)) => outcome matches Ok(z) && z@ == crate::convert::php_of_js(v@),
                Ok(None) => outcome matches Ok(z) && z@ == PhpData::Null,
                Err(e) => outcome matches Err(ex) && ex.class == exception_for(e).0
                    && ex.message@ == exception_for(e).1,
            },
    {
        match result {
            Ok(Some(value)) => Ok(zval_from_jsvalue(&value)),
            Ok(None) => Ok(PhpValue::Null),
            Err(error) => Err(exception_for_error(error)),
        }
    }
}

/// The exception that a runtime error is reported with.
pub fn exception_for_error(error: Error) -> (ex: PhpException)
    ensures
        ex.class == exception_for(error).0,
        ex.message@ == exception_for(error).1,
{
    match error {
        Error::ExecutionTimeout => PhpException {
            class: ExceptionClass::TimeLimit,
            message: String::new(),
        },
        Error::MemoryLimitExceeded => PhpException {
            class: ExceptionClass::MemoryLimit,
            message: String::new(),
        },
        Error::ScriptExecutionError(data) => PhpException {
            class: ExceptionClass::Script,
            message: data.message,
        },
        Error::JSRuntimeError => PhpException {
            class: ExceptionClass::Base,
            message: String::from_str("Unknown error."),
        },
        Error::V8Error => PhpException {
            class: ExceptionClass::Base,
            message: String::from_str("Unknown error."),
        },
    }
}

/// A call of a PHP function by name with the given arguments.
#[derive(Debug, PartialEq, Eq)]
pub struct PhpCall {
    pub function: String,
    pub args: Vec<PhpValue>,
}

/// The first argument of a JavaScript call: `undefined` when there is none.
pub open spec fn first_argument(args: Seq<JsValue>) -> JsData {
    if args.len() > 0 {
        args[0]@
    } else {
        JsData::Undefined
    }
}

fn call_with_first_argument(function: String, args: &Vec<JsValue>) -> (call: PhpCall)
    ensures
        call.function == function,
        call.args@.len() == 1,
        call.args@[0]@ == crate::convert::php_of_js(first_argument(args@)),
{
    let first = if args.len() > 0 {
        zval_from_jsvalue(&args[0])
    } else {
        zval_from_jsvalue(&JsValue::Undefined)
    };
    let mut call_args = Vec::new();
    call_args.push(first);
    PhpCall { function, args: call_args }
}

/// The PHP call behind the JavaScript `sleep` function: PHP's `sleep` with
/// the first argument.
pub fn php_callback_sleep(args: &Vec<JsValue>) -> (call: PhpCall)
    ensures
        call.function@ == "sleep"@,
        call.args@.len() == 1,
        call.args@[0]@ == crate::convert::php_of_js(first_argument(args@)),
{
    call_with_first_argument(String::from_str("sleep"), args)
}

/// The PHP call behind the JavaScript `var_dump` and `print` functions:
/// PHP's `var_dump` with the first argument.
pub fn php_callback_var_dump(args: &Vec<JsValue>) -> (call: PhpCall)
    ensures
        call.function@ == "var_dump"@,
        call.args@.len() == 1,
        call.args@[0]@ == crate::convert::php_of_js(first_argument(args@)),
{
    call_with_first_argument(String::from_str("var_dump"), args)
}

/// What a JavaScript function backed by a PHP function returns: the PHP
/// result converted, or `null` when the PHP call failed.
pub fn php_call_result(result: Result<PhpValue, ()>) -> (js: JsBuild)
    ensures
        js@ == match result {
            Ok(z) => crate::convert::js_of_php(z@),
            Err(_) => crate::convert::js_of_php(PhpData::Null),
        },
{
    match result {
        Ok(zval) => js_value_from_zval(&zval),
        Err(_) => js_value_from_zval(&PhpValue::Null),
    }
}

/// The JavaScript source that the `exit` function runs after asking the
/// engine to terminate, so that the script spins until termination lands.
pub open spec fn exit_spin_source() -> Seq<char> {
    "for(;;);"@
}

/// What the JavaScript `exit` function does: nothing when the script is
/// already terminating, otherwise terminate and run the returned source.
pub fn php_callback_exit(terminating: bool) -> (spin: Option<String>)
    ensures
        terminating ==> spin is None,
        !terminating ==> (spin matches Some(s) && s@ == exit_spin_source()),
{
    if terminating {
        None
    } else {
        Some(String::from_str("for(;;);"))
    }
}

/// What a JavaScript call of a user callback does.
#[derive(Debug, PartialEq, Eq)]
pub enum CallbackPlan<'a, C> {
    /// No callback is registered under the name: nothing is called.
    NotFound,
    /// The value registered under the name cannot be called: nothing is
    /// called.
    NotCallable,
    /// Call the callback with the converted arguments.
    Invoke { callback: &'a C, args: Vec<PhpValue> },
}

/// Plans a JavaScript call of the PHP callback registered under a name;
/// `callable` is whether PHP can call the value registered under it.
pub fn php_callback<'a, C, M>(
    state: &'a JsRuntimeState<C, M>,
    callback_name: &String,
    args: &Vec<JsValue>,
    callable: bool,
) -> (plan: CallbackPlan<'a, C>)
    ensures
        match plan {
            CallbackPlan::NotFound => !state.callbacks@.contains_key(callback_name@),
            CallbackPlan::NotCallable => state.callbacks@.contains_key(callback_name@) && !callable,
            CallbackPlan::Invoke { callback, args: php_args } => {
                &&& state.callbacks@.contains_key(callback_name@)
                &&& callable
                &&& *callback == state.callbacks@[callback_name@]
                &&& php_args@.len() == args@.len()
                &&& forall|i: int|
                    0 <= i < args@.len() ==> (#[trigger] php_args@[i])@ == crate::convert::php_of_js(args@[i]@)
            },
        },
{
    match state.callbacks.get(callback_name) {
        None => CallbackPlan::NotFound,
        Some(_) if !callable => CallbackPlan::NotCallable,
        Some(callback) => {
            let mut php_args: Vec<PhpValue> = Vec::new();
            let mut index: usize = 0;
            while index < args.len()
                invariant
                    index <= args@.len(),
                    php_args@.len() == index,
                    forall|i: int|
                        0 <= i < index ==> (#[trigger] php_args@[i])@ == crate::convert::php_of_js(args@[i]@),
                decreases args@.len() - index,
            {
                php_args.push(zval_from_jsvalue(&args[index]));
                index = index + 1;
            }
            CallbackPlan::Invoke { callback, args: php_args }
        },
    }
}

/// What a JavaScript `require` of a CommonJS module does.
#[derive(Debug, PartialEq, Eq)]
pub enum RequirePlan<'a, C, M> {
    /// The module was loaded before: return it.
    Cached(&'a M),
    /// There is no module loader: return nothing.
    NoLoader,
    /// Call the loader with the single argument `argument`, then run the
    /// source it gives and cache the module.
    Load { loader: &'a C, argument: String },
}

/// The ways a `require` of a module can go.
pub enum RequireCase {
    Cached,
    NoLoader,
    Load,
}

/// Which way a `require` of the named module goes.
pub open spec fn require_case<C, M>(state: JsRuntimeState<C, M>, module_name: Seq<char>) -> RequireCase {
    if state.commonjs_modules@.contains_key(module_name) {
        RequireCase::Cached
    } else if state.commonjs_module_loader is None {
        RequireCase::NoLoader
    } else {
        RequireCase::Load
    }
}

/// Plans a JavaScript `require` of the named module.
pub fn php_callback_require<'a, C, M>(state: &'a JsRuntimeState<C, M>, module_name: &String) -> (plan:
    RequirePlan<'a, C, M>)
    ensures
        match plan {
            RequirePlan::Cached(module) => require_case(*state, module_name@) is Cached && *module
                == state.commonjs_modules@[module_name@],
            RequirePlan::NoLoader => require_case(*state, module_name@) is NoLoader,
            RequirePlan::Load { loader, argument } => require_case(*state, module_name@) is Load
                && state.commonjs_module_loader == Some(*loader) && argument@ == module_name@,
        },
{
    match state.commonjs_modules.get(module_name) {
        Some(module) => RequirePlan::Cached(module),
        None => match &state.commonjs_module_loader {
            None => RequirePlan::NoLoader,
            Some(loader) => RequirePlan::Load { loader, argument: module_name.clone() },
        },
    }
}

/// The script to run for a module, from what the loader's call gave: the
/// wrapped source when the call gave the module's source, and nothing, so
/// that nothing is compiled, run or cached, when the call failed.
pub fn loaded_module_source(loader_result: Result<String, ()>) -> (source: Option<String>)
    ensures
        match loader_result {
            Ok(code) => source matches Some(s) && s@ == module_prefix() + code@ + module_suffix(),
            Err(_) => source is None,
        },
{
    match loader_result {
        Ok(code) => Some(commonjs_module_source(&code)),
        Err(_) => None,
    }
}

/// Ends a `require` of a loaded module with the module's exports, if the
/// module left any: they are cached under the module's name and returned.
/// Without exports nothing is cached and nothing is returned.
pub fn finish_require<C, M: Clone>(
    state: &mut JsRuntimeState<C, M>,
    module_name: String,
    exports: Option<M>,
) -> (module: Option<M>)
    ensures
        match exports {
            Some(m) => {
                &&& final(state).commonjs_modules@ == old(state).commonjs_modules@.insert(module_name@, m)
                &&& module matches Some(r) && cloned(m, r)
            },
            None => final(state).commonjs_modules@ == old(state).commonjs_modules@ && module is None,
        },
        final(state).callbacks@ == old(state).callbacks@,
        final(state).commonjs_module_loader == old(state).commonjs_module_loader,
{
    match exports {
        Some(m) => {
            let returned = m.clone();
            state.cache_module(module_name, m);
            Some(returned)
        },
        None => None,
    }
}

/// The text that opens the wrapper around a module's source.
pub open spec fn module_prefix() -> Seq<char> {
    "(function (exports, module) {"@
}

/// The text that closes the wrapper around a module's source.
pub open spec fn module_suffix() -> Seq<char> {
    "\n});"@
}

/// The script that evaluates to a module's function: the module's source
/// wrapped in a function of `exports` and `module`.
pub fn commonjs_module_source(module_code: &String) -> (source: String)
    ensures
        source@ == module_prefix() + module_code@ + module_suffix(),
{
    let mut source = String::from_str("(function (exports, module) {");
    source.append(module_code.as_str());
    source.append("\n});");
    source
}

} // verus!
