//! The bridge's rules, each stated over all inputs: what a run amounts to,
//! when the monitor ends a script, how values map between PHP and
//! JavaScript, where a `require` goes, and how errors reach PHP.
use vstd::prelude::*;
use crate::bridge::{ExceptionClass, GlobalFunction, RequireCase};
use crate::runtime::{Error, JsRuntimeState, MonitorAction, MonitorLimits, MonitorObservation, RunOutcome};
use crate::values::{JsBuild, JsBuildData, JsData, JsValue, PhpData, PhpKey, PhpKeyData, PhpValue};

verus! {

// ---------------------------------------------------------------------------
// Runs under limits
// ---------------------------------------------------------------------------

/// A run that produced a value gives that value, whichever limits were
/// recorded as hit.
pub proof fn law_run_value_is_returned<V>(v: V, time_limit_hit: bool, memory_limit_hit: bool)
    ensures
        crate::runtime::outcome_of(Some(v), time_limit_hit, memory_limit_hit)
            == RunOutcome::Completed(v),
{
}

/// A run without a value whose time limit was hit is a timeout, whether or
/// not the memory limit was also hit.
pub proof fn law_run_time_limit_is_timeout<V>(memory_limit_hit: bool)
    ensures
        crate::runtime::outcome_of(None::<V>, true, memory_limit_hit) == RunOutcome::<V>::Failed(
            Error::ExecutionTimeout,
        ),
{
}

/// A run without a value whose memory limit, and not its time limit, was hit
/// exceeded its memory.
pub proof fn law_run_memory_limit_is_memory_error<V>()
    ensures
        crate::runtime::outcome_of(None::<V>, false, true) == RunOutcome::<V>::Failed(
            Error::MemoryLimitExceeded,
        ),
{
}

/// A run without a value and without any limit hit is reported through the
/// script's exception.
pub proof fn law_run_without_value_or_limit_threw<V>()
    ensures
        crate::runtime::outcome_of(None::<V>, false, false) == RunOutcome::<V>::Threw,
{
}

/// A run is reported as failed only when it produced no value and a limit
/// was hit; the failure is one of the two limit errors.
pub proof fn law_run_failure_needs_a_hit_limit<V>(
    result: Option<V>,
    time_limit_hit: bool,
    memory_limit_hit: bool,
)
    ensures
        crate::runtime::outcome_of(result, time_limit_hit, memory_limit_hit) is Failed ==> {
            &&& result is None
            &&& time_limit_hit || memory_limit_hit
            &&& crate::runtime::outcome_of(result, time_limit_hit, memory_limit_hit)->Failed_0
                == Error::ExecutionTimeout || crate::runtime::outcome_of(
                result,
                time_limit_hit,
                memory_limit_hit,
            )->Failed_0 == Error::MemoryLimitExceeded
        },
{
}

// ---------------------------------------------------------------------------
// The monitor
// ---------------------------------------------------------------------------

/// A monitor asked to stop stops, whatever it sees.
pub proof fn law_monitor_stops_when_asked(limits: MonitorLimits, obs: MonitorObservation)
    requires
        obs.stop_requested,
    ensures
        crate::runtime::monitor_decision(limits, obs) == MonitorAction::Finish,
{
}

/// A set time limit that has run out, in nanoseconds, ends a script the
/// engine is not already terminating, whatever the memory limit.
pub proof fn law_monitor_enforces_time_limit(limits: MonitorLimits, obs: MonitorObservation)
    requires
        !obs.stop_requested,
        !obs.terminating,
        limits.time_limit_ms > 0,
        obs.elapsed_nanos > limits.time_limit_ms * 1_000_000,
    ensures
        crate::runtime::monitor_decision(limits, obs) == MonitorAction::TerminateForTime,
{
}

/// A set memory limit whose heap was found above it ends the script, for
/// every time limit, unless the time limit ends it first.
pub proof fn law_monitor_enforces_memory_limit(limits: MonitorLimits, obs: MonitorObservation)
    requires
        !obs.stop_requested,
        limits.time_limit_ms == 0 || obs.elapsed_nanos <= limits.time_limit_ms * 1_000_000
            || obs.terminating,
        limits.memory_limit_bytes > 0,
        obs.memory_limit_flagged,
    ensures
        crate::runtime::monitor_decision(limits, obs) == MonitorAction::TerminateForMemory,
{
}

/// Otherwise the monitor waits, asking for a heap check exactly when a
/// memory limit is set.
pub proof fn law_monitor_waits_otherwise(limits: MonitorLimits, obs: MonitorObservation)
    requires
        !obs.stop_requested,
        limits.time_limit_ms == 0 || obs.elapsed_nanos <= limits.time_limit_ms * 1_000_000
            || obs.terminating,
        limits.memory_limit_bytes == 0 || !obs.memory_limit_flagged,
    ensures
        crate::runtime::monitor_decision(limits, obs) == (MonitorAction::Wait {
            check_memory: limits.memory_limit_bytes > 0,
        }),
{
}

/// The monitor ends a script only for a limit that is set and hit.
pub proof fn law_monitor_ends_only_for_hit_limits(limits: MonitorLimits, obs: MonitorObservation)
    ensures
        crate::runtime::monitor_decision(limits, obs) is TerminateForTime ==> !obs.stop_requested,
        crate::runtime::monitor_decision(limits, obs) is TerminateForTime ==> !obs.terminating,
        crate::runtime::monitor_decision(limits, obs) is TerminateForTime ==> limits.time_limit_ms
            > 0,
        crate::runtime::monitor_decision(limits, obs) is TerminateForTime ==> obs.elapsed_nanos
            > limits.time_limit_ms * 1_000_000,
        crate::runtime::monitor_decision(limits, obs) is TerminateForMemory ==> !obs.stop_requested,
        crate::runtime::monitor_decision(limits, obs) is TerminateForMemory
            ==> limits.memory_limit_bytes > 0,
        crate::runtime::monitor_decision(limits, obs) is TerminateForMemory
            ==> obs.memory_limit_flagged,
{
}

// ---------------------------------------------------------------------------
// JavaScript to PHP
// ---------------------------------------------------------------------------

/// Strings, booleans, numbers and the other scalar values map as the table
/// says: a string to the same string, a boolean to the same boolean, a
/// number to the float with the same bits, `null` and `undefined` to `null`,
/// a function to the string `Function`, any other value to its text.
pub proof fn law_js_scalars(s: Seq<char>, b: bool, bits: u64)
    ensures
        crate::convert::php_of_js(JsData::Str(s)) == PhpData::Str(s),
        crate::convert::php_of_js(JsData::Bool(b)) == PhpData::Bool(b),
        crate::convert::php_of_js(JsData::Number(bits)) == PhpData::Double(bits),
        crate::convert::php_of_js(JsData::Null) == PhpData::Null,
        crate::convert::php_of_js(JsData::Undefined) == PhpData::Null,
        crate::convert::php_of_js(JsData::Function) == PhpData::Str("Function"@),
        crate::convert::php_of_js(JsData::Other(s)) == PhpData::Str(s),
{
}

/// A JavaScript array becomes a PHP array with one entry per element, keyed
/// 0, 1, ... in order, each element converted on its own.
pub proof fn law_js_array(items: Seq<JsData>)
    ensures
        crate::convert::php_of_js(JsData::Array(items)) is Array,
        crate::convert::php_of_js(JsData::Array(items))->Array_0.len() == items.len(),
        forall|i: int|
            0 <= i < items.len() ==> crate::convert::php_of_js(JsData::Array(items))->Array_0[i]
                == (PhpKeyData::Index(i as u64), crate::convert::php_of_js(#[trigger] items[i])),
{
}

/// A JavaScript object becomes a `V8Object` with one property per own
/// property, in order: the i-th has the i-th name and, as value, the
/// conversion of the property's value on its own; a number property becomes
/// the float with the same bits.
pub proof fn law_js_object(props: Seq<(Seq<char>, JsData)>)
    ensures
        crate::convert::php_of_js(JsData::Object(props)) is Object,
        crate::convert::php_of_js(JsData::Object(props))->Object_0.len() == props.len(),
        forall|i: int|
            0 <= i < props.len() ==> crate::convert::php_of_js(JsData::Object(props))->Object_0[i]
                == ((#[trigger] props[i]).0, crate::convert::php_of_js(props[i].1)),
        forall|i: int, bits: u64|
            0 <= i < props.len() && props[i].1 == JsData::Number(bits) ==> crate::convert::php_of_js(
                JsData::Object(props),
            )->Object_0[i].1 == PhpData::Double(bits),
{
    assert forall|i: int, bits: u64|
        0 <= i < props.len() && props[i].1 == JsData::Number(bits) implies crate::convert::php_of_js(
        JsData::Object(props),
    )->Object_0[i].1 == PhpData::Double(bits) by {
        assert(crate::convert::php_of_js(props[i].1) == PhpData::Double(bits));
    }
}

// ---------------------------------------------------------------------------
// PHP to JavaScript
// ---------------------------------------------------------------------------

/// PHP scalars map as the table says: every integer to the number for that
/// integer, a float to the number with the same bits, a string or boolean to
/// the same, `null` to `null`; objects and other values to `null`.
pub proof fn law_php_scalars(n: i64, bits: u64, s: Seq<char>, b: bool, props: Seq<(Seq<char>, PhpData)>)
    ensures
        crate::convert::js_of_php(PhpData::Long(n)) == JsBuildData::Integer(n),
        crate::convert::js_of_php(PhpData::Double(bits)) == JsBuildData::Number(bits),
        crate::convert::js_of_php(PhpData::Str(s)) == JsBuildData::Str(s),
        crate::convert::js_of_php(PhpData::Bool(b)) == JsBuildData::Bool(b),
        crate::convert::js_of_php(PhpData::Null) == JsBuildData::Null,
        crate::convert::js_of_php(PhpData::Object(props)) == JsBuildData::Null,
        crate::convert::js_of_php(PhpData::Other) == JsBuildData::Null,
{
}

/// The value of a decimal digit character.
pub open spec fn digit_value(c: char) -> int {
    c as int - '0' as int
}

/// The number that a text of decimal digits stands for.
pub open spec fn digits_value(s: Seq<char>) -> int
    decreases s.len(),
{
    if s.len() == 0 {
        0
    } else {
        digits_value(s.drop_last()) * 10 + digit_value(s.last())
    }
}

proof fn lemma_digit_char_value(d: nat)
    requires
        d < 10,
    ensures
        digit_value(crate::convert::digit_char(d)) == d,
        '0' <= crate::convert::digit_char(d) <= '9',
{
    assert('0' as int == 48);
    assert('1' as int == 49);
    assert('2' as int == 50);
    assert('3' as int == 51);
    assert('4' as int == 52);
    assert('5' as int == 53);
    assert('6' as int == 54);
    assert('7' as int == 55);
    assert('8' as int == 56);
    assert('9' as int == 57);
}

/// The name of an integer key is its usual decimal text: digits only, no
/// leading zero, standing for the key's value.
pub proof fn law_decimal_is_the_number(n: nat)
    ensures
        digits_value(crate::convert::decimal(n)) == n,
        crate::convert::decimal(n).len() >= 1,
        forall|i: int|
            0 <= i < crate::convert::decimal(n).len() ==> '0' <= #[trigger] crate::convert::decimal(
                n,
            )[i] <= '9',
        n > 0 ==> crate::convert::decimal(n)[0] != '0',
    decreases n,
{
    let d = crate::convert::decimal(n);
    lemma_digit_char_value(n % 10);
    if n >= 10 {
        law_decimal_is_the_number(n / 10);
        let p = crate::convert::decimal(n / 10);
        assert(d == p + seq![crate::convert::digit_char(n % 10)]);
        assert(d.drop_last() =~= p);
        assert(d.last() == crate::convert::digit_char(n % 10));
        assert(digits_value(d) == digits_value(p) * 10 + (n % 10) as int);
        assert forall|i: int| 0 <= i < d.len() implies '0' <= #[trigger] d[i] <= '9' by {
            if i < p.len() {
                assert(d[i] == p[i]);
            }
        }
        assert(d[0] == p[0]);
    } else {
        assert(d.drop_last().len() == 0);
        assert(digits_value(d.drop_last()) == 0);
        if n > 0 {
            assert(d[0] == crate::convert::digit_char(n));
            assert(digit_value(d[0]) == n);
        }
    }
}

/// A key's property name: the decimal text of an integer key, and the key
/// itself for a string key.
pub proof fn law_key_names(n: u64, s: Seq<char>)
    ensures
        crate::convert::key_text(PhpKeyData::Index(n)) == crate::convert::decimal(n as nat),
        crate::convert::key_text(PhpKeyData::Name(s)) == s,
{
}

// ---------------------------------------------------------------------------
// Require
// ---------------------------------------------------------------------------

/// A `require` of a cached module returns the cached module; of a module not
/// cached, goes to the loader with that name when a loader is set, and gives
/// nothing only when no loader is set.
pub proof fn law_require_cases<C, M>(state: JsRuntimeState<C, M>, module_name: Seq<char>)
    ensures
        state.commonjs_modules@.contains_key(module_name) ==> crate::bridge::require_case(
            state,
            module_name,
        ) is Cached,
        !state.commonjs_modules@.contains_key(module_name) && state.commonjs_module_loader is Some
            ==> crate::bridge::require_case(state, module_name) is Load,
        crate::bridge::require_case(state, module_name) is NoLoader ==> state.commonjs_module_loader
            is None && !state.commonjs_modules@.contains_key(module_name),
{
}

// ---------------------------------------------------------------------------
// Errors in PHP, names and defaults
// ---------------------------------------------------------------------------

/// A timeout throws `V8JsTimeLimitException`, a memory overrun
/// `V8JsMemoryLimitException`, both with an empty message; a script
/// exception throws `V8JsScriptException` with the exception's text; any
/// other error a plain `Exception` with the message `Unknown error.`.
pub proof fn law_errors_to_exceptions(data: crate::runtime::ScriptExecutionErrorData)
    ensures
        crate::bridge::exception_for(Error::ExecutionTimeout) == (
            ExceptionClass::TimeLimit,
            Seq::<char>::empty(),
        ),
        crate::bridge::exception_for(Error::MemoryLimitExceeded) == (
            ExceptionClass::MemoryLimit,
            Seq::<char>::empty(),
        ),
        crate::bridge::exception_for(Error::ScriptExecutionError(data)) == (
            ExceptionClass::Script,
            data.message@,
        ),
        crate::bridge::exception_for(Error::JSRuntimeError) == (
            ExceptionClass::Base,
            "Unknown error."@,
        ),
        crate::bridge::exception_for(Error::V8Error) == (ExceptionClass::Base, "Unknown error."@),
        ExceptionClass::TimeLimit.spec_class_name() == "V8JsTimeLimitException"@,
        ExceptionClass::MemoryLimit.spec_class_name() == "V8JsMemoryLimitException"@,
        ExceptionClass::Script.spec_class_name() == "V8JsScriptException"@,
        ExceptionClass::Base.spec_class_name() == "Exception"@,
{
}

/// The defaults: the global object is `PHP`, a script without identifier
/// runs as `V8Js::executeString`, `var_dump` and `print` both call PHP's
/// `var_dump`, `exit`, `sleep` and `require` are installed too, and a module
/// runs as a function of `exports` and `module`.
pub proof fn law_defaults()
    ensures
        crate::bridge::default_global_name() == "PHP"@,
        crate::runtime::default_resource_name() == "V8Js::executeString"@,
        crate::bridge::global_function_table() == seq![
            ("var_dump"@, GlobalFunction::VarDump),
            ("print"@, GlobalFunction::VarDump),
            ("exit"@, GlobalFunction::Exit),
            ("sleep"@, GlobalFunction::Sleep),
            ("require"@, GlobalFunction::Require),
        ],
        crate::bridge::module_prefix() == "(function (exports, module) {"@,
        crate::bridge::module_suffix() == "\n});"@,
        crate::bridge::exit_spin_source() == "for(;;);"@,
{
}

/// A JavaScript function backed by a PHP function receives the call's first
/// argument, or `undefined` when the call has none.
pub proof fn law_first_argument(args: Seq<JsValue>)
    ensures
        args.len() == 0 ==> crate::bridge::first_argument(args) == JsData::Undefined,
        args.len() > 0 ==> crate::bridge::first_argument(args) == args[0]@,
{
}

// ---------------------------------------------------------------------------
// Views
// ---------------------------------------------------------------------------

/// The views keep every scalar as it is, and view arrays and objects element
/// by element, in order.
pub proof fn law_views(js: JsValue, php: PhpValue, built: JsBuild, key: PhpKey)
    ensures
        js matches JsValue::Str(s) ==> js@ == JsData::Str(s@),
        js matches JsValue::Number(bits) ==> js@ == JsData::Number(bits),
        js matches JsValue::Bool(b) ==> js@ == JsData::Bool(b),
        js matches JsValue::Other(s) ==> js@ == JsData::Other(s@),
        js is Null ==> js@ == JsData::Null,
        js is Undefined ==> js@ == JsData::Undefined,
        js is Function ==> js@ == JsData::Function,
        js matches JsValue::Array(items) ==> (js@ is Array && js@->Array_0.len() == items@.len()
            && forall|i: int| 0 <= i < items@.len() ==> js@->Array_0[i] == (#[trigger] items@[i])@),
        js matches JsValue::Object(props) ==> (js@ is Object && js@->Object_0.len()
            == props@.len() && forall|i: int|
            0 <= i < props@.len() ==> js@->Object_0[i] == ((#[trigger] props@[i]).0@, props@[i].1@)),
        php matches PhpValue::Str(s) ==> php@ == PhpData::Str(s@),
        php matches PhpValue::Long(n) ==> php@ == PhpData::Long(n),
        php matches PhpValue::Double(bits) ==> php@ == PhpData::Double(bits),
        php matches PhpValue::Bool(b) ==> php@ == PhpData::Bool(b),
        php is Null ==> php@ == PhpData::Null,
        php is Other ==> php@ == PhpData::Other,
        php matches PhpValue::Array(entries) ==> (php@ is Array && php@->Array_0.len()
            == entries@.len() && forall|i: int|
            0 <= i < entries@.len() ==> php@->Array_0[i] == (
                (#[trigger] entries@[i]).0@,
                entries@[i].1@,
            )),
        php matches PhpValue::Object(props) ==> (php@ is Object && php@->Object_0.len()
            == props@.len() && forall|i: int|
            0 <= i < props@.len() ==> php@->Object_0[i] == ((#[trigger] props@[i]).0@, props@[i].1@)),
        key matches PhpKey::Index(n) ==> key@ == PhpKeyData::Index(n),
        key matches PhpKey::Name(s) ==> key@ == PhpKeyData::Name(s@),
        built matches JsBuild::Str(s) ==> built@ == JsBuildData::Str(s@),
        built matches JsBuild::Integer(n) ==> built@ == JsBuildData::Integer(n),
        built matches JsBuild::Number(bits) ==> built@ == JsBuildData::Number(bits),
        built matches JsBuild::Bool(b) ==> built@ == JsBuildData::Bool(b),
        built is Null ==> built@ == JsBuildData::Null,
        built matches JsBuild::Array(items) ==> (built@ is Array && built@->Array_0.len()
            == items@.len() && forall|i: int|
            0 <= i < items@.len() ==> built@->Array_0[i] == (#[trigger] items@[i])@),
        built matches JsBuild::Object(props) ==> (built@ is Object && built@->Object_0.len()
            == props@.len() && forall|i: int|
            0 <= i < props@.len() ==> built@->Object_0[i] == (
                (#[trigger] props@[i]).0@,
                props@[i].1@,
            )),
{
}

} // verus!
