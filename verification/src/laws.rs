//! Properties of the bridge that relate several of its operations.
use vstd::prelude::*;
use crate::bridge::V8Js;
use crate::runtime::{JsRuntimeState, MonitorAction, MonitorLimits, MonitorObservation, RunOutcome};
use crate::values::{JsBuildData, JsData, PhpData, PhpKeyData};

verus! {

/// What JavaScript gets back for a value that went to PHP and returned.
pub open spec fn returned_to_js(v: JsData) -> JsBuildData
    decreases v,
{
    match v {
        JsData::Undefined => JsBuildData::Null,
        JsData::Null => JsBuildData::Null,
        JsData::Bool(b) => JsBuildData::Bool(b),
        JsData::Number(bits) => JsBuildData::Number(bits),
        JsData::Str(s) => JsBuildData::Str(s),
        JsData::Array(items) => JsBuildData::Array(
            Seq::new(
                items.len(),
                |i: int|
                    if 0 <= i < items.len() {
                        returned_to_js(items[i])
                    } else {
                        JsBuildData::Null
                    },
            ),
        ),
        JsData::Function => JsBuildData::Str("Function"@),
        JsData::Object(_) => JsBuildData::Null,
        JsData::Other(text) => JsBuildData::Str(text),
    }
}

/// A JavaScript value that goes to PHP and comes back keeps its strings,
/// booleans, numbers and arrays (element by element, in order); `undefined`
/// and objects come back as `null`, functions and other values as their text.
pub proof fn law_round_trip_from_js(v: JsData)
    ensures
        crate::convert::js_of_php(crate::convert::php_of_js(v)) == returned_to_js(v),
    decreases v,
{
    match v {
        JsData::Array(items) => {
            let php = crate::convert::php_of_js(v);
            let entries = php->Array_0;
            assert(!crate::convert::has_string_key(entries)) by {
                assert forall|i: int| 0 <= i < entries.len() implies !(entries[i].0 is Name) by {}
            }
            let back = crate::convert::js_of_php(php);
            let expected = returned_to_js(v);
            assert forall|i: int| 0 <= i < items.len() implies back->Array_0[i]
                == expected->Array_0[i] by {
                assert(decreases_to!(v => items));
                law_round_trip_from_js(items[i]);
            }
            assert(back->Array_0 =~= expected->Array_0);
        },
        _ => {},
    }
}

/// Every JavaScript number becomes a PHP float: no JavaScript value becomes
/// a PHP integer or a value of another kind.
pub proof fn law_js_numbers_become_floats(v: JsData)
    ensures
        !(crate::convert::php_of_js(v) is Long),
        !(crate::convert::php_of_js(v) is Other),
        v is Number ==> crate::convert::php_of_js(v) == PhpData::Double(v->Number_0),
{
}

/// A PHP array whose keys are all integers becomes a JavaScript array with
/// one element per entry, in order, and its keys are dropped.
pub proof fn law_integer_keyed_array_becomes_array(entries: Seq<(PhpKeyData, PhpData)>)
    requires
        forall|i: int| 0 <= i < entries.len() ==> (#[trigger] entries[i]).0 is Index,
    ensures
        crate::convert::js_of_php(PhpData::Array(entries)) is Array,
        crate::convert::js_of_php(PhpData::Array(entries))->Array_0.len() == entries.len(),
        forall|i: int|
            0 <= i < entries.len() ==> crate::convert::js_of_php(PhpData::Array(entries))->Array_0[i]
                == crate::convert::js_of_php(#[trigger] entries[i].1),
{
}

/// A PHP array with a string key becomes a JavaScript object with one
/// property per entry, in order, named by the key (integer keys in decimal).
pub proof fn law_string_keyed_array_becomes_object(
    entries: Seq<(PhpKeyData, PhpData)>,
    k: int,
)
    requires
        0 <= k < entries.len(),
        entries[k].0 is Name,
    ensures
        crate::convert::js_of_php(PhpData::Array(entries)) is Object,
        crate::convert::js_of_php(PhpData::Array(entries))->Object_0.len() == entries.len(),
        forall|i: int|
            0 <= i < entries.len() ==> crate::convert::js_of_php(
                PhpData::Array(entries),
            )->Object_0[i] == (
                crate::convert::key_text(#[trigger] entries[i].0),
                crate::convert::js_of_php(entries[i].1),
            ),
{
    assert(crate::convert::has_string_key(entries));
}

proof fn lemma_decimal_nonempty(n: nat)
    ensures
        crate::convert::decimal(n).len() >= 1,
        n >= 10 ==> crate::convert::decimal(n).len() >= 2,
    decreases n,
{
    if n >= 10 {
        lemma_decimal_nonempty(n / 10);
    }
}

proof fn lemma_digit_char_injective(a: nat, b: nat)
    requires
        a < 10,
        b < 10,
        crate::convert::digit_char(a) == crate::convert::digit_char(b),
    ensures
        a == b,
{
}

/// Distinct integer keys give distinct property names.
pub proof fn law_index_names_distinct(a: nat, b: nat)
    requires
        crate::convert::decimal(a) == crate::convert::decimal(b),
    ensures
        a == b,
    decreases a,
{
    let da = crate::convert::decimal(a);
    let db = crate::convert::decimal(b);
    lemma_decimal_nonempty(a);
    lemma_decimal_nonempty(b);
    if a < 10 && b < 10 {
        assert(da[0] == db[0]);
        lemma_digit_char_injective(a, b);
    } else if a >= 10 && b >= 10 {
        let pa = crate::convert::decimal(a / 10);
        let pb = crate::convert::decimal(b / 10);
        assert(da == pa + seq![crate::convert::digit_char(a % 10)]);
        assert(db == pb + seq![crate::convert::digit_char(b % 10)]);
        assert(da[da.len() - 1] == crate::convert::digit_char(a % 10));
        assert(db[db.len() - 1] == crate::convert::digit_char(b % 10));
        lemma_digit_char_injective(a % 10, b % 10);
        assert(pa =~= da.subrange(0, da.len() - 1));
        assert(pb =~= db.subrange(0, db.len() - 1));
        law_index_names_distinct(a / 10, b / 10);
    } else {
        assert(da.len() != db.len());
    }
}

/// A property set from PHP reads back as the value that was set, and the
/// other properties keep their values.
pub proof fn law_property_read_after_write<V>(
    before: V8Js<V>,
    after: V8Js<V>,
    property: Seq<char>,
    value: V,
    other: Seq<char>,
)
    requires
        after.user_properties@ == before.user_properties@.insert(property, value),
    ensures
        after.user_properties@.contains_key(property),
        after.user_properties@[property] == value,
        other != property ==> after.user_properties@.contains_key(other)
            == before.user_properties@.contains_key(other),
        other != property && before.user_properties@.contains_key(other)
            ==> after.user_properties@[other] == before.user_properties@[other],
{
}

/// A callable property set from PHP is then found when JavaScript calls the
/// function of that name.
pub proof fn law_callable_property_is_callable<V, M>(
    before: JsRuntimeState<V, M>,
    after: JsRuntimeState<V, M>,
    property: Seq<char>,
)
    requires
        after.callbacks@.dom() == before.callbacks@.dom().insert(property),
    ensures
        after.callbacks@.contains_key(property),
{
    assert(after.callbacks@.dom().contains(property));
}

/// A module is loaded at most once: once it is cached, a `require` of its
/// name returns the cached module and does not go to the loader.
pub proof fn law_required_module_is_cached<C, M>(
    before: JsRuntimeState<C, M>,
    after: JsRuntimeState<C, M>,
    name: Seq<char>,
    module: M,
)
    requires
        after.commonjs_modules@ == before.commonjs_modules@.insert(name, module),
    ensures
        crate::bridge::require_case(after, name) is Cached,
        after.commonjs_modules@[name] == module,
{
}

/// Without limits the monitor never terminates a script: it waits without
/// heap checks until it is asked to stop.
pub proof fn law_monitor_without_limits(limits: MonitorLimits, obs: MonitorObservation)
    requires
        limits.time_limit_ms == 0,
        limits.memory_limit_bytes == 0,
    ensures
        crate::runtime::monitor_decision(limits, obs) == if obs.stop_requested {
            MonitorAction::Finish
        } else {
            MonitorAction::Wait { check_memory: false }
        },
{
}

/// The time limit is checked before the memory limit: when both are hit at
/// once the script is reported as timed out.
pub proof fn law_time_limit_before_memory_limit(limits: MonitorLimits, obs: MonitorObservation)
    requires
        !obs.stop_requested,
        !obs.terminating,
        crate::runtime::time_exceeded(limits, obs),
    ensures
        crate::runtime::monitor_decision(limits, obs) == MonitorAction::TerminateForTime,
{
}

/// Whether the engine, asked to create `created`, gave back a value that it
/// reads as `read`: the same null, boolean, string or number bits, an array
/// of such values element by element, or an object with the same property
/// names in the same order.
pub open spec fn reads_back_as(created: JsBuildData, read: JsData) -> bool
    decreases created,
{
    match created {
        JsBuildData::Null => read is Null,
        JsBuildData::Bool(b) => read == JsData::Bool(b),
        JsBuildData::Str(text) => read == JsData::Str(text),
        JsBuildData::Number(bits) => read == JsData::Number(bits),
        JsBuildData::Integer(_) => read is Number,
        JsBuildData::Array(items) => {
            &&& read is Array
            &&& read->Array_0.len() == items.len()
            &&& forall|i: int|
                0 <= i < items.len() ==> reads_back_as(items[i], #[trigger] read->Array_0[i])
        },
        JsBuildData::Object(props) => {
            &&& read is Object
            &&& read->Object_0.len() == props.len()
            &&& forall|i: int|
                0 <= i < props.len() ==> (#[trigger] read->Object_0[i]).0 == props[i].0
                    && reads_back_as(props[i].1, read->Object_0[i].1)
        },
    }
}

/// Whether a PHP value is a string, float, boolean or null, or an array
/// whose keys are exactly 0, 1, ... in order and whose values are again such.
pub open spec fn plain_php(z: PhpData) -> bool
    decreases z,
{
    match z {
        PhpData::Null => true,
        PhpData::Bool(_) => true,
        PhpData::Str(_) => true,
        PhpData::Double(_) => true,
        PhpData::Array(entries) => forall|i: int|
            0 <= i < entries.len() ==> (#[trigger] entries[i]).0 == PhpKeyData::Index(i as u64)
                && plain_php(entries[i].1),
        _ => false,
    }
}

/// A PHP string, float, boolean, null, or array keyed 0, 1, ... in order of
/// such values, sent to JavaScript and read back, is the value it was.
pub proof fn law_round_trip_from_php(z: PhpData, read: JsData)
    requires
        plain_php(z),
        reads_back_as(crate::convert::js_of_php(z), read),
    ensures
        crate::convert::php_of_js(read) == z,
    decreases z,
{
    match z {
        PhpData::Array(entries) => {
            assert(!crate::convert::has_string_key(entries)) by {
                assert forall|i: int| 0 <= i < entries.len() implies !(entries[i].0 is Name) by {
                    assert(entries[i].0 == PhpKeyData::Index(i as u64));
                }
            }
            let created = crate::convert::js_of_php(z);
            let items = read->Array_0;
            let back = crate::convert::php_of_js(read);
            assert forall|i: int| 0 <= i < entries.len() implies back->Array_0[i] == entries[i] by {
                assert(created->Array_0[i] == crate::convert::js_of_php(entries[i].1));
                assert(reads_back_as(created->Array_0[i], items[i]));
                assert(decreases_to!(z => entries));
                assert(decreases_to!(entries => entries[i]));
                assert(decreases_to!(entries[i] => entries[i].1));
                law_round_trip_from_php(entries[i].1, items[i]);
            }
            assert(back->Array_0 =~= entries);
        },
        _ => {},
    }
}

/// A run's memory watch is flagged exactly when one of that run's own heap
/// checks found the heap above the limit.
pub proof fn law_memory_flag_only_from_own_heap_checks(limit: u64, checks: Seq<usize>)
    ensures
        crate::runtime::flagged_after(limit, checks) <==> exists|i: int|
            0 <= i < checks.len() && #[trigger] checks[i] > limit,
    decreases checks.len(),
{
    if checks.len() > 0 {
        let prefix = checks.drop_last();
        law_memory_flag_only_from_own_heap_checks(limit, prefix);
        if exists|i: int| 0 <= i < prefix.len() && #[trigger] prefix[i] > limit {
            let i = choose|i: int| 0 <= i < prefix.len() && #[trigger] prefix[i] > limit;
            assert(checks[i] > limit);
        }
        if exists|i: int| 0 <= i < checks.len() && #[trigger] checks[i] > limit {
            let i = choose|i: int| 0 <= i < checks.len() && #[trigger] checks[i] > limit;
            if i < prefix.len() {
                assert(prefix[i] > limit);
            }
        }
    }
}

/// Limits that are not hit leave a script's result unchanged: while the
/// time limit has not run out and the run's heap has not been found above
/// its limit, the monitor never terminates the script, so no limit is
/// recorded as hit, and the run amounts to what it would without limits.
pub proof fn law_unhit_limits_leave_result<V>(
    limits: MonitorLimits,
    observations: Seq<MonitorObservation>,
    result: Option<V>,
)
    requires
        forall|i: int|
            0 <= i < observations.len() ==> !crate::runtime::time_exceeded(
                limits,
                #[trigger] observations[i],
            ) && !observations[i].memory_limit_flagged,
    ensures
        forall|i: int|
            0 <= i < observations.len() ==> {
                let action = crate::runtime::monitor_decision(limits, #[trigger] observations[i]);
                action is Finish || action is Wait
            },
        crate::runtime::outcome_of(result, false, false) == match result {
            Some(v) => RunOutcome::Completed(v),
            None => RunOutcome::<V>::Threw,
        },
{
}

} // verus!
