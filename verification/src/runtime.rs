//! The state that a JavaScript runtime keeps beside its isolate, and the
//! decisions taken while a script runs: which resource name it gets, how the
//! time and memory monitor acts, and what a run is reported as.
use vstd::prelude::*;
use crate::table::NamedTable;

verus! {

/// What the engine reports about an exception thrown by a script.
#[derive(Debug, Clone, PartialEq, Eq)]
pub struct ScriptExecutionErrorData {
    pub file_name: String,
    pub line_number: u64,
    pub start_column: u64,
    pub end_column: u64,
    pub source_line: String,
    pub trace: String,
    pub message: String,
}

/// The ways in which running a script can fail.
#[derive(Debug, Clone, PartialEq, Eq)]
pub enum Error {
    /// The script did not compile.
    JSRuntimeError,
    /// The time limit ran out before the script finished.
    ExecutionTimeout,
    /// The script's heap grew beyond the memory limit.
    MemoryLimitExceeded,
    /// The engine refused the source text.
    V8Error,
    /// The script threw an exception.
    ScriptExecutionError(ScriptExecutionErrorData),
}

/// The state that a runtime keeps beside its isolate: the PHP callbacks that
/// JavaScript can call by name, the CommonJS module loader and the modules
/// loaded so far. `C` stands for a PHP callable, `M` for a JavaScript value.
pub struct JsRuntimeState<C, M> {
    pub callbacks: NamedTable<C>,
    pub commonjs_module_loader: Option<C>,
    pub commonjs_modules: NamedTable<M>,
}

impl<C, M> JsRuntimeState<C, M> {
    /// The state of a new runtime: no callbacks, no loader, no modules.
    pub fn new() -> (state: Self)
        ensures
            state.callbacks@ == Map::<Seq<char>, C>::empty(),
            state.commonjs_module_loader is None,
            state.commonjs_modules@ == Map::<Seq<char>, M>::empty(),
    {
        JsRuntimeState {
            callbacks: NamedTable::new(),
            commonjs_module_loader: None,
            commonjs_modules: NamedTable::new(),
        }
    }

    /// Registers a PHP callback under a name, replacing any earlier one.
    pub fn add_callback(&mut self, name: String, callback: C)
        ensures
            final(self).callbacks@ == old(self).callbacks@.insert(name@, callback),
            final(self).commonjs_module_loader == old(self).commonjs_module_loader,
            final(self).commonjs_modules@ == old(self).commonjs_modules@,
    {
        self.callbacks.insert(name, callback);
    }

    /// Sets the PHP callable that loads CommonJS modules by name.
    pub fn set_module_loader(&mut self, loader: C)
        ensures
            final(self).commonjs_module_loader == Some(loader),
            final(self).callbacks@ == old(self).callbacks@,
            final(self).commonjs_modules@ == old(self).commonjs_modules@,
    {
        self.commonjs_module_loader = Some(loader);
    }

    /// Remembers a loaded CommonJS module under its name.
    pub fn cache_module(&mut self, name: String, module: M)
        ensures
            final(self).commonjs_modules@ == old(self).commonjs_modules@.insert(name@, module),
            final(self).callbacks@ == old(self).callbacks@,
            final(self).commonjs_module_loader == old(self).commonjs_module_loader,
    {
        self.commonjs_modules.insert(name, module);
    }
}

/// The resource name under which a script runs when none is given.
pub open spec fn default_resource_name() -> Seq<char> {
    "V8Js::executeString"@
}

/// The resource name of a script: its identifier, or the default name.
pub fn script_resource_name(identifier: Option<String>) -> (name: String)
    ensures
        name@ == match identifier {
            Some(id) => id@,
            None => default_resource_name(),
        },
{
    match identifier {
        Some(id) => id,
        None => String::from_str("V8Js::executeString"),
    }
}

/// The limits that the monitor of a running script enforces; a limit of 0
/// is not enforced.
#[derive(Debug, Clone, Copy, PartialEq, Eq)]
pub struct MonitorLimits {
    pub time_limit_ms: u64,
    pub memory_limit_bytes: u64,
}

/// The limits to monitor a script under, or `None` when neither limit is set
/// and no monitor runs.
pub fn monitor_limits(time_limit: Option<u64>, memory_limit: Option<u64>) -> (limits: Option<
    MonitorLimits,
>)
    ensures
        limits is None <==> (time_limit is None && memory_limit is None),
        limits matches Some(l) ==> {
            &&& l.time_limit_ms == match time_limit {
                Some(t) => t,
                None => 0,
            }
            &&& l.memory_limit_bytes == match memory_limit {
                Some(m) => m,
                None => 0,
            }
        },
{
    if time_limit.is_some() || memory_limit.is_some() {
        let time_limit_ms = match time_limit {
            Some(t) => t,
            None => 0,
        };
        let memory_limit_bytes = match memory_limit {
            Some(m) => m,
            None => 0,
        };
        Some(MonitorLimits { time_limit_ms, memory_limit_bytes })
    } else {
        None
    }
}

/// The milliseconds that the monitor sleeps between two looks at the script.
pub const MONITOR_POLL_MILLIS: u64 = 10;

/// What the monitor sees when it looks at the running script.
#[derive(Debug, Clone, Copy, PartialEq, Eq)]
pub struct MonitorObservation {
    /// The script has finished and the monitor was asked to stop.
    pub stop_requested: bool,
    /// The time since the script started, in nanoseconds.
    pub elapsed_nanos: u128,
    /// The engine is already terminating the script.
    pub terminating: bool,
    /// A heap check has found the heap above the memory limit.
    pub memory_limit_flagged: bool,
}

/// What the monitor does after a look at the running script.
#[derive(Debug, Clone, Copy, PartialEq, Eq)]
pub enum MonitorAction {
    /// Stop monitoring.
    Finish,
    /// Record that the time limit was hit, terminate the script and stop.
    TerminateForTime,
    /// Record that the memory limit was hit, terminate the script and stop.
    TerminateForMemory,
    /// Sleep, after asking the engine for a heap check when `check_memory`.
    Wait { check_memory: bool },
}

/// Whether the time limit has run out at the observation.
pub open spec fn time_exceeded(limits: MonitorLimits, obs: MonitorObservation) -> bool {
    limits.time_limit_ms > 0 && obs.elapsed_nanos > limits.time_limit_ms as int * 1_000_000
}

/// What the monitor does after a look at the running script.
pub open spec fn monitor_decision(limits: MonitorLimits, obs: MonitorObservation) -> MonitorAction {
    if obs.stop_requested {
        MonitorAction::Finish
    } else if time_exceeded(limits, obs) && !obs.terminating {
        MonitorAction::TerminateForTime
    } else if limits.memory_limit_bytes > 0 && obs.memory_limit_flagged {
        MonitorAction::TerminateForMemory
    } else {
        MonitorAction::Wait { check_memory: limits.memory_limit_bytes > 0 }
    }
}

/// One step of the monitor that watches a running script.
pub fn monitor_step(limits: &MonitorLimits, obs: &MonitorObservation) -> (action: MonitorAction)
    ensures
        action == monitor_decision(*limits, *obs),
{
    if obs.stop_requested {
        return MonitorAction::Finish;
    }
    if limits.time_limit_ms > 0 {
        let limit_nanos: u128 = limits.time_limit_ms as u128 * 1_000_000;
        if obs.elapsed_nanos > limit_nanos && !obs.terminating {
            return MonitorAction::TerminateForTime;
        }
    }
    if limits.memory_limit_bytes > 0 {
        if obs.memory_limit_flagged {
            return MonitorAction::TerminateForMemory;
        }
        return MonitorAction::Wait { check_memory: true };
    }
    MonitorAction::Wait { check_memory: false }
}

/// The memory watch of one run: the run's memory limit, and whether a heap
/// check of this run has found the heap above it. Each run starts its own
/// watch, so a run is never ended for the heap of another.
pub struct MemoryWatch {
    memory_limit_bytes: u64,
    flagged: bool,
}

impl MemoryWatch {
    pub closed spec fn limit(&self) -> u64 {
        self.memory_limit_bytes
    }

    pub closed spec fn is_flagged(&self) -> bool {
        self.flagged
    }

    /// The watch of a new run: nothing is flagged yet.
    pub fn new(memory_limit_bytes: u64) -> (watch: Self)
        ensures
            watch.limit() == memory_limit_bytes,
            !watch.is_flagged(),
    {
        MemoryWatch { memory_limit_bytes, flagged: false }
    }

    /// Records a heap check of the run: the watch is flagged from the first
    /// check that finds the used heap above the limit.
    pub fn record_heap_check(&mut self, used_heap_size: usize)
        ensures
            final(self).limit() == old(self).limit(),
            final(self).is_flagged() == (old(self).is_flagged() || used_heap_size > old(
                self,
            ).limit()),
    {
        if heap_over_limit(used_heap_size, self.memory_limit_bytes) {
            self.flagged = true;
        }
    }

    /// Whether a heap check of this run has found the heap above the limit.
    pub fn flagged(&self) -> (flagged: bool)
        ensures
            flagged == self.is_flagged(),
    {
        self.flagged
    }
}

/// Whether a watch is flagged after the given heap checks of its run.
pub open spec fn flagged_after(limit: u64, checks: Seq<usize>) -> bool
    decreases checks.len(),
{
    if checks.len() == 0 {
        false
    } else {
        flagged_after(limit, checks.drop_last()) || checks.last() > limit
    }
}

/// The verdict of a heap check: whether the used heap exceeds the limit.
pub fn heap_over_limit(used_heap_size: usize, memory_limit_bytes: u64) -> (over: bool)
    ensures
        over == (used_heap_size > memory_limit_bytes),
{
    used_heap_size as u128 > memory_limit_bytes as u128
}

/// What a finished run of a script amounts to, before any exception is read.
#[derive(Debug)]
pub enum RunOutcome<V> {
    /// The script completed with a value.
    Completed(V),
    /// The run failed for the given reason.
    Failed(Error),
    /// The script produced no value and no limit was hit: it threw, or it was
    /// terminated from inside.
    Threw,
}

/// What a finished run amounts to, from its value and the limits that were
/// hit.
pub open spec fn outcome_of<V>(result: Option<V>, time_limit_hit: bool, memory_limit_hit: bool) -> RunOutcome<V> {
    match result {
        Some(v) => RunOutcome::Completed(v),
        None => if time_limit_hit {
            RunOutcome::Failed(Error::ExecutionTimeout)
        } else if memory_limit_hit {
            RunOutcome::Failed(Error::MemoryLimitExceeded)
        } else {
            RunOutcome::Threw
        },
    }
}

/// Classifies a finished run from its value and the limits that were hit.
pub fn run_outcome<V>(result: Option<V>, time_limit_hit: bool, memory_limit_hit: bool) -> (outcome:
    RunOutcome<V>)
    ensures
        outcome == outcome_of(result, time_limit_hit, memory_limit_hit),
{
    match result {
        Some(v) => RunOutcome::Completed(v),
        None => {
            if time_limit_hit {
                RunOutcome::Failed(Error::ExecutionTimeout)
            } else if memory_limit_hit {
                RunOutcome::Failed(Error::MemoryLimitExceeded)
            } else {
                RunOutcome::Threw
            }
        },
    }
}

/// The report of an exception thrown by a script; its trace is left empty.
pub fn script_error_data(
    message: String,
    file_name: String,
    line_number: u64,
    start_column: u64,
    end_column: u64,
    source_line: String,
) -> (data: ScriptExecutionErrorData)
    ensures
        data.message == message,
        data.file_name == file_name,
        data.line_number == line_number,
        data.start_column == start_column,
        data.end_column == end_column,
        data.source_line == source_line,
        data.trace@ == Seq::<char>::empty(),
{
    ScriptExecutionErrorData {
        file_name,
        line_number,
        start_column,
        end_column,
        source_line,
        trace: String::new(),
        message,
    }
}

/// The result of a run that produced no value and hit no limit: an error
/// carrying the exception's report when the exception has a text, and no
/// value otherwise.
pub fn thrown_outcome<V>(report: Option<ScriptExecutionErrorData>) -> (result: Result<Option<V>, Error>)
    ensures
        match report {
            Some(data) => result == Err::<Option<V>, Error>(Error::ScriptExecutionError(data)),
            None => result == Ok::<Option<V>, Error>(None),
        },
{
    match report {
        Some(data) => Err(Error::ScriptExecutionError(data)),
        None => Ok(None),
    }
}

} // verus!
