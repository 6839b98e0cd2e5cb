//! Execution traces: what happened during one call, event by event, and a
//! bounded store that keeps the most recent traces.
//!
//! Times are readings of a monotonic clock in microseconds, taken by the
//! caller.

use vstd::prelude::*;

verus! {

/// How many traces a tracer keeps unless told otherwise.
pub const DEFAULT_MAX_TRACES: usize = 100;

/// The kinds of trace event.
#[derive(Debug, Clone, Copy, PartialEq, Eq, Structural)]
pub enum TraceEventType {
    LoadStart,
    LoadComplete,
    LoadError,
    ExecutionStart,
    ExecutionComplete,
    ExecutionError,
    FunctionCall,
    HostFunctionCall,
    MemoryOp,
    FuelCheckpoint,
    PluginLog,
}

/// One named number of an event's metadata.
#[derive(Debug)]
pub struct TraceField {
    pub name: String,
    pub value: i128,
}

/// One event of a trace.
#[derive(Debug)]
pub struct TraceEvent {
    /// Microseconds since the trace began.
    pub timestamp: u64,
    pub event_type: TraceEventType,
    pub binary_id: u128,
    pub message: String,
    pub metadata: Option<Vec<TraceField>>,
}

/// The trace of one call.
#[derive(Debug)]
pub struct ExecutionTrace {
    pub binary_id: u128,
    /// The clock when the trace began.
    pub start_time: u64,
    /// The clock when the call ended; none while it runs.
    pub end_time: Option<u64>,
    pub events: Vec<TraceEvent>,
    pub success: bool,
    pub error_message: Option<String>,
}

/// The time from `start` to `now`; zero where the clock reads less than at
/// the start.
pub open spec fn elapsed(start: u64, now: u64) -> u64 {
    if now >= start {
        (now - start) as u64
    } else {
        0
    }
}

fn elapsed_since(start: u64, now: u64) -> (passed: u64)
    ensures
        passed == elapsed(start, now),
{
    if now >= start {
        now - start
    } else {
        0
    }
}

impl ExecutionTrace {
    /// A trace of a call of `binary_id` that begins at `now`.
    pub fn new(binary_id: u128, now: u64) -> (trace: Self)
        ensures
            trace.binary_id == binary_id,
            trace.start_time == now,
            trace.end_time is None,
            trace.events@.len() == 0,
            !trace.success,
            trace.error_message is None,
    {
        ExecutionTrace {
            binary_id,
            start_time: now,
            end_time: None,
            events: Vec::new(),
            success: false,
            error_message: None,
        }
    }

    /// Appends an event that happens at `now`.
    pub fn add_event(
        &mut self,
        event_type: TraceEventType,
        message: String,
        metadata: Option<Vec<TraceField>>,
        now: u64,
    )
        ensures
            final(self).binary_id == old(self).binary_id,
            final(self).start_time == old(self).start_time,
            final(self).end_time == old(self).end_time,
            final(self).success == old(self).success,
            final(self).error_message == old(self).error_message,
            final(self).events@ == old(self).events@.push(
                TraceEvent {
                    timestamp: elapsed(old(self).start_time, now),
                    event_type,
                    binary_id: old(self).binary_id,
                    message,
                    metadata,
                },
            ),
    {
        let timestamp = elapsed_since(self.start_time, now);
        self.events.push(
            TraceEvent { timestamp, event_type, binary_id: self.binary_id, message, metadata },
        );
    }

    /// Ends the trace at `now`.
    pub fn complete(&mut self, success: bool, error_message: Option<String>, now: u64)
        ensures
            final(self).binary_id == old(self).binary_id,
            final(self).start_time == old(self).start_time,
            final(self).events == old(self).events,
            final(self).end_time == Some(now),
            final(self).success == success,
            final(self).error_message == error_message,
    {
        self.end_time = Some(now);
        self.success = success;
        self.error_message = error_message;
    }

    /// How long the call took; for a call that still runs, how long it has
    /// run at `now`.
    pub fn duration(&self, now: u64) -> (micros: u64)
        ensures
            micros == match self.end_time {
                Some(end) => elapsed(self.start_time, end),
                None => elapsed(self.start_time, now),
            },
    {
        match self.end_time {
            Some(end) => elapsed_since(self.start_time, end),
            None => elapsed_since(self.start_time, now),
        }
    }
}

/// A store of finished traces that keeps the most recent ones.
#[derive(Debug)]
pub struct Tracer {
    traces: Vec<ExecutionTrace>,
    max_traces: usize,
    enabled: bool,
}

/// The traces `kept` after one more trace is stored under the bound `max`:
/// the oldest leaves where the bound is reached.
pub open spec fn stored(kept: Seq<ExecutionTrace>, max: usize, trace: ExecutionTrace) -> Seq<
    ExecutionTrace,
> {
    if kept.len() >= max && kept.len() > 0 {
        kept.drop_first().push(trace)
    } else {
        kept.push(trace)
    }
}

impl Tracer {
    /// The traces that are kept, oldest first.
    pub closed spec fn kept(&self) -> Seq<ExecutionTrace> {
        self.traces@
    }

    /// The bound on the number of traces.
    pub closed spec fn bound(&self) -> usize {
        self.max_traces
    }

    /// Whether the tracer records.
    pub closed spec fn records(&self) -> bool {
        self.enabled
    }

    /// A tracer that keeps at most `max_traces` traces.
    pub fn new(enabled: bool, max_traces: usize) -> (tracer: Self)
        ensures
            tracer.kept().len() == 0,
            tracer.bound() == max_traces,
            tracer.records() == enabled,
    {
        Tracer { traces: Vec::new(), max_traces, enabled }
    }

    /// Whether the tracer records.
    pub fn is_enabled(&self) -> (enabled: bool)
        ensures
            enabled == self.records(),
    {
        self.enabled
    }

    /// Turns recording on or off.
    pub fn set_enabled(&mut self, enabled: bool)
        ensures
            final(self).records() == enabled,
            final(self).kept() == old(self).kept(),
            final(self).bound() == old(self).bound(),
    {
        self.enabled = enabled;
    }

    /// Begins the trace of a call at `now`; none where recording is off.
    pub fn start_trace(&self, binary_id: u128, now: u64) -> (trace: Option<ExecutionTrace>)
        ensures
            trace is Some <==> self.records(),
            trace matches Some(t) ==> {
                &&& t.binary_id == binary_id
                &&& t.start_time == now
                &&& t.end_time is None
                &&& t.events@.len() == 0
            },
    {
        if !self.enabled {
            return None;
        }
        Some(ExecutionTrace::new(binary_id, now))
    }

    /// Stores a finished trace; the oldest trace leaves where the bound is
    /// reached. Nothing is stored while recording is off.
    pub fn complete_trace(&mut self, trace: ExecutionTrace)
        ensures
            final(self).records() == old(self).records(),
            final(self).bound() == old(self).bound(),
            old(self).records() ==> final(self).kept() == stored(
                old(self).kept(),
                old(self).bound(),
                trace,
            ),
            !old(self).records() ==> final(self).kept() == old(self).kept(),
    {
        if !self.enabled {
            return ;
        }
        if self.traces.len() >= self.max_traces && self.traces.len() > 0 {
            let _ = self.traces.remove(0);
            assert(self.traces@ =~= old(self).traces@.drop_first());
        }
        self.traces.push(trace);
    }

    /// The traces that are kept, oldest first.
    pub fn get_traces(&self) -> (traces: &Vec<ExecutionTrace>)
        ensures
            traces@ == self.kept(),
    {
        &self.traces
    }

    /// The most recent trace of a call of `binary_id`.
    pub fn get_trace(&self, binary_id: u128) -> (found: Option<&ExecutionTrace>)
        ensures
            found is None <==> forall|i: int|
                0 <= i < self.kept().len() ==> (#[trigger] self.kept()[i]).binary_id != binary_id,
            found matches Some(t) ==> exists|i: int|
                0 <= i < self.kept().len() && #[trigger] self.kept()[i] == *t && t.binary_id
                    == binary_id && forall|j: int|
                    i < j < self.kept().len() ==> (#[trigger] self.kept()[j]).binary_id
                        != binary_id,
    {
        let mut i: usize = self.traces.len();
        while i > 0
            invariant
                i <= self.traces@.len(),
                forall|j: int|
                    i <= j < self.traces@.len() ==> (#[trigger] self.traces@[j]).binary_id
                        != binary_id,
            decreases i,
        {
            i -= 1;
            if self.traces[i].binary_id == binary_id {
                assert(self.kept()[i as int] == self.traces@[i as int]);
                return Some(&self.traces[i]);
            }
        }
        None
    }

    /// Forgets all traces.
    pub fn clear_traces(&mut self)
        ensures
            final(self).kept().len() == 0,
            final(self).records() == old(self).records(),
            final(self).bound() == old(self).bound(),
    {
        self.traces.clear();
    }
}

impl Default for Tracer {
    fn default() -> (tracer: Self)
        ensures
            tracer.kept().len() == 0,
            tracer.bound() == DEFAULT_MAX_TRACES,
            tracer.records(),
    {
        Tracer::new(true, DEFAULT_MAX_TRACES)
    }
}

/// A tracer never keeps more traces than its bound, save that it keeps one
/// where the bound is zero.
pub proof fn lemma_stored_is_bounded(kept: Seq<ExecutionTrace>, max: usize, trace: ExecutionTrace)
    requires
        kept.len() <= max || kept.len() <= 1,
    ensures
        stored(kept, max, trace).len() <= max || stored(kept, max, trace).len() <= 1,
        stored(kept, max, trace).last() == trace,
{
}

} // verus!
