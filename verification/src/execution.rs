//! One sandboxed call, as a protocol between the host's rules and the engine.
//!
//! The engine does the work that takes time: it instantiates, writes guest
//! memory and runs `process`. The rules decide. An [`Execution`] names the
//! step that the engine must take next, is told how the step ended, and from
//! that either names the following step or ends the call with its result.

use vstd::prelude::*;
use vstd::utf8::{encode_utf8, valid_utf8};
use crate::abi::{
    LogBuffer,
    ProcessArgs,
    args_for,
    exceeds_limit,
    join_lines,
    over_limit,
    process_args,
    reported_size,
    size_over_limit,
};
use crate::config::{ExecutionConfig, ExecutionResult};
use crate::error::{Fault, HostError};

verus! {

/// Where a call stands: the step whose end is awaited.
#[derive(Debug, Clone, Copy, PartialEq, Eq, Structural)]
pub enum Phase {
    /// A fresh store with an empty log buffer is given its fuel.
    SettingFuel,
    /// The log import is linked and the module is instantiated.
    Instantiating,
    /// The exported memory is looked up and measured.
    ResolvingMemory,
    /// The input is written at offset 0.
    WritingInput,
    /// The environment is written directly behind the input.
    WritingEnv,
    /// The export `process` is looked up with its signature.
    ResolvingProcess,
    /// `process` runs, raced against the wall clock.
    Running,
    /// The call has ended.
    Finished,
}

/// A step that the engine is asked to take.
#[derive(Debug, Clone, Copy, PartialEq, Eq, Structural)]
pub enum HostAction {
    /// Create the store with an empty log buffer and set its fuel.
    SetFuel { fuel: u64 },
    /// Link `host.log`, allow shadowing, and instantiate the module.
    Instantiate,
    /// Find the export `memory` and report its size in pages.
    ResolveMemory,
    /// Write the bytes of the input at `offset`.
    WriteInput { offset: usize },
    /// Write the bytes of the environment JSON at `offset`.
    WriteEnv { offset: usize },
    /// Find the export `process` with the signature of the contract.
    ResolveProcess,
    /// Call `process` with these arguments, within the wall-clock budget.
    CallProcess(ProcessArgs),
    /// Nothing: the call has ended.
    Nothing,
}

/// How a step ended.
#[derive(Debug)]
pub enum HostEvent {
    /// The step was taken.
    Done,
    /// The step failed; `detail` is the engine's reason.
    Failed { detail: String },
    /// The exported memory has this many pages.
    MemoryPages { pages: u64 },
    /// `process` returned `status`. `fuel_remaining` is what the store
    /// reports as left, `logs` the log buffer of the store, `elapsed_ms` the
    /// wall-clock time since the call began.
    Returned { status: i32, fuel_remaining: Option<u64>, logs: LogBuffer, elapsed_ms: u64 },
    /// The wall-clock budget ran out before the step ended.
    TimedOut,
}

/// What follows a step.
#[derive(Debug)]
pub enum Step {
    /// The engine takes this step next.
    Next(HostAction),
    /// The call has ended with this result.
    Finished(Result<ExecutionResult, HostError>),
}

/// The state of one call.
#[derive(Debug)]
pub struct Execution {
    /// The binary that runs.
    pub binary_id: u128,
    /// The limits of the call.
    pub config: ExecutionConfig,
    /// The fuel that the store is given.
    pub fuel_limit: u64,
    /// The input of the call.
    pub input: String,
    /// The environment JSON of the call.
    pub env_json: String,
    /// The step whose end is awaited.
    pub phase: Phase,
}

/// The number of bytes of the text `s` in UTF-8.
pub open spec fn byte_len(s: Seq<char>) -> usize {
    encode_utf8(s).len() as usize
}

/// The fuel that a store reports as left; none counts as zero.
pub open spec fn fuel_left(reported: Option<u64>) -> u64 {
    match reported {
        Some(left) => left,
        None => 0,
    }
}

/// The error of a step that failed in `phase`.
pub open spec fn failure(phase: Phase, detail: String) -> HostError {
    match phase {
        Phase::SettingFuel => HostError::Execution(Fault::FuelRejected { detail }),
        Phase::Instantiating => HostError::Instantiation { detail },
        Phase::ResolvingMemory => HostError::MissingMemory,
        Phase::WritingInput => HostError::Execution(Fault::InputWrite),
        Phase::WritingEnv => HostError::Execution(Fault::EnvWrite),
        Phase::ResolvingProcess => HostError::MissingProcess,
        Phase::Running => HostError::Execution(Fault::Trap),
        Phase::Finished => HostError::Execution(Fault::Unexpected),
    }
}

impl Execution {
    /// The invariant of a call: the fuel is the budget of its limits.
    pub open spec fn wf(&self) -> bool {
        self.fuel_limit == self.config.fuel_budget()
    }

    /// The step that the engine is asked to take in `phase`.
    pub open spec fn action_in(&self, phase: Phase) -> HostAction {
        match phase {
            Phase::SettingFuel => HostAction::SetFuel { fuel: self.fuel_limit },
            Phase::Instantiating => HostAction::Instantiate,
            Phase::ResolvingMemory => HostAction::ResolveMemory,
            Phase::WritingInput => HostAction::WriteInput { offset: 0 },
            Phase::WritingEnv => HostAction::WriteEnv {
                offset: byte_len(self.input@),
            },
            Phase::ResolvingProcess => HostAction::ResolveProcess,
            Phase::Running => HostAction::CallProcess(
                args_for(byte_len(self.input@) as nat, byte_len(self.env_json@) as nat),
            ),
            Phase::Finished => HostAction::Nothing,
        }
    }

    /// The phase that follows when `event` ends the pending step well; none
    /// where `event` ends the call.
    pub open spec fn advance(&self, event: HostEvent) -> Option<Phase> {
        match (self.phase, event) {
            (Phase::SettingFuel, HostEvent::Done) => Some(Phase::Instantiating),
            (Phase::Instantiating, HostEvent::Done) => Some(Phase::ResolvingMemory),
            (Phase::ResolvingMemory, HostEvent::MemoryPages { pages }) => if exceeds_limit(
                pages,
                self.config,
            ) {
                None
            } else {
                Some(Phase::WritingInput)
            },
            (Phase::WritingInput, HostEvent::Done) => Some(Phase::WritingEnv),
            (Phase::WritingEnv, HostEvent::Done) => Some(Phase::ResolvingProcess),
            (Phase::ResolvingProcess, HostEvent::Done) => Some(Phase::Running),
            _ => None,
        }
    }

    /// The error with which `event` ends the call; none where the call goes
    /// on or ends well.
    pub open spec fn error_on(&self, event: HostEvent) -> Option<HostError> {
        if self.advance(event) is Some {
            None
        } else if self.phase == Phase::Finished {
            Some(HostError::Execution(Fault::Unexpected))
        } else {
            match event {
                HostEvent::TimedOut => Some(HostError::Timeout),
                HostEvent::Failed { detail } => Some(failure(self.phase, detail)),
                HostEvent::MemoryPages { pages } => if self.phase == Phase::ResolvingMemory {
                    Some(
                        HostError::MemoryLimitExceeded {
                            size_mb: reported_size(pages, self.config) as u64,
                            limit_mb: self.config.memory_limit_mb,
                        },
                    )
                } else {
                    Some(HostError::Execution(Fault::Unexpected))
                },
                HostEvent::Returned { fuel_remaining, .. } => if self.phase != Phase::Running {
                    Some(HostError::Execution(Fault::Unexpected))
                } else if fuel_left(fuel_remaining) > self.fuel_limit {
                    Some(HostError::Execution(Fault::FuelAccounting))
                } else {
                    None
                },
                HostEvent::Done => Some(HostError::Execution(Fault::Unexpected)),
            }
        }
    }

    /// Whether `result` is what a call that ended well on `event` returns.
    pub open spec fn result_on(&self, event: HostEvent, result: ExecutionResult) -> bool {
        event matches HostEvent::Returned { status, fuel_remaining, logs, elapsed_ms } && {
            &&& result.binary_id == self.binary_id
            &&& result.return_code == status
            &&& result.output@ == join_lines(logs@)
            &&& result.execution_time_ms == elapsed_ms
            &&& result.fuel_consumed == self.fuel_limit - fuel_left(fuel_remaining)
        }
    }

    /// Begins a call: the first step is to give a fresh store its fuel.
    pub fn begin(binary_id: u128, input: String, env_json: String, config: ExecutionConfig) -> (call:
        Self)
        requires
            config.fuel_fits(),
        ensures
            call.wf(),
            call.binary_id == binary_id,
            call.config == config,
            call.input == input,
            call.env_json == env_json,
            call.phase == Phase::SettingFuel,
    {
        let fuel_limit = config.timeout_ms * crate::config::FUEL_PER_MS;
        Execution { binary_id, config, fuel_limit, input, env_json, phase: Phase::SettingFuel }
    }

    /// The step that the engine is asked to take now.
    pub fn pending(&self) -> (action: HostAction)
        ensures
            action == self.action_in(self.phase),
    {
        match self.phase {
            Phase::SettingFuel => HostAction::SetFuel { fuel: self.fuel_limit },
            Phase::Instantiating => HostAction::Instantiate,
            Phase::ResolvingMemory => HostAction::ResolveMemory,
            Phase::WritingInput => HostAction::WriteInput { offset: 0 },
            Phase::WritingEnv => HostAction::WriteEnv { offset: self.input.as_str().len() },
            Phase::ResolvingProcess => HostAction::ResolveProcess,
            Phase::Running => HostAction::CallProcess(
                process_args(self.input.as_str().len(), self.env_json.as_str().len()),
            ),
            Phase::Finished => HostAction::Nothing,
        }
    }

    /// Whether the call has ended.
    pub fn is_finished(&self) -> (done: bool)
        ensures
            done == (self.phase == Phase::Finished),
    {
        self.phase == Phase::Finished
    }

    /// Takes the end of the pending step and decides what follows.
    ///
    /// A step that ends well leads to the next step, in the order: fuel,
    /// instantiation, memory, input, environment, `process`, run. A memory
    /// of more bytes than the limit allows ends the call before anything is
    /// written or run; its error tells the size in whole MiB, or one MiB
    /// more than the limit where only a fraction of a MiB is above it. A
    /// timeout ends the call with `Timeout` wherever it strikes; a failed
    /// step ends it with the error of that step; an answer that fits no
    /// pending step ends it with an execution error. A return of `process`
    /// ends the call well, with the fuel consumed and the joined log.
    pub fn step(&mut self, event: HostEvent) -> (next: Step)
        requires
            old(self).wf(),
        ensures
            final(self).wf(),
            final(self).binary_id == old(self).binary_id,
            final(self).config == old(self).config,
            final(self).fuel_limit == old(self).fuel_limit,
            final(self).input == old(self).input,
            final(self).env_json == old(self).env_json,
            old(self).advance(event) matches Some(phase) ==> final(self).phase == phase && next
                == Step::Next(final(self).action_in(phase)),
            old(self).advance(event) is None ==> final(self).phase == Phase::Finished,
            old(self).error_on(event) matches Some(e) ==> next == Step::Finished(Err(e)),
            old(self).advance(event) is None && old(self).error_on(event) is None ==> (
            next matches Step::Finished(Ok(result)) && old(self).result_on(event, result)
                && result.fuel_consumed <= old(self).config.fuel_budget()),
    {
        let phase = self.phase;
        if let Phase::Finished = phase {
            return Step::Finished(Err(HostError::Execution(Fault::Unexpected)));
        }
        match event {
            HostEvent::TimedOut => {
                self.phase = Phase::Finished;
                Step::Finished(Err(HostError::Timeout))
            },
            HostEvent::Failed { detail } => {
                self.phase = Phase::Finished;
                let error = match phase {
                    Phase::SettingFuel => HostError::Execution(Fault::FuelRejected { detail }),
                    Phase::Instantiating => HostError::Instantiation { detail },
                    Phase::ResolvingMemory => HostError::MissingMemory,
                    Phase::WritingInput => HostError::Execution(Fault::InputWrite),
                    Phase::WritingEnv => HostError::Execution(Fault::EnvWrite),
                    Phase::ResolvingProcess => HostError::MissingProcess,
                    Phase::Running => HostError::Execution(Fault::Trap),
                    Phase::Finished => HostError::Execution(Fault::Unexpected),
                };
                Step::Finished(Err(error))
            },
            HostEvent::MemoryPages { pages } => {
                if let Phase::ResolvingMemory = phase {
                    if over_limit(pages, &self.config) {
                        let size_mb = size_over_limit(pages, &self.config);
                        self.phase = Phase::Finished;
                        Step::Finished(
                            Err(
                                HostError::MemoryLimitExceeded {
                                    size_mb,
                                    limit_mb: self.config.memory_limit_mb,
                                },
                            ),
                        )
                    } else {
                        self.phase = Phase::WritingInput;
                        Step::Next(self.pending())
                    }
                } else {
                    self.phase = Phase::Finished;
                    Step::Finished(Err(HostError::Execution(Fault::Unexpected)))
                }
            },
            HostEvent::Returned { status, fuel_remaining, logs, elapsed_ms } => {
                self.phase = Phase::Finished;
                if let Phase::Running = phase {
                    let left = match fuel_remaining {
                        Some(left) => left,
                        None => 0,
                    };
                    if left > self.fuel_limit {
                        Step::Finished(Err(HostError::Execution(Fault::FuelAccounting)))
                    } else {
                        Step::Finished(
                            Ok(
                                ExecutionResult {
                                    binary_id: self.binary_id,
                                    return_code: status,
                                    output: logs.output(),
                                    execution_time_ms: elapsed_ms,
                                    fuel_consumed: self.fuel_limit - left,
                                },
                            ),
                        )
                    }
                } else {
                    Step::Finished(Err(HostError::Execution(Fault::Unexpected)))
                }
            },
            HostEvent::Done => {
                let following = match phase {
                    Phase::SettingFuel => Some(Phase::Instantiating),
                    Phase::Instantiating => Some(Phase::ResolvingMemory),
                    Phase::WritingInput => Some(Phase::WritingEnv),
                    Phase::WritingEnv => Some(Phase::ResolvingProcess),
                    Phase::ResolvingProcess => Some(Phase::Running),
                    _ => None,
                };
                match following {
                    Some(phase) => {
                        self.phase = phase;
                        Step::Next(self.pending())
                    },
                    None => {
                        self.phase = Phase::Finished;
                        Step::Finished(Err(HostError::Execution(Fault::Unexpected)))
                    },
                }
            },
        }
    }
}

/// A memory above the limit ends the call with `MemoryLimitExceeded` at the
/// step that measures it: nothing is written and `process` is not called.
pub proof fn lemma_memory_cap(call: Execution, pages: u64)
    requires
        call.phase == Phase::ResolvingMemory,
        exceeds_limit(pages, call.config),
    ensures
        call.advance(HostEvent::MemoryPages { pages }) is None,
        call.error_on(HostEvent::MemoryPages { pages }) == Some(
            HostError::MemoryLimitExceeded {
                size_mb: reported_size(pages, call.config) as u64,
                limit_mb: call.config.memory_limit_mb,
            },
        ),
{
}

/// `process` is called only as the step after its export was found, and
/// that step is reached only through a memory within the limit.
pub proof fn lemma_process_runs_last(call: Execution, event: HostEvent)
    requires
        call.advance(event) == Some(Phase::Running) || call.advance(event) == Some(
            Phase::WritingInput,
        ),
    ensures
        call.advance(event) == Some(Phase::Running) ==> call.phase == Phase::ResolvingProcess,
        call.advance(event) == Some(Phase::WritingInput) ==> call.phase == Phase::ResolvingMemory
            && (event matches HostEvent::MemoryPages { pages } && !exceeds_limit(
            pages,
            call.config,
        )),
{
}

/// A timeout ends a call that runs with `Timeout`, whatever step is pending.
pub proof fn lemma_timeout(call: Execution)
    requires
        call.phase != Phase::Finished,
    ensures
        call.advance(HostEvent::TimedOut) is None,
        call.error_on(HostEvent::TimedOut) == Some(HostError::Timeout),
{
}

/// A trap while `process` runs, exhausted fuel included, ends the call with
/// an execution error, not with a timeout.
pub proof fn lemma_trap(call: Execution, detail: String)
    requires
        call.phase == Phase::Running,
    ensures
        call.error_on(HostEvent::Failed { detail }) == Some(HostError::Execution(Fault::Trap)),
        HostError::Execution(Fault::Trap).spec_kind() == crate::error::ErrorKind::ExecutionError,
{
}

/// A call that ends well never reports more fuel than its budget.
pub proof fn lemma_fuel_within_budget(call: Execution, event: HostEvent, result: ExecutionResult)
    requires
        call.wf(),
        call.advance(event) is None,
        call.error_on(event) is None,
        call.result_on(event, result),
    ensures
        0 <= result.fuel_consumed <= call.config.timeout_ms * crate::config::FUEL_PER_MS,
        0 <= result.execution_time_ms,
{
}

/// The output of a call is valid UTF-8.
pub proof fn lemma_output_is_utf8(result: ExecutionResult)
    ensures
        valid_utf8(encode_utf8(result.output@)),
{
    vstd::utf8::encode_utf8_valid_utf8(result.output@);
}

} // verus!
