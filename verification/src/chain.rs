//! The chain executor: plugins run one after another, and what one computed
//! is the input of the next.
//!
//! Running a plugin is the engine's work. A [`ChainRun`] names the call to
//! make next and is told how it ended.

use vstd::prelude::*;
use crate::config::{ExecutionConfig, ExecutionResult};
use crate::error::{Fault, HostError};
use crate::extract::{extract_result, extracted};

verus! {

/// One call of a chain: which binary runs, on what input, within what limits.
#[derive(Debug)]
pub struct ChainStep {
    pub binary_id: u128,
    pub input: String,
    pub config: ExecutionConfig,
}

/// The state of a chain.
#[derive(Debug)]
pub struct ChainRun {
    /// The binaries of the chain, in the order in which they run.
    pub ids: Vec<u128>,
    /// The limits, shared by all steps.
    pub config: ExecutionConfig,
    /// The input of the step that runs next.
    pub input: String,
    /// The results of the steps that ran, in order.
    pub results: Vec<ExecutionResult>,
    /// The error of the step that failed, if one did.
    pub failure: Option<HostError>,
}

/// The input of the step that follows the results `done`, in a chain that
/// began with `initial`: the result extracted from the last output, or the
/// initial input where nothing ran yet.
pub open spec fn input_after(initial: Seq<char>, done: Seq<ExecutionResult>) -> Seq<char> {
    if done.len() == 0 {
        initial
    } else {
        extracted(done.last().output@)
    }
}

impl ChainRun {
    /// The invariant of a chain: no more results than binaries, each result
    /// is of the binary of its step, and, once a step ran, the next input is
    /// what the last output carries.
    pub open spec fn wf(&self) -> bool {
        &&& self.results@.len() <= self.ids@.len()
        &&& forall|i: int|
            0 <= i < self.results@.len() ==> (#[trigger] self.results@[i]).binary_id
                == self.ids@[i]
        &&& self.results@.len() > 0 ==> self.input@ == extracted(self.results@.last().output@)
    }

    /// The binary of the step that is to run.
    pub open spec fn next_id(&self) -> u128 {
        self.ids@[self.results@.len() as int]
    }

    /// Whether a step is to run.
    pub open spec fn has_next(&self) -> bool {
        self.failure is None && self.results@.len() < self.ids@.len()
    }

    /// Begins a chain.
    pub fn new(ids: Vec<u128>, initial_input: String, config: ExecutionConfig) -> (run: Self)
        ensures
            run.wf(),
            run.ids == ids,
            run.config == config,
            run.input == initial_input,
            run.results@.len() == 0,
            run.failure is None,
    {
        ChainRun { ids, config, input: initial_input, results: Vec::new(), failure: None }
    }

    /// The call to make next: the first binary that has not run, on the
    /// current input. None once a step failed or all binaries ran.
    pub fn next(&self) -> (step: Option<ChainStep>)
        requires
            self.wf(),
        ensures
            step is Some <==> self.has_next(),
            step matches Some(s) ==> {
                &&& s.binary_id == self.ids@[self.results@.len() as int]
                &&& s.input@ == self.input@
                &&& s.config == self.config
            },
    {
        if self.failure.is_none() && self.results.len() < self.ids.len() {
            Some(
                ChainStep {
                    binary_id: self.ids[self.results.len()],
                    input: self.input.clone(),
                    config: self.config,
                },
            )
        } else {
            None
        }
    }

    /// Takes the outcome of the call that [`ChainRun::next`] named. A result
    /// of the binary that was named is kept and the next input is extracted
    /// from its output; an error ends the chain, and so does a result of
    /// another binary. Where no call was to be made, nothing changes.
    pub fn record(&mut self, outcome: Result<ExecutionResult, HostError>)
        requires
            old(self).wf(),
        ensures
            final(self).wf(),
            final(self).ids == old(self).ids,
            final(self).config == old(self).config,
            !old(self).has_next() ==> *final(self) == *old(self),
            old(self).has_next() ==> match outcome {
                Ok(result) => if result.binary_id == old(self).next_id() {
                    &&& final(self).results@ == old(self).results@.push(result)
                    &&& final(self).input@ == extracted(result.output@)
                    &&& final(self).failure is None
                } else {
                    &&& final(self).results == old(self).results
                    &&& final(self).input == old(self).input
                    &&& final(self).failure == Some(HostError::Execution(Fault::Unexpected))
                },
                Err(e) => {
                    &&& final(self).results == old(self).results
                    &&& final(self).input == old(self).input
                    &&& final(self).failure == Some(e)
                },
            },
    {
        if self.failure.is_none() && self.results.len() < self.ids.len() {
            match outcome {
                Ok(result) => {
                    if result.binary_id == self.ids[self.results.len()] {
                        self.input = extract_result(result.output.as_str());
                        self.results.push(result);
                    } else {
                        self.failure = Some(HostError::Execution(Fault::Unexpected));
                    }
                },
                Err(e) => {
                    self.failure = Some(e);
                },
            }
        }
    }

    /// The outcome of the chain: none while a step is to run; the error of
    /// the step that failed; else the results of all steps, in order.
    pub fn outcome(self) -> (end: Option<Result<Vec<ExecutionResult>, HostError>>)
        requires
            self.wf(),
        ensures
            self.has_next() ==> end is None,
            !self.has_next() ==> match self.failure {
                Some(e) => end == Some(Err::<Vec<ExecutionResult>, HostError>(e)),
                None => end == Some(Ok::<Vec<ExecutionResult>, HostError>(self.results))
                    && self.results@.len() == self.ids@.len(),
            },
    {
        if self.failure.is_none() && self.results.len() < self.ids.len() {
            None
        } else {
            match self.failure {
                Some(e) => Some(Err(e)),
                None => Some(Ok(self.results)),
            }
        }
    }
}

/// In a chain the input of every step but the first is what the output of
/// the step before it carries, and the input of the first is the initial one.
pub proof fn lemma_chain_threads_output(run: ChainRun, initial: Seq<char>)
    requires
        run.wf(),
        run.results@.len() == 0 ==> run.input@ == initial,
    ensures
        run.input@ == input_after(initial, run.results@),
{
}

} // verus!
