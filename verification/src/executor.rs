//! The executor: it resolves a binary, prepares its call, and begins chains.

use vstd::prelude::*;
use wasmtime::Module;
use crate::abi::{env_text, fresh_env_json};
use crate::chain::ChainRun;
use crate::config::ExecutionConfig;
use crate::error::HostError;
use crate::execution::{Execution, Phase};
use crate::registry::BinaryRegistry;
use crate::tracer::Tracer;

verus! {

/// A call that is ready for the engine: the compiled module and the state of
/// the call, whose first step is pending.
pub struct PreparedCall {
    pub module: Module,
    pub call: Execution,
}

/// The executor, with the registry that it resolves binaries in and the
/// tracer that keeps the traces of its calls.
pub struct Executor {
    pub registry: BinaryRegistry,
    pub tracer: Tracer,
}

impl Executor {
    /// An executor over `registry` that records traces.
    pub fn new(registry: BinaryRegistry) -> (executor: Self)
        ensures
            executor.registry == registry,
            executor.tracer.records(),
            executor.tracer.kept().len() == 0,
    {
        Executor { registry, tracer: Tracer::default() }
    }

    /// An executor over `registry` with a tracer of the caller's making.
    pub fn with_tracer(registry: BinaryRegistry, tracer: Tracer) -> (executor: Self)
        ensures
            executor.registry == registry,
            executor.tracer == tracer,
    {
        Executor { registry, tracer }
    }

    /// The tracer, for reading the traces.
    pub fn tracer(&self) -> (tracer: &Tracer)
        ensures
            *tracer == self.tracer,
    {
        &self.tracer
    }

    /// Prepares a call of `binary_id` on `input` with the environment
    /// `env_json`: resolves the binary and begins the call.
    pub fn prepare(
        &self,
        binary_id: u128,
        input: String,
        env_json: String,
        config: ExecutionConfig,
    ) -> (prepared: Result<PreparedCall, HostError>)
        requires
            config.fuel_fits(),
        ensures
            prepared is Ok <==> self.registry@.dom().contains(binary_id),
            prepared matches Err(e) ==> e == (HostError::NotFound { id: binary_id }),
            prepared matches Ok(p) ==> {
                &&& p.module == self.registry.modules()[binary_id]
                &&& p.call.wf()
                &&& p.call.binary_id == binary_id
                &&& p.call.input == input
                &&& p.call.env_json == env_json
                &&& p.call.config == config
                &&& p.call.phase == Phase::SettingFuel
            },
    {
        match self.registry.get_binary(binary_id) {
            Ok(binary) => Ok(
                PreparedCall {
                    module: binary.module,
                    call: Execution::begin(binary_id, input, env_json, config),
                },
            ),
            Err(e) => Err(e),
        }
    }

    /// Prepares a call of `binary_id` on `input`. The environment of the
    /// call holds `timestamp`, in nanoseconds since the epoch, and a seed
    /// that is drawn at random.
    ///
    /// An identifier that is not loaded gives `NotFound`; for one that is,
    /// the call is prepared, with the module that is loaded under it.
    pub fn execute(&self, binary_id: u128, input: String, config: ExecutionConfig, timestamp: i64) -> (prepared:
        Result<PreparedCall, HostError>)
        requires
            config.fuel_fits(),
        ensures
            prepared is Ok <==> self.registry@.dom().contains(binary_id),
            prepared matches Err(e) ==> e == (HostError::NotFound { id: binary_id }),
            prepared matches Ok(p) ==> {
                &&& p.module == self.registry.modules()[binary_id]
                &&& p.call.wf()
                &&& p.call.binary_id == binary_id
                &&& p.call.input == input
                &&& p.call.config == config
                &&& p.call.phase == Phase::SettingFuel
                &&& exists|seed: i64| p.call.env_json@ == env_text(timestamp, seed)
            },
    {
        if self.registry.get_binary(binary_id).is_err() {
            return Err(HostError::NotFound { id: binary_id });
        }
        match fresh_env_json(timestamp) {
            Ok(env_json) => self.prepare(binary_id, input, env_json, config),
            Err(e) => Err(e),
        }
    }

    /// Begins a chain of the binaries `binary_ids` on `initial_input`.
    pub fn execute_chain(
        &self,
        binary_ids: Vec<u128>,
        initial_input: String,
        config: ExecutionConfig,
    ) -> (run: ChainRun)
        ensures
            run.wf(),
            run.ids == binary_ids,
            run.config == config,
            run.input == initial_input,
            run.results@.len() == 0,
            run.failure is None,
    {
        ChainRun::new(binary_ids, initial_input, config)
    }
}

} // verus!
