use std::time::{Duration, Instant};
use wasm_core::abi::{host_log, LogBuffer, HOST_MODULE, LOG_IMPORT, MEMORY_EXPORT, PROCESS_EXPORT};
use wasm_core::config::{ExecutionConfig, ExecutionResult};
use wasm_core::error::{ErrorKind, HostError};
use wasm_core::execution::{HostAction, HostEvent, Step};
use wasm_core::executor::{Executor, PreparedCall};
use wasm_core::registry::{BinaryRegistry, Timestamp};
use wasmtime::{Caller, Config, Engine, Instance, Linker, Memory, Store, TypedFunc};

const REVERSE: &[u8] = &[
    0x00, 0x61, 0x73, 0x6d, 0x01, 0x00, 0x00, 0x00, 0x01, 0x0e, 0x02, 0x60, 0x02, 0x7f, 0x7f, 0x00,
    0x60, 0x04, 0x7f, 0x7f, 0x7f, 0x7f, 0x01, 0x7f, 0x02, 0x0c, 0x01, 0x04, 0x68, 0x6f, 0x73, 0x74,
    0x03, 0x6c, 0x6f, 0x67, 0x00, 0x00, 0x03, 0x02, 0x01, 0x01, 0x05, 0x03, 0x01, 0x00, 0x01, 0x07,
    0x14, 0x02, 0x06, 0x6d, 0x65, 0x6d, 0x6f, 0x72, 0x79, 0x02, 0x00, 0x07, 0x70, 0x72, 0x6f, 0x63,
    0x65, 0x73, 0x73, 0x00, 0x01, 0x0a, 0x3c, 0x01, 0x3a, 0x01, 0x01, 0x7f, 0x02, 0x40, 0x03, 0x40,
    0x20, 0x04, 0x20, 0x01, 0x4f, 0x0d, 0x01, 0x41, 0x80, 0x08, 0x20, 0x04, 0x6a, 0x20, 0x00, 0x20,
    0x01, 0x6a, 0x41, 0x01, 0x6b, 0x20, 0x04, 0x6b, 0x2d, 0x00, 0x00, 0x3a, 0x00, 0x00, 0x20, 0x04,
    0x41, 0x01, 0x6a, 0x21, 0x04, 0x0c, 0x00, 0x0b, 0x0b, 0x41, 0x80, 0x08, 0x20, 0x01, 0x10, 0x00,
    0x41, 0x00, 0x0b,
];

const UPPER: &[u8] = &[
    0x00, 0x61, 0x73, 0x6d, 0x01, 0x00, 0x00, 0x00, 0x01, 0x0e, 0x02, 0x60, 0x02, 0x7f, 0x7f, 0x00,
    0x60, 0x04, 0x7f, 0x7f, 0x7f, 0x7f, 0x01, 0x7f, 0x02, 0x0c, 0x01, 0x04, 0x68, 0x6f, 0x73, 0x74,
    0x03, 0x6c, 0x6f, 0x67, 0x00, 0x00, 0x03, 0x02, 0x01, 0x01, 0x05, 0x03, 0x01, 0x00, 0x01, 0x07,
    0x14, 0x02, 0x06, 0x6d, 0x65, 0x6d, 0x6f, 0x72, 0x79, 0x02, 0x00, 0x07, 0x70, 0x72, 0x6f, 0x63,
    0x65, 0x73, 0x73, 0x00, 0x01, 0x0a, 0x4d, 0x01, 0x4b, 0x01, 0x02, 0x7f, 0x02, 0x40, 0x03, 0x40,
    0x20, 0x04, 0x20, 0x01, 0x4f, 0x0d, 0x01, 0x20, 0x00, 0x20, 0x04, 0x6a, 0x2d, 0x00, 0x00, 0x21,
    0x05, 0x20, 0x05, 0x41, 0xe1, 0x00, 0x6b, 0x41, 0x1a, 0x49, 0x04, 0x40, 0x20, 0x05, 0x41, 0x20,
    0x6b, 0x21, 0x05, 0x0b, 0x41, 0x80, 0x08, 0x20, 0x04, 0x6a, 0x20, 0x05, 0x3a, 0x00, 0x00, 0x20,
    0x04, 0x41, 0x01, 0x6a, 0x21, 0x04, 0x0c, 0x00, 0x0b, 0x0b, 0x41, 0x80, 0x08, 0x20, 0x01, 0x10,
    0x00, 0x41, 0x00, 0x0b,
];

const ENV: &[u8] = &[
    0x00, 0x61, 0x73, 0x6d, 0x01, 0x00, 0x00, 0x00, 0x01, 0x0e, 0x02, 0x60, 0x02, 0x7f, 0x7f, 0x00,
    0x60, 0x04, 0x7f, 0x7f, 0x7f, 0x7f, 0x01, 0x7f, 0x02, 0x0c, 0x01, 0x04, 0x68, 0x6f, 0x73, 0x74,
    0x03, 0x6c, 0x6f, 0x67, 0x00, 0x00, 0x03, 0x02, 0x01, 0x01, 0x05, 0x03, 0x01, 0x00, 0x01, 0x07,
    0x14, 0x02, 0x06, 0x6d, 0x65, 0x6d, 0x6f, 0x72, 0x79, 0x02, 0x00, 0x07, 0x70, 0x72, 0x6f, 0x63,
    0x65, 0x73, 0x73, 0x00, 0x01, 0x0a, 0x0c, 0x01, 0x0a, 0x00, 0x20, 0x02, 0x20, 0x03, 0x10, 0x00,
    0x41, 0x07, 0x0b,
];

const SPIN: &[u8] = &[
    0x00, 0x61, 0x73, 0x6d, 0x01, 0x00, 0x00, 0x00, 0x01, 0x0e, 0x02, 0x60, 0x02, 0x7f, 0x7f, 0x00,
    0x60, 0x04, 0x7f, 0x7f, 0x7f, 0x7f, 0x01, 0x7f, 0x02, 0x0c, 0x01, 0x04, 0x68, 0x6f, 0x73, 0x74,
    0x03, 0x6c, 0x6f, 0x67, 0x00, 0x00, 0x03, 0x02, 0x01, 0x01, 0x05, 0x03, 0x01, 0x00, 0x01, 0x07,
    0x14, 0x02, 0x06, 0x6d, 0x65, 0x6d, 0x6f, 0x72, 0x79, 0x02, 0x00, 0x07, 0x70, 0x72, 0x6f, 0x63,
    0x65, 0x73, 0x73, 0x00, 0x01, 0x0a, 0x0b, 0x01, 0x09, 0x00, 0x03, 0x40, 0x0c, 0x00, 0x0b, 0x41,
    0x00, 0x0b,
];

const BIG: &[u8] = &[
    0x00, 0x61, 0x73, 0x6d, 0x01, 0x00, 0x00, 0x00, 0x01, 0x0e, 0x02, 0x60, 0x02, 0x7f, 0x7f, 0x00,
    0x60, 0x04, 0x7f, 0x7f, 0x7f, 0x7f, 0x01, 0x7f, 0x02, 0x0c, 0x01, 0x04, 0x68, 0x6f, 0x73, 0x74,
    0x03, 0x6c, 0x6f, 0x67, 0x00, 0x00, 0x03, 0x02, 0x01, 0x01, 0x05, 0x04, 0x01, 0x00, 0x90, 0x08,
    0x07, 0x14, 0x02, 0x06, 0x6d, 0x65, 0x6d, 0x6f, 0x72, 0x79, 0x02, 0x00, 0x07, 0x70, 0x72, 0x6f,
    0x63, 0x65, 0x73, 0x73, 0x00, 0x01, 0x0a, 0x06, 0x01, 0x04, 0x00, 0x41, 0x00, 0x0b,
];

const NO_MEMORY: &[u8] = &[
    0x00, 0x61, 0x73, 0x6d, 0x01, 0x00, 0x00, 0x00, 0x01, 0x0e, 0x02, 0x60, 0x02, 0x7f, 0x7f, 0x00,
    0x60, 0x04, 0x7f, 0x7f, 0x7f, 0x7f, 0x01, 0x7f, 0x02, 0x0c, 0x01, 0x04, 0x68, 0x6f, 0x73, 0x74,
    0x03, 0x6c, 0x6f, 0x67, 0x00, 0x00, 0x03, 0x02, 0x01, 0x01, 0x05, 0x03, 0x01, 0x00, 0x01, 0x07,
    0x0b, 0x01, 0x07, 0x70, 0x72, 0x6f, 0x63, 0x65, 0x73, 0x73, 0x00, 0x01, 0x0a, 0x06, 0x01, 0x04,
    0x00, 0x41, 0x00, 0x0b,
];

const NO_PROCESS: &[u8] = &[
    0x00, 0x61, 0x73, 0x6d, 0x01, 0x00, 0x00, 0x00, 0x01, 0x0e, 0x02, 0x60, 0x02, 0x7f, 0x7f, 0x00,
    0x60, 0x04, 0x7f, 0x7f, 0x7f, 0x7f, 0x01, 0x7f, 0x02, 0x0c, 0x01, 0x04, 0x68, 0x6f, 0x73, 0x74,
    0x03, 0x6c, 0x6f, 0x67, 0x00, 0x00, 0x03, 0x02, 0x01, 0x01, 0x05, 0x03, 0x01, 0x00, 0x01, 0x07,
    0x0a, 0x01, 0x06, 0x6d, 0x65, 0x6d, 0x6f, 0x72, 0x79, 0x02, 0x00, 0x0a, 0x06, 0x01, 0x04, 0x00,
    0x41, 0x00, 0x0b,
];

const WRONG_PROCESS: &[u8] = &[
    0x00, 0x61, 0x73, 0x6d, 0x01, 0x00, 0x00, 0x00, 0x01, 0x0b, 0x02, 0x60, 0x02, 0x7f, 0x7f, 0x00,
    0x60, 0x01, 0x7f, 0x01, 0x7f, 0x02, 0x0c, 0x01, 0x04, 0x68, 0x6f, 0x73, 0x74, 0x03, 0x6c, 0x6f,
    0x67, 0x00, 0x00, 0x03, 0x02, 0x01, 0x01, 0x05, 0x03, 0x01, 0x00, 0x01, 0x07, 0x14, 0x02, 0x06,
    0x6d, 0x65, 0x6d, 0x6f, 0x72, 0x79, 0x02, 0x00, 0x07, 0x70, 0x72, 0x6f, 0x63, 0x65, 0x73, 0x73,
    0x00, 0x01, 0x0a, 0x06, 0x01, 0x04, 0x00, 0x41, 0x00, 0x0b,
];

const STRANGER: &[u8] = &[
    0x00, 0x61, 0x73, 0x6d, 0x01, 0x00, 0x00, 0x00, 0x01, 0x0e, 0x02, 0x60, 0x02, 0x7f, 0x7f, 0x00,
    0x60, 0x04, 0x7f, 0x7f, 0x7f, 0x7f, 0x01, 0x7f, 0x02, 0x0d, 0x01, 0x03, 0x65, 0x6e, 0x76, 0x05,
    0x70, 0x72, 0x69, 0x6e, 0x74, 0x00, 0x00, 0x03, 0x02, 0x01, 0x01, 0x05, 0x03, 0x01, 0x00, 0x01,
    0x07, 0x14, 0x02, 0x06, 0x6d, 0x65, 0x6d, 0x6f, 0x72, 0x79, 0x02, 0x00, 0x07, 0x70, 0x72, 0x6f,
    0x63, 0x65, 0x73, 0x73, 0x00, 0x01, 0x0a, 0x06, 0x01, 0x04, 0x00, 0x41, 0x00, 0x0b,
];

const BAD_UTF8: &[u8] = &[
    0x00, 0x61, 0x73, 0x6d, 0x01, 0x00, 0x00, 0x00, 0x01, 0x0e, 0x02, 0x60, 0x02, 0x7f, 0x7f, 0x00,
    0x60, 0x04, 0x7f, 0x7f, 0x7f, 0x7f, 0x01, 0x7f, 0x02, 0x0c, 0x01, 0x04, 0x68, 0x6f, 0x73, 0x74,
    0x03, 0x6c, 0x6f, 0x67, 0x00, 0x00, 0x03, 0x02, 0x01, 0x01, 0x05, 0x03, 0x01, 0x00, 0x01, 0x07,
    0x14, 0x02, 0x06, 0x6d, 0x65, 0x6d, 0x6f, 0x72, 0x79, 0x02, 0x00, 0x07, 0x70, 0x72, 0x6f, 0x63,
    0x65, 0x73, 0x73, 0x00, 0x01, 0x0a, 0x16, 0x01, 0x14, 0x00, 0x41, 0x80, 0x10, 0x41, 0xff, 0x01,
    0x3a, 0x00, 0x00, 0x41, 0x80, 0x10, 0x41, 0x01, 0x10, 0x00, 0x41, 0x00, 0x0b,
];

const OUT_OF_BOUNDS: &[u8] = &[
    0x00, 0x61, 0x73, 0x6d, 0x01, 0x00, 0x00, 0x00, 0x01, 0x0e, 0x02, 0x60, 0x02, 0x7f, 0x7f, 0x00,
    0x60, 0x04, 0x7f, 0x7f, 0x7f, 0x7f, 0x01, 0x7f, 0x02, 0x0c, 0x01, 0x04, 0x68, 0x6f, 0x73, 0x74,
    0x03, 0x6c, 0x6f, 0x67, 0x00, 0x00, 0x03, 0x02, 0x01, 0x01, 0x05, 0x03, 0x01, 0x00, 0x01, 0x07,
    0x14, 0x02, 0x06, 0x6d, 0x65, 0x6d, 0x6f, 0x72, 0x79, 0x02, 0x00, 0x07, 0x70, 0x72, 0x6f, 0x63,
    0x65, 0x73, 0x73, 0x00, 0x01, 0x0a, 0x0f, 0x01, 0x0d, 0x00, 0x41, 0xfa, 0xff, 0x03, 0x41, 0xe4,
    0x00, 0x10, 0x00, 0x41, 0x00, 0x0b,
];

const TWICE: &[u8] = &[
    0x00, 0x61, 0x73, 0x6d, 0x01, 0x00, 0x00, 0x00, 0x01, 0x0e, 0x02, 0x60, 0x02, 0x7f, 0x7f, 0x00,
    0x60, 0x04, 0x7f, 0x7f, 0x7f, 0x7f, 0x01, 0x7f, 0x02, 0x0c, 0x01, 0x04, 0x68, 0x6f, 0x73, 0x74,
    0x03, 0x6c, 0x6f, 0x67, 0x00, 0x00, 0x03, 0x02, 0x01, 0x01, 0x05, 0x03, 0x01, 0x00, 0x01, 0x07,
    0x14, 0x02, 0x06, 0x6d, 0x65, 0x6d, 0x6f, 0x72, 0x79, 0x02, 0x00, 0x07, 0x70, 0x72, 0x6f, 0x63,
    0x65, 0x73, 0x73, 0x00, 0x01, 0x0a, 0x12, 0x01, 0x10, 0x00, 0x20, 0x00, 0x20, 0x01, 0x10, 0x00,
    0x20, 0x00, 0x20, 0x01, 0x10, 0x00, 0x41, 0x7d, 0x0b,
];
const SMALL: &[u8] = &[
    0x00, 0x61, 0x73, 0x6d, 0x01, 0x00, 0x00, 0x00, 0x01, 0x0e, 0x02, 0x60, 0x02, 0x7f, 0x7f, 0x00,
    0x60, 0x04, 0x7f, 0x7f, 0x7f, 0x7f, 0x01, 0x7f, 0x02, 0x0c, 0x01, 0x04, 0x68, 0x6f, 0x73, 0x74,
    0x03, 0x6c, 0x6f, 0x67, 0x00, 0x00, 0x03, 0x02, 0x01, 0x01, 0x05, 0x03, 0x01, 0x00, 0x1f, 0x07,
    0x14, 0x02, 0x06, 0x6d, 0x65, 0x6d, 0x6f, 0x72, 0x79, 0x02, 0x00, 0x07, 0x70, 0x72, 0x6f, 0x63,
    0x65, 0x73, 0x73, 0x00, 0x01, 0x0a, 0x06, 0x01, 0x04, 0x00, 0x41, 0x00, 0x0b,
];

const AT: Timestamp = Timestamp { secs_since_epoch: 1_700_000_000, nanos_since_epoch: 0 };

struct HostState {
    logs: LogBuffer,
}

fn small_memories() -> Config {
    let mut config = Config::new();
    config.async_support(true);
    config.static_memory_maximum_size(0);
    config.memory_guard_size(0);
    config.dynamic_memory_reserved_for_growth(0);
    config.guard_before_linear_memory(false);
    config
}

fn engine() -> Engine {
    let mut config = small_memories();
    config.consume_fuel(true);
    Engine::new(&config).unwrap()
}

fn linker(engine: &Engine) -> Linker<HostState> {
    let mut linker = Linker::new(engine);
    linker
        .func_wrap_async(
            HOST_MODULE,
            LOG_IMPORT,
            |mut caller: Caller<'_, HostState>, (ptr, len): (i32, i32)| {
                Box::new(async move {
                    let memory = caller
                        .get_export(MEMORY_EXPORT)
                        .and_then(|e| e.into_memory())
                        .ok_or_else(|| anyhow::Error::msg("No memory export"))?;
                    let (bytes, state) = memory.data_and_store_mut(&mut caller);
                    host_log(&mut state.logs, bytes, ptr, len)
                        .map_err(|fault| anyhow::Error::msg(format!("{:?}", fault)))?;
                    Ok(())
                })
            },
        )
        .unwrap();
    linker.allow_shadowing(true);
    linker
}

async fn run_call(engine: &Engine, prepared: PreparedCall) -> Result<ExecutionResult, HostError> {
    let PreparedCall { module, mut call } = prepared;
    let start = Instant::now();
    let deadline = tokio::time::Instant::now() + Duration::from_millis(call.config.timeout_ms);
    let mut store = Store::new(engine, HostState { logs: LogBuffer::new() });
    let mut instance: Option<Instance> = None;
    let mut memory: Option<Memory> = None;
    let mut process: Option<TypedFunc<(i32, i32, i32, i32), i32>> = None;
    let mut action = call.pending();
    loop {
        let event = match action {
            HostAction::SetFuel { fuel } => match store.set_fuel(fuel) {
                Ok(()) => HostEvent::Done,
                Err(e) => HostEvent::Failed { detail: e.to_string() },
            },
            HostAction::Instantiate => {
                let linker = linker(engine);
                let made = linker.instantiate_async(&mut store, &module);
                match tokio::time::timeout_at(deadline, made).await {
                    Err(_) => HostEvent::TimedOut,
                    Ok(Err(e)) => HostEvent::Failed { detail: e.to_string() },
                    Ok(Ok(made)) => {
                        instance = Some(made);
                        HostEvent::Done
                    }
                }
            }
            HostAction::ResolveMemory => {
                match instance.and_then(|i| i.get_memory(&mut store, MEMORY_EXPORT)) {
                    None => HostEvent::Failed { detail: String::new() },
                    Some(found) => {
                        memory = Some(found);
                        HostEvent::MemoryPages { pages: found.size(&store) }
                    }
                }
            }
            HostAction::WriteInput { offset } => {
                match memory.map(|m| m.write(&mut store, offset, call.input.as_bytes())) {
                    Some(Ok(())) => HostEvent::Done,
                    _ => HostEvent::Failed { detail: String::new() },
                }
            }
            HostAction::WriteEnv { offset } => {
                match memory.map(|m| m.write(&mut store, offset, call.env_json.as_bytes())) {
                    Some(Ok(())) => HostEvent::Done,
                    _ => HostEvent::Failed { detail: String::new() },
                }
            }
            HostAction::ResolveProcess => {
                let found = instance.map(|i| {
                    i.get_typed_func::<(i32, i32, i32, i32), i32>(&mut store, PROCESS_EXPORT)
                });
                match found {
                    Some(Ok(func)) => {
                        process = Some(func);
                        HostEvent::Done
                    }
                    _ => HostEvent::Failed { detail: String::new() },
                }
            }
            HostAction::CallProcess(args) => {
                let func = process.as_ref().unwrap();
                let words = (args.input_ptr, args.input_len, args.env_ptr, args.env_len);
                let running = func.call_async(&mut store, words);
                match tokio::time::timeout_at(deadline, running).await {
                    Err(_) => HostEvent::TimedOut,
                    Ok(Err(e)) => HostEvent::Failed { detail: e.to_string() },
                    Ok(Ok(status)) => HostEvent::Returned {
                        status,
                        fuel_remaining: store.get_fuel().ok(),
                        logs: std::mem::replace(&mut store.data_mut().logs, LogBuffer::new()),
                        elapsed_ms: start.elapsed().as_millis() as u64,
                    },
                }
            }
            HostAction::Nothing => panic!("nothing is pending"),
        };
        match call.step(event) {
            Step::Next(next) => action = next,
            Step::Finished(result) => return result,
        }
    }
}

struct Bench {
    engine: Engine,
    executor: Executor,
    runtime: tokio::runtime::Runtime,
}

impl Bench {
    fn new() -> Self {
        Self::with(engine())
    }

    fn with(engine: Engine) -> Self {
        let runtime =
            tokio::runtime::Builder::new_current_thread().enable_time().build().unwrap();
        Bench { executor: Executor::new(BinaryRegistry::new(engine.clone())), engine, runtime }
    }

    fn load(&mut self, path: &str, bytes: &[u8]) -> u128 {
        self.executor.registry.load_binary(path, Some(bytes), AT).unwrap()
    }

    fn execute(
        &self,
        id: u128,
        input: &str,
        config: ExecutionConfig,
    ) -> Result<ExecutionResult, HostError> {
        let prepared = self.executor.execute(id, input.to_string(), config, 1_234_567_890)?;
        self.runtime.block_on(run_call(&self.engine, prepared))
    }

    fn chain(&self, ids: Vec<u128>, input: &str) -> Result<Vec<ExecutionResult>, HostError> {
        let mut chain =
            self.executor.execute_chain(ids, input.to_string(), ExecutionConfig::default());
        while let Some(step) = chain.next() {
            chain.record(self.execute(step.binary_id, &step.input, step.config));
        }
        chain.outcome().unwrap()
    }
}

#[test]
fn engine_runs_reverse() {
    let mut bench = Bench::new();
    let id = bench.load("./plugins/reverser.wasm", REVERSE);
    let result = bench.execute(id, "hello", ExecutionConfig::default()).unwrap();
    assert_eq!(result.output, "olleh");
    assert_eq!(result.return_code, 0);
    assert_eq!(result.binary_id, id);
    assert!(result.fuel_consumed > 0);
    assert!(result.fuel_consumed <= 5000 * 1_000_000);
    assert!(std::str::from_utf8(result.output.as_bytes()).is_ok());
}

#[test]
fn engine_runs_a_chain() {
    let mut bench = Bench::new();
    let upper = bench.load("./plugins/uppercase.wasm", UPPER);
    let reverse = bench.load("./plugins/reverser.wasm", REVERSE);
    let results = bench.chain(vec![upper, reverse], "hello").unwrap();
    assert_eq!(results.len(), 2);
    assert_eq!(results[0].output, "HELLO");
    assert_eq!(results[1].output, "OLLEH");
    let back = bench.chain(vec![reverse, reverse, upper], "abc def").unwrap();
    assert_eq!(back[2].output, "ABC DEF");
    let error = bench.chain(vec![upper, 12345, reverse], "x").unwrap_err();
    assert_eq!(error.kind(), ErrorKind::NotFound);
}

#[test]
fn engine_runs_the_same_binary_again_and_again() {
    let mut bench = Bench::new();
    let id = bench.load("./plugins/reverser.wasm", REVERSE);
    for i in 0..5 {
        let input = format!("test{}", i);
        let result = bench.execute(id, &input, ExecutionConfig::default()).unwrap();
        let expected: String = input.chars().rev().collect();
        assert_eq!(result.output, expected);
    }
    assert_eq!(bench.execute(id, "", ExecutionConfig::default()).unwrap().output, "");
}

#[test]
fn engine_with_a_short_timeout() {
    let mut bench = Bench::new();
    let id = bench.load("./plugins/reverser.wasm", REVERSE);
    let config = ExecutionConfig { timeout_ms: 1, memory_limit_mb: 64 };
    match bench.execute(id, "x", config) {
        Ok(result) => {
            assert_eq!(result.output, "x");
            assert!(result.fuel_consumed <= 1_000_000);
        }
        Err(error) => assert_eq!(error.kind(), ErrorKind::Timeout),
    }
}

#[test]
fn engine_stops_a_guest_that_spins() {
    let mut bench = Bench::new();
    let id = bench.load("./spin.wasm", SPIN);
    let config = ExecutionConfig { timeout_ms: 20, memory_limit_mb: 64 };
    let error = bench.execute(id, "x", config).unwrap_err();
    assert_eq!(error.kind(), ErrorKind::ExecutionError);
    assert_eq!(error.message(), "Plugin execution failed");
}

#[test]
fn engine_refuses_a_memory_above_the_limit() {
    let mut bench = Bench::new();
    let id = bench.load("./big.wasm", BIG);
    let error = bench.execute(id, "x", ExecutionConfig::default()).unwrap_err();
    assert_eq!(error.kind(), ErrorKind::MemoryLimitExceeded);
    assert_eq!(error.message(), "Memory limit exceeded: 65 MB > 64 MB");
    let roomy = ExecutionConfig { timeout_ms: 5000, memory_limit_mb: 65 };
    assert_eq!(bench.execute(id, "x", roomy).unwrap().output, "");
}

#[test]
fn engine_refuses_a_memory_of_a_fraction_above_the_limit() {
    let mut bench = Bench::new();
    let id = bench.load("./small.wasm", SMALL);
    let tight = ExecutionConfig { timeout_ms: 5000, memory_limit_mb: 1 };
    let error = bench.execute(id, "", tight).unwrap_err();
    assert_eq!(error.kind(), ErrorKind::MemoryLimitExceeded);
    assert_eq!(error.message(), "Memory limit exceeded: 2 MB > 1 MB");
    let enough = ExecutionConfig { timeout_ms: 5000, memory_limit_mb: 2 };
    assert_eq!(bench.execute(id, "", enough).unwrap().return_code, 0);
}

#[test]
fn engine_reports_missing_exports() {
    let mut bench = Bench::new();
    let no_memory = bench.load("./no_memory.wasm", NO_MEMORY);
    let no_process = bench.load("./no_process.wasm", NO_PROCESS);
    let wrong = bench.load("./wrong.wasm", WRONG_PROCESS);
    let config = ExecutionConfig::default();
    let error = bench.execute(no_memory, "x", config).unwrap_err();
    assert_eq!(error.message(), "Plugin must export 'memory'");
    for id in [no_process, wrong] {
        let error = bench.execute(id, "x", config).unwrap_err();
        assert_eq!(error.kind(), ErrorKind::Abi);
        assert_eq!(error.message(), "Plugin must export 'process(i32, i32, i32, i32) -> i32'");
    }
}

#[test]
fn engine_reports_imports_that_it_does_not_offer() {
    let mut bench = Bench::new();
    let id = bench.load("./stranger.wasm", STRANGER);
    let error = bench.execute(id, "x", ExecutionConfig::default()).unwrap_err();
    assert_eq!(error.kind(), ErrorKind::Instantiation);
    assert!(error.message().starts_with("Failed to instantiate module: "));
}

#[test]
fn engine_traps_on_bad_log_messages() {
    let mut bench = Bench::new();
    let bad = bench.load("./bad.wasm", BAD_UTF8);
    let far = bench.load("./far.wasm", OUT_OF_BOUNDS);
    for id in [bad, far] {
        let error = bench.execute(id, "x", ExecutionConfig::default()).unwrap_err();
        assert_eq!(error.kind(), ErrorKind::ExecutionError);
    }
}

#[test]
fn engine_hands_the_environment_to_the_guest() {
    let mut bench = Bench::new();
    let id = bench.load("./env.wasm", ENV);
    let result = bench.execute(id, "héllo", ExecutionConfig::default()).unwrap();
    assert_eq!(result.return_code, 7);
    let value: serde_json::Value = serde_json::from_str(&result.output).unwrap();
    assert_eq!(value["timestamp"].as_i64(), Some(1_234_567_890));
    assert!(value["random_seed"].is_i64());
    assert_eq!(value.as_object().unwrap().len(), 2);
}

#[test]
fn engine_joins_the_log_lines() {
    let mut bench = Bench::new();
    let id = bench.load("./twice.wasm", TWICE);
    let result = bench.execute(id, "ab", ExecutionConfig::default()).unwrap();
    assert_eq!(result.output, "ab\nab");
    assert_eq!(result.return_code, -3);
}

#[test]
fn engine_without_fuel_refuses_the_budget() {
    let mut bench = Bench::with(Engine::new(&small_memories()).unwrap());
    let id = bench.load("./plugins/reverser.wasm", REVERSE);
    let error = bench.execute(id, "x", ExecutionConfig::default()).unwrap_err();
    assert_eq!(error.kind(), ErrorKind::ExecutionError);
    assert!(!error.message().is_empty());
}

#[test]
fn engine_refuses_an_input_that_does_not_fit_the_memory() {
    let mut bench = Bench::new();
    let id = bench.load("./plugins/reverser.wasm", REVERSE);
    let long = "x".repeat(70_000);
    let error = bench.execute(id, &long, ExecutionConfig::default()).unwrap_err();
    assert_eq!(error.message(), "Failed to write input to memory");
    let nearly = "x".repeat(65_530);
    let error = bench.execute(id, &nearly, ExecutionConfig::default()).unwrap_err();
    assert_eq!(error.message(), "Failed to write env JSON to memory");
}
