//! The requests and responses of the five operations that the host offers.

use vstd::prelude::*;
use crate::config::{ExecutionConfig, ExecutionResult};
use crate::error::HostError;
use crate::registry::BinaryMetadata;

verus! {

/// Path of the local socket on which the host listens.
pub const SOCKET_PATH: &'static str = "/tmp/wasm-core.sock";

/// What a listing shows of a loaded binary.
#[derive(Debug, Clone)]
pub struct BinaryInfo {
    pub id: u128,
    pub path: String,
    pub size: usize,
    /// Whole seconds since the epoch.
    pub loaded_at: u64,
}

#[derive(Debug, Clone)]
pub struct LoadBinaryRequest {
    pub path: String,
}

#[derive(Debug, Clone)]
pub struct LoadBinaryResponse {
    pub binary_id: u128,
    pub size: usize,
}

#[derive(Debug, Clone)]
pub struct ExecuteRequest {
    pub binary_id: u128,
    pub input: String,
    /// The limits of the call; the defaults apply where none are given.
    pub config: Option<ExecutionConfig>,
}

#[derive(Debug, Clone)]
pub struct ExecuteResponse {
    pub result: ExecutionResult,
}

#[derive(Debug, Clone)]
pub struct ExecuteChainRequest {
    pub binary_ids: Vec<u128>,
    pub input: String,
    /// The limits of every step; the defaults apply where none are given.
    pub config: Option<ExecutionConfig>,
}

#[derive(Debug, Clone)]
pub struct ExecuteChainResponse {
    pub results: Vec<ExecutionResult>,
}

#[derive(Debug, Clone)]
pub struct ListBinariesRequest {}

#[derive(Debug, Clone)]
pub struct ListBinariesResponse {
    pub binaries: Vec<BinaryInfo>,
}

#[derive(Debug, Clone)]
pub struct UnloadBinaryRequest {
    pub binary_id: u128,
}

#[derive(Debug, Clone)]
pub struct UnloadBinaryResponse {
    pub message: String,
}

/// A request, by operation.
#[derive(Debug, Clone)]
pub enum Command {
    LoadBinary(LoadBinaryRequest),
    Execute(ExecuteRequest),
    ExecuteChain(ExecuteChainRequest),
    ListBinaries,
    UnloadBinary(UnloadBinaryRequest),
}

/// A response, by operation: what the operation gave, or the text of its
/// error. `Error` answers a request that could not be parsed.
#[derive(Debug)]
pub enum Response {
    LoadBinary(Result<LoadBinaryResponse, String>),
    Execute(Result<ExecuteResponse, String>),
    ExecuteChain(Result<ExecuteChainResponse, String>),
    ListBinaries(Result<ListBinariesResponse, String>),
    UnloadBinary(Result<UnloadBinaryResponse, String>),
    Error(String),
}

/// The limits of a call: those that the caller gave, else the defaults.
pub open spec fn limits_of(given: Option<ExecutionConfig>) -> ExecutionConfig {
    match given {
        Some(config) => config,
        None => ExecutionConfig {
            timeout_ms: crate::config::DEFAULT_TIMEOUT_MS,
            memory_limit_mb: crate::config::DEFAULT_MEMORY_LIMIT_MB,
        },
    }
}

/// Applies the defaults where the caller gave no limits.
pub fn config_or_default(given: Option<ExecutionConfig>) -> (config: ExecutionConfig)
    ensures
        config == limits_of(given),
{
    match given {
        Some(config) => config,
        None => ExecutionConfig::default(),
    }
}

/// What a listing shows of the record `meta`.
pub fn binary_info(meta: &BinaryMetadata) -> (info: BinaryInfo)
    ensures
        info.id == meta.id,
        info.path@ == meta.path@,
        info.size == meta.size,
        info.loaded_at == meta.loaded_at.secs_since_epoch,
{
    BinaryInfo {
        id: meta.id,
        path: meta.path.clone(),
        size: meta.size,
        loaded_at: meta.loaded_at.secs_since_epoch,
    }
}

impl Response {
    /// The response to a load.
    pub fn of_load(outcome: Result<LoadBinaryResponse, HostError>) -> (response: Self)
        ensures
            match outcome {
                Ok(loaded) => response == Response::LoadBinary(Ok(loaded)),
                Err(e) => response matches Response::LoadBinary(Err(text)) && text@ == e.text(),
            },
    {
        match outcome {
            Ok(loaded) => Response::LoadBinary(Ok(loaded)),
            Err(e) => Response::LoadBinary(Err(e.message())),
        }
    }

    /// The response to a call.
    pub fn of_execute(outcome: Result<ExecutionResult, HostError>) -> (response: Self)
        ensures
            match outcome {
                Ok(result) => response == Response::Execute(Ok(ExecuteResponse { result })),
                Err(e) => response matches Response::Execute(Err(text)) && text@ == e.text(),
            },
    {
        match outcome {
            Ok(result) => Response::Execute(Ok(ExecuteResponse { result })),
            Err(e) => Response::Execute(Err(e.message())),
        }
    }

    /// The response to a chain.
    pub fn of_chain(outcome: Result<Vec<ExecutionResult>, HostError>) -> (response: Self)
        ensures
            match outcome {
                Ok(results) => response == Response::ExecuteChain(
                    Ok(ExecuteChainResponse { results }),
                ),
                Err(e) => response matches Response::ExecuteChain(Err(text)) && text@ == e.text(),
            },
    {
        match outcome {
            Ok(results) => Response::ExecuteChain(Ok(ExecuteChainResponse { results })),
            Err(e) => Response::ExecuteChain(Err(e.message())),
        }
    }

    /// The response to an unload.
    pub fn of_unload(outcome: Result<UnloadBinaryResponse, HostError>) -> (response: Self)
        ensures
            match outcome {
                Ok(done) => response == Response::UnloadBinary(Ok(done)),
                Err(e) => response matches Response::UnloadBinary(Err(text)) && text@ == e.text(),
            },
    {
        match outcome {
            Ok(done) => Response::UnloadBinary(Ok(done)),
            Err(e) => Response::UnloadBinary(Err(e.message())),
        }
    }
}

} // verus!
