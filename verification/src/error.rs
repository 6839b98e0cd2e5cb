//! The errors of the host, by kind, and the text that each shows to a caller.

use vstd::prelude::*;
use vstd::string::StringExecFns;
use crate::decimal::{append_number, decimal};
use crate::ident::{id_string, id_text};

verus! {

/// The kinds of error that the host tells apart.
#[derive(Debug, Clone, Copy, PartialEq, Eq, Structural)]
pub enum ErrorKind {
    /// An identifier is absent from the registry.
    NotFound,
    /// A file could not be read or written.
    Io,
    /// The bytes are not a module that the engine accepts.
    Compile,
    /// The module compiled but could not be linked.
    Instantiation,
    /// The module lacks an export that the host calls.
    Abi,
    /// The initial linear memory is larger than the caller allows.
    MemoryLimitExceeded,
    /// The wall-clock budget ran out.
    Timeout,
    /// A fault while the guest ran, or while the host prepared the run.
    ExecutionError,
    /// A request could not be framed or parsed.
    Transport,
}

/// What went wrong in a run that ended in an execution error.
#[derive(Debug, Clone)]
pub enum Fault {
    /// The guest trapped: a runtime trap, exhausted fuel, or a failed host
    /// call such as a log message that is not UTF-8.
    Trap,
    /// The engine refused the fuel budget; `detail` is its reason.
    FuelRejected { detail: String },
    /// The input could not be written into guest memory.
    InputWrite,
    /// The environment could not be written into guest memory.
    EnvWrite,
    /// The environment could not be put into JSON.
    EnvJson,
    /// The engine reported more fuel left than the budget it was given.
    FuelAccounting,
    /// The engine answered a step that was not pending.
    Unexpected,
}

/// An error of the host.
#[derive(Debug, Clone)]
pub enum HostError {
    /// No binary with this identifier is loaded.
    NotFound { id: u128 },
    /// The file at `path` could not be read.
    Read { path: String },
    /// The snapshot of the registry could not be read.
    SnapshotRead,
    /// The snapshot of the registry could not be written.
    SnapshotWrite,
    /// The bytes were rejected by the compiler.
    Compile,
    /// The module could not be instantiated; `detail` is the engine's reason.
    Instantiation { detail: String },
    /// The module does not export a memory named `memory`.
    MissingMemory,
    /// The module does not export `process` with the required signature.
    MissingProcess,
    /// The initial memory of `size_mb` MiB is above the limit of `limit_mb`.
    MemoryLimitExceeded { size_mb: u64, limit_mb: u64 },
    /// The wall-clock budget ran out.
    Timeout,
    /// The run failed.
    Execution(Fault),
    /// A request could not be parsed; `detail` is the parser's reason.
    Transport { detail: String },
}

impl Fault {
    /// The text of the fault.
    pub open spec fn text(self) -> Seq<char> {
        match self {
            Fault::Trap => "Plugin execution failed"@,
            Fault::FuelRejected { detail } => detail@,
            Fault::InputWrite => "Failed to write input to memory"@,
            Fault::EnvWrite => "Failed to write env JSON to memory"@,
            Fault::EnvJson => "Failed to generate environment JSON"@,
            Fault::FuelAccounting => "Fuel remaining exceeds the fuel limit"@,
            Fault::Unexpected => "Unexpected answer from the engine"@,
        }
    }

    /// Writes the fault as text.
    pub fn message(&self) -> (text: String)
        ensures
            text@ == self.text(),
    {
        match self {
            Fault::Trap => String::from_str("Plugin execution failed"),
            Fault::FuelRejected { detail } => detail.clone(),
            Fault::InputWrite => String::from_str("Failed to write input to memory"),
            Fault::EnvWrite => String::from_str("Failed to write env JSON to memory"),
            Fault::EnvJson => String::from_str("Failed to generate environment JSON"),
            Fault::FuelAccounting => String::from_str("Fuel remaining exceeds the fuel limit"),
            Fault::Unexpected => String::from_str("Unexpected answer from the engine"),
        }
    }
}

impl HostError {
    /// The kind of the error.
    pub open spec fn spec_kind(&self) -> ErrorKind {
        match *self {
            HostError::NotFound { .. } => ErrorKind::NotFound,
            HostError::Read { .. } => ErrorKind::Io,
            HostError::SnapshotRead => ErrorKind::Io,
            HostError::SnapshotWrite => ErrorKind::Io,
            HostError::Compile => ErrorKind::Compile,
            HostError::Instantiation { .. } => ErrorKind::Instantiation,
            HostError::MissingMemory => ErrorKind::Abi,
            HostError::MissingProcess => ErrorKind::Abi,
            HostError::MemoryLimitExceeded { .. } => ErrorKind::MemoryLimitExceeded,
            HostError::Timeout => ErrorKind::Timeout,
            HostError::Execution(_) => ErrorKind::ExecutionError,
            HostError::Transport { .. } => ErrorKind::Transport,
        }
    }

    /// The kind of the error.
    #[verifier::when_used_as_spec(spec_kind)]
    pub fn kind(&self) -> (kind: ErrorKind)
        ensures
            kind == self.spec_kind(),
    {
        match self {
            HostError::NotFound { .. } => ErrorKind::NotFound,
            HostError::Read { .. } => ErrorKind::Io,
            HostError::SnapshotRead => ErrorKind::Io,
            HostError::SnapshotWrite => ErrorKind::Io,
            HostError::Compile => ErrorKind::Compile,
            HostError::Instantiation { .. } => ErrorKind::Instantiation,
            HostError::MissingMemory => ErrorKind::Abi,
            HostError::MissingProcess => ErrorKind::Abi,
            HostError::MemoryLimitExceeded { .. } => ErrorKind::MemoryLimitExceeded,
            HostError::Timeout => ErrorKind::Timeout,
            HostError::Execution(_) => ErrorKind::ExecutionError,
            HostError::Transport { .. } => ErrorKind::Transport,
        }
    }

    /// The text of the error.
    pub open spec fn text(self) -> Seq<char> {
        match self {
            HostError::NotFound { id } => "Binary not found: "@ + id_text(id),
            HostError::Read { path } => "Failed to read WASM file: "@ + path@,
            HostError::SnapshotRead => "Failed to read metadata file"@,
            HostError::SnapshotWrite => "Failed to write metadata file"@,
            HostError::Compile => "Failed to compile WASM module"@,
            HostError::Instantiation { detail } => "Failed to instantiate module: "@ + detail@
                + ". Check that all required imports are satisfied."@,
            HostError::MissingMemory => "Plugin must export 'memory'"@,
            HostError::MissingProcess => "Plugin must export 'process(i32, i32, i32, i32) -> i32'"@,
            HostError::MemoryLimitExceeded { size_mb, limit_mb } => "Memory limit exceeded: "@
                + decimal(size_mb as nat) + " MB > "@ + decimal(limit_mb as nat) + " MB"@,
            HostError::Timeout => "Execution timeout"@,
            HostError::Execution(fault) => fault.text(),
            HostError::Transport { detail } => "Invalid command: "@ + detail@,
        }
    }

    /// Writes the error as the text that a caller is shown.
    pub fn message(&self) -> (text: String)
        ensures
            text@ == self.text(),
    {
        match self {
            HostError::NotFound { id } => {
                let mut text = String::from_str("Binary not found: ");
                let shown = id_string(*id);
                text.append(shown.as_str());
                text
            },
            HostError::Read { path } => {
                let mut text = String::from_str("Failed to read WASM file: ");
                text.append(path.as_str());
                text
            },
            HostError::SnapshotRead => String::from_str("Failed to read metadata file"),
            HostError::SnapshotWrite => String::from_str("Failed to write metadata file"),
            HostError::Compile => String::from_str("Failed to compile WASM module"),
            HostError::Instantiation { detail } => {
                let mut text = String::from_str("Failed to instantiate module: ");
                text.append(detail.as_str());
                text.append(". Check that all required imports are satisfied.");
                text
            },
            HostError::MissingMemory => String::from_str("Plugin must export 'memory'"),
            HostError::MissingProcess => String::from_str(
                "Plugin must export 'process(i32, i32, i32, i32) -> i32'",
            ),
            HostError::MemoryLimitExceeded { size_mb, limit_mb } => {
                let mut text = String::from_str("Memory limit exceeded: ");
                append_number(&mut text, *size_mb);
                text.append(" MB > ");
                append_number(&mut text, *limit_mb);
                text.append(" MB");
                text
            },
            HostError::Timeout => String::from_str("Execution timeout"),
            HostError::Execution(fault) => fault.message(),
            HostError::Transport { detail } => {
                let mut text = String::from_str("Invalid command: ");
                text.append(detail.as_str());
                text
            },
        }
    }
}

} // verus!
