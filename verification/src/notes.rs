//! What a trace records of each step of a call: the kind of event, its text
//! and its numbers.

use vstd::prelude::*;
use vstd::string::StringExecFns;
use crate::abi::{memory_size_mb, size_in_mib};
use crate::decimal::{append_number, append_signed, decimal, signed_decimal};
use crate::execution::{Execution, HostEvent, Phase, byte_len, fuel_left};
use crate::tracer::{TraceEventType, TraceField};

verus! {

/// What is recorded of one step.
#[derive(Debug)]
pub struct TraceNote {
    pub event_type: TraceEventType,
    pub message: String,
    pub fields: Vec<TraceField>,
}

/// The mathematical value of a note.
pub struct NoteView {
    pub event_type: TraceEventType,
    pub message: Seq<char>,
    pub fields: Seq<(Seq<char>, int)>,
}

/// The names and numbers of `fields`.
pub open spec fn fields_view(fields: Seq<TraceField>) -> Seq<(Seq<char>, int)> {
    Seq::new(fields.len(), |i: int| (fields[i].name@, fields[i].value as int))
}

impl View for TraceNote {
    type V = NoteView;

    open spec fn view(&self) -> NoteView {
        NoteView {
            event_type: self.event_type,
            message: self.message@,
            fields: fields_view(self.fields@),
        }
    }
}

/// The fuel that a call has consumed when `reported` is left; the whole
/// budget where more is reported than the budget.
pub open spec fn fuel_used(limit: u64, reported: Option<u64>) -> int {
    if fuel_left(reported) > limit {
        limit as int
    } else {
        limit - fuel_left(reported)
    }
}

/// What is recorded when `event` ends the pending step of `call`; none where
/// the step failed, timed out or was not pending.
pub open spec fn note_for(call: Execution, event: HostEvent) -> Option<NoteView> {
    match (call.phase, event) {
        (Phase::SettingFuel, HostEvent::Done) => Some(
            NoteView {
                event_type: TraceEventType::FuelCheckpoint,
                message: "Fuel limit set: "@ + decimal(call.fuel_limit as nat),
                fields: seq![("fuel_limit"@, call.fuel_limit as int)],
            },
        ),
        (Phase::Instantiating, HostEvent::Done) => Some(
            NoteView {
                event_type: TraceEventType::FunctionCall,
                message: "Module instantiated successfully"@,
                fields: Seq::empty(),
            },
        ),
        (Phase::ResolvingMemory, HostEvent::MemoryPages { pages }) => Some(
            NoteView {
                event_type: TraceEventType::MemoryOp,
                message: "Memory size: "@ + decimal(size_in_mib(pages) as nat) + " MB"@,
                fields: seq![
                    ("memory_size_mb"@, size_in_mib(pages)),
                    ("memory_limit_mb"@, call.config.memory_limit_mb as int),
                ],
            },
        ),
        (Phase::WritingInput, HostEvent::Done) => Some(
            NoteView {
                event_type: TraceEventType::MemoryOp,
                message: "Input written to memory: "@ + decimal(byte_len(call.input@) as nat)
                    + " bytes"@,
                fields: seq![("input_bytes"@, byte_len(call.input@) as int)],
            },
        ),
        (Phase::WritingEnv, HostEvent::Done) => Some(
            NoteView {
                event_type: TraceEventType::MemoryOp,
                message: "Environment written to memory: "@ + decimal(
                    byte_len(call.env_json@) as nat,
                ) + " bytes"@,
                fields: seq![("env_bytes"@, byte_len(call.env_json@) as int)],
            },
        ),
        (Phase::ResolvingProcess, HostEvent::Done) => Some(
            NoteView {
                event_type: TraceEventType::FunctionCall,
                message: "Calling 'process' function"@,
                fields: seq![
                    ("input_ptr"@, 0int),
                    ("input_len"@, byte_len(call.input@) as int),
                    ("env_ptr"@, byte_len(call.input@) as int),
                    ("env_len"@, byte_len(call.env_json@) as int),
                ],
            },
        ),
        (Phase::Running, HostEvent::Returned { status, fuel_remaining, .. }) => Some(
            NoteView {
                event_type: TraceEventType::FuelCheckpoint,
                message: "Execution completed with return code: "@ + signed_decimal(status as int),
                fields: seq![
                    ("return_code"@, status as int),
                    ("fuel_consumed"@, fuel_used(call.fuel_limit, fuel_remaining)),
                    ("fuel_remaining"@, fuel_left(fuel_remaining) as int),
                ],
            },
        ),
        _ => None,
    }
}

fn field(name: &str, value: i128) -> (made: TraceField)
    ensures
        made.name@ == name@,
        made.value == value,
{
    TraceField { name: String::from_str(name), value }
}

/// The note of the step of `call` that `event` ends. It is taken before the
/// call takes the event.
pub fn step_note(call: &Execution, event: &HostEvent) -> (noted: Option<TraceNote>)
    ensures
        noted is Some <==> note_for(*call, *event) is Some,
        noted matches Some(note) ==> note@ == note_for(*call, *event)->0,
{
    match (call.phase, event) {
        (Phase::SettingFuel, HostEvent::Done) => {
            let mut message = String::from_str("Fuel limit set: ");
            append_number(&mut message, call.fuel_limit);
            let mut fields: Vec<TraceField> = Vec::new();
            fields.push(field("fuel_limit", call.fuel_limit as i128));
            let note = TraceNote { event_type: TraceEventType::FuelCheckpoint, message, fields };
            assert(note@.fields =~= note_for(*call, *event)->0.fields);
            Some(note)
        },
        (Phase::Instantiating, HostEvent::Done) => {
            let note = TraceNote {
                event_type: TraceEventType::FunctionCall,
                message: String::from_str("Module instantiated successfully"),
                fields: Vec::new(),
            };
            assert(note@.fields =~= note_for(*call, *event)->0.fields);
            Some(note)
        },
        (Phase::ResolvingMemory, HostEvent::MemoryPages { pages }) => {
            let size = memory_size_mb(*pages);
            let mut message = String::from_str("Memory size: ");
            append_number(&mut message, size);
            message.append(" MB");
            let mut fields: Vec<TraceField> = Vec::new();
            fields.push(field("memory_size_mb", size as i128));
            fields.push(field("memory_limit_mb", call.config.memory_limit_mb as i128));
            let note = TraceNote { event_type: TraceEventType::MemoryOp, message, fields };
            assert(note@.fields =~= note_for(*call, *event)->0.fields);
            Some(note)
        },
        (Phase::WritingInput, HostEvent::Done) => {
            let n = call.input.as_str().len();
            let mut message = String::from_str("Input written to memory: ");
            append_number(&mut message, n as u64);
            message.append(" bytes");
            let mut fields: Vec<TraceField> = Vec::new();
            fields.push(field("input_bytes", n as i128));
            let note = TraceNote { event_type: TraceEventType::MemoryOp, message, fields };
            assert(note@.fields =~= note_for(*call, *event)->0.fields);
            Some(note)
        },
        (Phase::WritingEnv, HostEvent::Done) => {
            let n = call.env_json.as_str().len();
            let mut message = String::from_str("Environment written to memory: ");
            append_number(&mut message, n as u64);
            message.append(" bytes");
            let mut fields: Vec<TraceField> = Vec::new();
            fields.push(field("env_bytes", n as i128));
            let note = TraceNote { event_type: TraceEventType::MemoryOp, message, fields };
            assert(note@.fields =~= note_for(*call, *event)->0.fields);
            Some(note)
        },
        (Phase::ResolvingProcess, HostEvent::Done) => {
            let input_len = call.input.as_str().len();
            let env_len = call.env_json.as_str().len();
            let mut fields: Vec<TraceField> = Vec::new();
            fields.push(field("input_ptr", 0));
            fields.push(field("input_len", input_len as i128));
            fields.push(field("env_ptr", input_len as i128));
            fields.push(field("env_len", env_len as i128));
            let note = TraceNote {
                event_type: TraceEventType::FunctionCall,
                message: String::from_str("Calling 'process' function"),
                fields,
            };
            assert(note@.fields =~= note_for(*call, *event)->0.fields);
            Some(note)
        },
        (Phase::Running, HostEvent::Returned { status, fuel_remaining, .. }) => {
            let left = match fuel_remaining {
                Some(left) => *left,
                None => 0,
            };
            let used = if left > call.fuel_limit {
                call.fuel_limit
            } else {
                call.fuel_limit - left
            };
            let mut message = String::from_str("Execution completed with return code: ");
            append_signed(&mut message, *status as i64);
            let mut fields: Vec<TraceField> = Vec::new();
            fields.push(field("return_code", *status as i128));
            fields.push(field("fuel_consumed", used as i128));
            fields.push(field("fuel_remaining", left as i128));
            let note = TraceNote { event_type: TraceEventType::FuelCheckpoint, message, fields };
            assert(note@.fields =~= note_for(*call, *event)->0.fields);
            Some(note)
        },
        _ => None,
    }
}

} // verus!
