//! The contract between the host and a plugin: the size of guest memory, the
//! place of the input and of the environment in it, the arguments of
//! `process`, the `log` import with its per-call buffer, and the environment
//! JSON.

use vstd::prelude::*;
use vstd::slice::slice_subrange;
use vstd::string::StringExecFns;
use vstd::utf8::{decode_utf8, valid_utf8};
use crate::config::ExecutionConfig;
use crate::decimal::signed_decimal;
use crate::error::{Fault, HostError};

verus! {

/// Name of the memory that a plugin exports.
pub const MEMORY_EXPORT: &'static str = "memory";

/// Name of the entry point that a plugin exports.
pub const PROCESS_EXPORT: &'static str = "process";

/// Module name of the host's imports.
pub const HOST_MODULE: &'static str = "host";

/// Name of the log import.
pub const LOG_IMPORT: &'static str = "log";

/// Bytes in one page of linear memory.
pub const PAGE_BYTES: u64 = 65536;

/// Bytes in one MiB.
pub const MIB_BYTES: u64 = 1048576;

/// The size in MiB, rounded down, of a linear memory of `pages` pages.
pub open spec fn size_in_mib(pages: u64) -> int {
    (pages * PAGE_BYTES) / (MIB_BYTES as int)
}

/// Whether a linear memory of `pages` pages is above the limit of `config`:
/// whether it has more bytes than the limit allows. Nothing is rounded.
pub open spec fn exceeds_limit(pages: u64, config: ExecutionConfig) -> bool {
    pages * PAGE_BYTES > config.memory_limit_mb * MIB_BYTES
}

/// Tells whether a linear memory of `pages` pages is above the limit of
/// `config`.
pub fn over_limit(pages: u64, config: &ExecutionConfig) -> (over: bool)
    ensures
        over == exceeds_limit(pages, *config),
{
    let whole = pages / 16;
    whole > config.memory_limit_mb || (whole == config.memory_limit_mb && pages % 16 != 0)
}

/// The size in MiB that the error of a memory above the limit tells: the
/// size in whole MiB where that is above the limit; one more than the limit
/// where only a fraction of a MiB is above it.
pub open spec fn reported_size(pages: u64, config: ExecutionConfig) -> int {
    if size_in_mib(pages) > config.memory_limit_mb {
        size_in_mib(pages)
    } else {
        config.memory_limit_mb + 1
    }
}

/// Computes the size that the error of a memory above the limit tells.
pub fn size_over_limit(pages: u64, config: &ExecutionConfig) -> (mb: u64)
    requires
        exceeds_limit(pages, *config),
    ensures
        mb == reported_size(pages, *config),
{
    let whole = pages / 16;
    if whole > config.memory_limit_mb {
        whole
    } else {
        config.memory_limit_mb + 1
    }
}

/// Computes the size in MiB of a linear memory of `pages` pages.
pub fn memory_size_mb(pages: u64) -> (mb: u64)
    ensures
        mb == size_in_mib(pages),
{
    pages / 16
}

/// The 32-bit word that the guest receives for the number `n`: the low 32
/// bits of `n`, read as a signed integer.
pub open spec fn guest_word(n: nat) -> int {
    let low = (n % 0x1_0000_0000) as int;
    if low < 0x8000_0000 {
        low
    } else {
        low - 0x1_0000_0000
    }
}

/// Computes the word that the guest receives for `n`.
pub fn to_guest_word(n: usize) -> (word: i32)
    ensures
        word == guest_word(n as nat),
{
    let low: u64 = (n as u64) % 0x1_0000_0000;
    if low < 0x8000_0000 {
        low as i32
    } else {
        (low as i64 - 0x1_0000_0000) as i32
    }
}

/// The arguments of one call of `process`.
#[derive(Debug, Clone, Copy, PartialEq, Eq, Structural)]
pub struct ProcessArgs {
    pub input_ptr: i32,
    pub input_len: i32,
    pub env_ptr: i32,
    pub env_len: i32,
}

/// The arguments for an input of `input_len` bytes at offset 0 and an
/// environment of `env_len` bytes directly behind it.
pub open spec fn args_for(input_len: nat, env_len: nat) -> ProcessArgs {
    ProcessArgs {
        input_ptr: 0,
        input_len: guest_word(input_len) as i32,
        env_ptr: guest_word(input_len) as i32,
        env_len: guest_word(env_len) as i32,
    }
}

/// Computes the arguments of `process`.
pub fn process_args(input_len: usize, env_len: usize) -> (args: ProcessArgs)
    ensures
        args == args_for(input_len as nat, env_len as nat),
{
    let at = to_guest_word(input_len);
    ProcessArgs { input_ptr: 0, input_len: at, env_ptr: at, env_len: to_guest_word(env_len) }
}

/// The lines `ls` joined by single line feeds, with none at the end.
pub open spec fn join_lines(ls: Seq<Seq<char>>) -> Seq<char>
    decreases ls.len(),
{
    if ls.len() == 0 {
        Seq::empty()
    } else if ls.len() == 1 {
        ls[0]
    } else {
        join_lines(ls.drop_last()) + seq!['\n'] + ls.last()
    }
}

/// Why a call of the log import failed.
#[derive(Debug, Clone, Copy, PartialEq, Eq, Structural)]
pub enum LogFault {
    /// The pointer and length do not name bytes of the guest's memory.
    OutOfBounds,
    /// The bytes named are not UTF-8.
    InvalidUtf8,
}

/// The log buffer of one call: the messages of the guest, in order.
#[derive(Debug)]
pub struct LogBuffer {
    lines: Vec<String>,
}

impl View for LogBuffer {
    type V = Seq<Seq<char>>;

    closed spec fn view(&self) -> Seq<Seq<char>> {
        Seq::new(self.lines@.len(), |i: int| self.lines@[i]@)
    }
}

/// Whether `ptr` and `len` name a range inside a memory of `size` bytes.
pub open spec fn names_range(ptr: i32, len: i32, size: nat) -> bool {
    0 <= ptr && 0 <= len && ptr + len <= size
}

/// The bytes of `memory` that `ptr` and `len` name.
pub open spec fn named_bytes(memory: Seq<u8>, ptr: i32, len: i32) -> Seq<u8> {
    memory.subrange(ptr as int, ptr + len)
}

/// `core::str::from_utf8`: succeeds exactly on valid UTF-8, and then gives
/// the text that the bytes encode.
#[verifier::external_body]
fn utf8_text(bytes: &[u8]) -> (text: Option<&str>)
    ensures
        text is Some <==> valid_utf8(bytes@),
        text matches Some(s) ==> s@ == decode_utf8(bytes@),
{
    match core::str::from_utf8(bytes) {
        Ok(s) => Some(s),
        Err(_) => None,
    }
}

impl LogBuffer {
    /// An empty buffer.
    pub fn new() -> (buffer: Self)
        ensures
            buffer@ == Seq::<Seq<char>>::empty(),
    {
        let buffer = LogBuffer { lines: Vec::new() };
        assert(buffer@ =~= Seq::<Seq<char>>::empty());
        buffer
    }

    /// The number of messages.
    pub fn len(&self) -> (n: usize)
        ensures
            n == self@.len(),
    {
        self.lines.len()
    }

    /// Message `i`.
    pub fn line(&self, i: usize) -> (text: &str)
        requires
            i < self@.len(),
        ensures
            text@ == self@[i as int],
    {
        self.lines[i].as_str()
    }

    /// Appends the message that `bytes` encode; refuses bytes that are not
    /// UTF-8 and then leaves the buffer as it was.
    pub fn record(&mut self, bytes: &[u8]) -> (done: Result<(), LogFault>)
        ensures
            valid_utf8(bytes@) ==> done is Ok && final(self)@ == old(self)@.push(
                decode_utf8(bytes@),
            ),
            !valid_utf8(bytes@) ==> done == Err::<(), LogFault>(LogFault::InvalidUtf8)
                && final(self)@ == old(self)@,
    {
        match utf8_text(bytes) {
            Some(text) => {
                let ghost before = self@;
                self.lines.push(String::from_str(text));
                assert(self@ =~= before.push(decode_utf8(bytes@)));
                Ok(())
            },
            None => Err(LogFault::InvalidUtf8),
        }
    }

    /// The messages joined by line feeds: the output of the call.
    pub fn output(&self) -> (text: String)
        ensures
            text@ == join_lines(self@),
    {
        let mut text = String::new();
        let count = self.lines.len();
        let mut i: usize = 0;
        while i < count
            invariant
                count == self.lines@.len(),
                i <= count,
                text@ == join_lines(self@.take(i as int)),
            decreases count - i,
        {
            let ghost done = self@.take(i as int);
            let ghost next = self@.take(i + 1);
            proof {
                reveal_strlit("\n");
                assert(next.drop_last() =~= done);
                assert(next.last() == self.lines@[i as int]@);
            }
            if i > 0 {
                text.append("\n");
                assert("\n"@ =~= seq!['\n']);
            } else {
                assert(text@ =~= Seq::<char>::empty());
                assert(text@ + next.last() =~= next[0]);
            }
            text.append(self.lines[i].as_str());
            i += 1;
        }
        assert(self@.take(count as int) =~= self@);
        text
    }
}

/// The log import. Copies the `len` bytes at `ptr` out of the guest's
/// `memory`, checks that they are UTF-8 and appends the message to `buffer`.
/// A range outside the memory, or bytes that are not UTF-8, fail the call
/// and leave the buffer as it was.
pub fn host_log(buffer: &mut LogBuffer, memory: &[u8], ptr: i32, len: i32) -> (done: Result<
    (),
    LogFault,
>)
    ensures
        !names_range(ptr, len, memory@.len()) ==> done == Err::<(), LogFault>(
            LogFault::OutOfBounds,
        ) && final(buffer)@ == old(buffer)@,
        names_range(ptr, len, memory@.len()) && !valid_utf8(named_bytes(memory@, ptr, len))
            ==> done == Err::<(), LogFault>(LogFault::InvalidUtf8)
            && final(buffer)@ == old(buffer)@,
        names_range(ptr, len, memory@.len()) && valid_utf8(named_bytes(memory@, ptr, len))
            ==> done is Ok && final(buffer)@ == old(buffer)@.push(
            decode_utf8(named_bytes(memory@, ptr, len)),
        ),
{
    if ptr < 0 || len < 0 {
        return Err(LogFault::OutOfBounds);
    }
    let start = ptr as usize;
    let width = len as usize;
    let size = memory.len();
    if start > size || width > size - start {
        return Err(LogFault::OutOfBounds);
    }
    let bytes = slice_subrange(memory, start, start + width);
    buffer.record(bytes)
}

/// The environment JSON for a timestamp and a seed: a compact object with
/// the keys `random_seed` and `timestamp`, in this order.
pub open spec fn env_text(timestamp: i64, random_seed: i64) -> Seq<char> {
    "{\"random_seed\":"@ + signed_decimal(random_seed as int) + ",\"timestamp\":"@
        + signed_decimal(timestamp as int) + "}"@
}

/// Key of the seed in the environment.
pub const SEED_KEY: &'static str = "random_seed";

/// Key of the timestamp in the environment.
pub const TIMESTAMP_KEY: &'static str = "timestamp";

/// Whether `c` may stand in a plain key: a Latin letter, a digit or `_`.
pub open spec fn plain_char(c: char) -> bool {
    ('a' <= c && c <= 'z') || ('A' <= c && c <= 'Z') || ('0' <= c && c <= '9') || c == '_'
}

/// Whether `key` is made of plain characters alone, so that JSON writes it
/// between quotes as it is.
pub open spec fn plain_key(key: Seq<char>) -> bool {
    forall|i: int| 0 <= i < key.len() ==> plain_char(#[trigger] key[i])
}

/// Whether `a` comes before `b` in the order of strings: at the first
/// position where they differ `a` has the lesser character, or `a` is a
/// proper prefix of `b`.
pub open spec fn precedes(a: Seq<char>, b: Seq<char>) -> bool {
    ||| exists|i: int|
        0 <= i < a.len() && i < b.len() && #[trigger] a.take(i) == b.take(i) && (a[i] as u32) < (
        b[i] as u32)
    ||| a.len() < b.len() && b.take(a.len() as int) == a
}

/// The compact JSON object of two numbers under two keys.
pub open spec fn pair_text(first_key: Seq<char>, first: i64, second_key: Seq<char>, second: i64) -> Seq<
    char,
> {
    "{\""@ + first_key + "\":"@ + signed_decimal(first as int) + ",\""@ + second_key + "\":"@
        + signed_decimal(second as int) + "}"@
}

/// `serde_json::to_string` on a `serde_json::Map` that holds the two numbers
/// under the two keys. The map keeps its keys in the order of strings, so the
/// key that comes first in that order is written first; plain keys are
/// written as they are; the output is compact and the numbers are in decimal.
/// It cannot fail on this map: the writer is a vector, the keys are strings
/// and the values are integers.
#[verifier::external_body]
fn serialize_pair(first_key: &str, first: i64, second_key: &str, second: i64) -> (json: Option<String>)
    requires
        plain_key(first_key@),
        plain_key(second_key@),
        precedes(first_key@, second_key@),
    ensures
        json is Some,
        json matches Some(text) ==> text@ == pair_text(first_key@, first, second_key@, second),
{
    let mut object = serde_json::Map::new();
    object.insert(first_key.to_string(), serde_json::Value::from(first));
    object.insert(second_key.to_string(), serde_json::Value::from(second));
    match serde_json::to_string(&object) {
        Ok(text) => Some(text),
        Err(_) => None,
    }
}

/// `rand::random::<i64>`: a random number, of which nothing is claimed.
#[verifier::external_body]
fn random_seed() -> i64 {
    rand::random::<i64>()
}

/// The environment JSON for a timestamp in nanoseconds since the epoch and a
/// seed.
pub fn env_json(timestamp: i64, random_seed: i64) -> (json: Result<String, HostError>)
    ensures
        json is Ok,
        json matches Ok(text) ==> text@ == env_text(timestamp, random_seed),
{
    proof {
        reveal_strlit("random_seed");
        reveal_strlit("timestamp");
        reveal_strlit("{\"");
        reveal_strlit("\":");
        reveal_strlit(",\"");
        reveal_strlit("}");
        reveal_strlit("{\"random_seed\":");
        reveal_strlit(",\"timestamp\":");
        let seed_key = SEED_KEY@;
        let time_key = TIMESTAMP_KEY@;
        assert(plain_key(seed_key));
        assert(plain_key(time_key));
        assert(seed_key.take(0) =~= time_key.take(0));
        assert(precedes(seed_key, time_key));
        assert("{\""@ + seed_key + "\":"@ =~= "{\"random_seed\":"@);
        assert(",\""@ + time_key + "\":"@ =~= ",\"timestamp\":"@);
        assert(pair_text(seed_key, random_seed, time_key, timestamp) =~= env_text(
            timestamp,
            random_seed,
        ));
    }
    match serialize_pair(SEED_KEY, random_seed, TIMESTAMP_KEY, timestamp) {
        Some(text) => Ok(text),
        None => Err(HostError::Execution(Fault::EnvJson)),
    }
}

/// The environment JSON of a new call: the given timestamp and a seed drawn
/// at random.
pub fn fresh_env_json(timestamp: i64) -> (json: Result<String, HostError>)
    ensures
        json is Ok,
        json matches Ok(text) ==> exists|seed: i64| text@ == env_text(timestamp, seed),
{
    let seed = random_seed();
    env_json(timestamp, seed)
}

} // verus!
