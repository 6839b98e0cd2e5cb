//! The binary registry: the loaded binaries keyed by identifier, with a load
//! that reuses the identifier of a path that is loaded already, and the
//! snapshot from which a registry is restored.

use vstd::prelude::*;
use vstd::string::StringExecFns;
use dashmap::DashMap;
use wasmtime::{Engine, Module};
use crate::error::HostError;
use crate::ident::fresh_id;

verus! {

/// `dashmap::DashMap`, the sharded map; nothing of its inside is known here.
#[verifier::external_type_specification]
#[verifier::external_body]
#[verifier::reject_recursive_types(K)]
#[verifier::reject_recursive_types(V)]
#[verifier::reject_recursive_types(S)]
pub struct ExDashMap<K, V, S>(DashMap<K, V, S>);

/// `wasmtime::Module`, a compiled module; it is carried, never read.
#[verifier::external_type_specification]
#[verifier::external_body]
pub struct ExModule(Module);

/// `wasmtime::Engine`, the compiler and runtime; it is carried, never read.
#[verifier::external_type_specification]
#[verifier::external_body]
pub struct ExEngine(Engine);

/// `wasmtime::Error`, the engine's error; only its presence is read.
#[verifier::external_type_specification]
#[verifier::external_body]
pub struct ExEngineError(wasmtime::Error);

/// A point in time: whole seconds since the epoch and the nanoseconds of the
/// second that has begun.
#[derive(Debug, Clone, Copy, PartialEq, Eq, Structural)]
pub struct Timestamp {
    pub secs_since_epoch: u64,
    pub nanos_since_epoch: u32,
}

/// What the registry records of a loaded binary.
#[derive(Debug, Clone)]
pub struct BinaryMetadata {
    pub id: u128,
    pub path: String,
    pub size: usize,
    pub loaded_at: Timestamp,
}

/// The mathematical value of a metadata record.
pub struct MetadataView {
    pub id: u128,
    pub path: Seq<char>,
    pub size: usize,
    pub loaded_at: Timestamp,
}

impl View for BinaryMetadata {
    type V = MetadataView;

    open spec fn view(&self) -> MetadataView {
        MetadataView { id: self.id, path: self.path@, size: self.size, loaded_at: self.loaded_at }
    }
}

/// A metadata record with the compiled module.
pub struct LoadedBinary {
    pub metadata: BinaryMetadata,
    pub module: Module,
}

/// The map of the registry.
pub type BinaryMap = DashMap<u128, LoadedBinary>;

/// The metadata that a map holds under each key.
pub uninterp spec fn held(map: BinaryMap) -> Map<u128, MetadataView>;

/// The compiled module that a map holds under each key.
pub uninterp spec fn modules_held(map: BinaryMap) -> Map<u128, Module>;

/// Whether the engine `engine` accepts `bytes` as a binary module.
pub uninterp spec fn compiles(engine: Engine, bytes: Seq<u8>) -> bool;

/// Whether `module` is what `engine` made of `bytes`. Two compilations of
/// the same bytes give two modules, and this holds of both.
pub uninterp spec fn compiled_from(module: Module, engine: Engine, bytes: Seq<u8>) -> bool;

/// The holdings of an empty map.
pub open spec fn nothing_held() -> Map<u128, MetadataView> {
    Map::empty()
}

/// The modules of an empty map.
pub open spec fn no_modules() -> Map<u128, Module> {
    Map::empty()
}

/// Whether `records` lists `holdings`: every record is held under its key,
/// no key comes twice, and every key that is held is listed.
pub open spec fn lists(records: Seq<(u128, BinaryMetadata)>, holdings: Map<u128, MetadataView>) -> bool {
    &&& forall|i: int|
        0 <= i < records.len() ==> holdings.dom().contains((#[trigger] records[i]).0)
            && holdings[records[i].0] == records[i].1@
    &&& forall|i: int, j: int|
        0 <= i < j < records.len() ==> (#[trigger] records[i]).0 != (#[trigger] records[j]).0
    &&& forall|k: u128|
        holdings.dom().contains(k) ==> exists|i: int|
            0 <= i < records.len() && (#[trigger] records[i]).0 == k
}

/// `DashMap::new`: a map that holds nothing.
#[verifier::external_body]
fn map_new() -> (made: BinaryMap)
    ensures
        held(made) == nothing_held(),
        modules_held(made) == no_modules(),
{
    DashMap::new()
}

/// `DashMap::insert`: afterwards the map holds `value` under `key` and is
/// otherwise as before. The value that was held before is dropped.
#[verifier::external_body]
fn map_insert(map: &mut BinaryMap, key: u128, value: LoadedBinary)
    ensures
        held(*final(map)) == held(*old(map)).insert(key, value.metadata@),
        modules_held(*final(map)) == modules_held(*old(map)).insert(key, value.module),
{
    map.insert(key, value);
}

/// `DashMap::get`, with the entry cloned out of its guard: finds exactly the
/// keys that are held, and gives what is held under the key. The clone of a
/// module is a second handle to the same compiled module.
#[verifier::external_body]
fn map_get(map: &BinaryMap, key: u128) -> (found: Option<LoadedBinary>)
    ensures
        found is Some <==> held(*map).dom().contains(key),
        found matches Some(binary) ==> binary.metadata@ == held(*map)[key],
        found matches Some(binary) ==> binary.module == modules_held(*map)[key],
{
    match map.get(&key) {
        Some(entry) => Some(
            LoadedBinary { metadata: entry.metadata.clone(), module: entry.module.clone() },
        ),
        None => None,
    }
}

/// `DashMap::remove`: tells whether `key` was held; afterwards it is not,
/// and the map is otherwise as before.
#[verifier::external_body]
fn map_remove(map: &mut BinaryMap, key: u128) -> (removed: bool)
    ensures
        removed == held(*old(map)).dom().contains(key),
        held(*final(map)) == held(*old(map)).remove(key),
        modules_held(*final(map)) == modules_held(*old(map)).remove(key),
{
    match map.remove(&key) {
        Some(_) => true,
        None => false,
    }
}

/// `DashMap::len`: the number of keys that are held.
#[verifier::external_body]
fn map_len(map: &BinaryMap) -> (n: usize)
    ensures
        n == held(*map).dom().len(),
{
    map.len()
}

/// `DashMap::iter`, each entry read as its key and a clone of its metadata.
/// Every entry comes once; the order is that of the map's shards and tables
/// and nothing is claimed of it.
#[verifier::external_body]
fn map_records(map: &BinaryMap) -> (records: Vec<(u128, BinaryMetadata)>)
    ensures
        lists(records@, held(*map)),
{
    map.iter().map(|entry| (*entry.key(), entry.value().metadata.clone())).collect()
}

/// `wasmtime::Module::from_binary`: compiles a binary module. Whether it
/// succeeds depends on the engine and the bytes alone, and that is named.
/// The module that it gives is one that this engine made of these bytes;
/// that it is the same module on every call is not claimed.
#[verifier::external_body]
fn compile(engine: &Engine, bytes: &[u8]) -> (made: Result<Module, wasmtime::Error>)
    ensures
        made is Ok <==> compiles(*engine, bytes@),
        made matches Ok(module) ==> compiled_from(module, *engine, bytes@),
{
    Module::from_binary(engine, bytes)
}

impl BinaryMetadata {
    /// A copy of the record.
    pub fn duplicate(&self) -> (copy: Self)
        ensures
            copy@ == self@,
    {
        BinaryMetadata {
            id: self.id,
            path: self.path.clone(),
            size: self.size,
            loaded_at: self.loaded_at,
        }
    }
}

/// The registry of loaded binaries.
pub struct BinaryRegistry {
    binaries: BinaryMap,
    engine: Engine,
}

impl View for BinaryRegistry {
    type V = Map<u128, MetadataView>;

    closed spec fn view(&self) -> Map<u128, MetadataView> {
        held(self.binaries)
    }
}

/// Whether `holdings` has a record with the path `path`.
pub open spec fn holds_path(holdings: Map<u128, MetadataView>, path: Seq<char>) -> bool {
    exists|k: u128| holdings.dom().contains(k) && (#[trigger] holdings[k]).path == path
}

/// Whether every record of `holdings` stands under its own identifier.
pub open spec fn keyed_by_id(holdings: Map<u128, MetadataView>) -> bool {
    forall|k: u128| holdings.dom().contains(k) ==> (#[trigger] holdings[k]).id == k
}

/// Whether `listing` is a snapshot of `holdings`: every record is held, none
/// comes twice, and all that is held is there.
pub open spec fn snapshot_of(listing: Seq<BinaryMetadata>, holdings: Map<u128, MetadataView>) -> bool {
    &&& forall|i: int|
        0 <= i < listing.len() ==> holdings.dom().contains((#[trigger] listing[i]).id)
            && holdings[listing[i].id] == listing[i]@
    &&& forall|i: int, j: int|
        0 <= i < j < listing.len() ==> (#[trigger] listing[i]).id != (#[trigger] listing[j]).id
    &&& forall|k: u128|
        holdings.dom().contains(k) ==> exists|i: int|
            0 <= i < listing.len() && (#[trigger] listing[i]).id == k
}

/// A record of a snapshot with the bytes of its file; none where the file
/// could not be read.
#[derive(Debug)]
pub struct SnapshotEntry {
    pub metadata: BinaryMetadata,
    pub contents: Option<Vec<u8>>,
}

/// The mathematical values of the records `listing`.
pub open spec fn views_of(listing: Seq<BinaryMetadata>) -> Seq<MetadataView> {
    Seq::new(listing.len(), |i: int| listing[i]@)
}

/// The mathematical values of the records of `entries`.
pub open spec fn records_of(entries: Seq<SnapshotEntry>) -> Seq<MetadataView> {
    Seq::new(entries.len(), |i: int| entries[i].metadata@)
}

/// The holdings `base` after the records `records` were put back, one after
/// another, each under its own identifier.
pub open spec fn restored(base: Map<u128, MetadataView>, records: Seq<MetadataView>) -> Map<
    u128,
    MetadataView,
>
    decreases records.len(),
{
    if records.len() == 0 {
        base
    } else {
        restored(base, records.drop_last()).insert(records.last().id, records.last())
    }
}

proof fn lemma_restored_prefix(listing: Seq<BinaryMetadata>, holdings: Map<u128, MetadataView>, n: int)
    requires
        snapshot_of(listing, holdings),
        0 <= n <= listing.len(),
    ensures
        forall|k: u128|
            restored(Map::empty(), views_of(listing).take(n)).dom().contains(k) <==> exists|i: int|
                0 <= i < n && (#[trigger] listing[i]).id == k,
        forall|k: u128|
            restored(Map::empty(), views_of(listing).take(n)).dom().contains(k) ==> restored(
                Map::empty(),
                views_of(listing).take(n),
            )[k] == holdings[k],
    decreases n,
{
    let records = views_of(listing);
    if n > 0 {
        lemma_restored_prefix(listing, holdings, n - 1);
        assert(records.take(n).drop_last() =~= records.take(n - 1));
        assert(records.take(n).last() == listing[n - 1]@);
        let before = restored(Map::empty(), records.take(n - 1));
        let after = restored(Map::empty(), records.take(n));
        assert(after == before.insert(listing[n - 1].id, listing[n - 1]@));
        assert forall|k: u128| after.dom().contains(k) implies exists|i: int|
            0 <= i < n && (#[trigger] listing[i]).id == k by {
            if k == listing[n - 1].id {
            } else {
                assert(before.dom().contains(k));
            }
        }
        assert forall|k: u128| (exists|i: int| 0 <= i < n && (#[trigger] listing[i]).id == k)
            implies after.dom().contains(k) by {
            let i = choose|i: int| 0 <= i < n && (#[trigger] listing[i]).id == k;
            if i < n - 1 {
                assert(before.dom().contains(k));
            }
        }
    }
}

/// Putting the records of a snapshot back into an empty registry gives the
/// holdings that the snapshot was taken of: identifiers, paths, sizes and
/// times of loading.
pub proof fn lemma_snapshot_restores(listing: Seq<BinaryMetadata>, holdings: Map<u128, MetadataView>)
    requires
        snapshot_of(listing, holdings),
    ensures
        restored(Map::empty(), views_of(listing)) == holdings,
{
    lemma_restored_prefix(listing, holdings, listing.len() as int);
    assert(views_of(listing).take(listing.len() as int) =~= views_of(listing));
    assert(restored(Map::empty(), views_of(listing)) =~= holdings);
}

/// After a load the identifier that it gave is listed, with the record that
/// was loaded.
pub proof fn lemma_loaded_is_listed(
    before: Map<u128, MetadataView>,
    id: u128,
    record: MetadataView,
    listing: Seq<BinaryMetadata>,
)
    requires
        snapshot_of(listing, before.insert(id, record)),
    ensures
        exists|i: int| 0 <= i < listing.len() && (#[trigger] listing[i]).id == id && listing[i]@
            == record,
{
    let after = before.insert(id, record);
    assert(after.dom().contains(id));
    let i = choose|i: int| 0 <= i < listing.len() && (#[trigger] listing[i]).id == id;
    assert(after[listing[i].id] == listing[i]@);
}

/// After an unload the identifier is neither held nor listed.
pub proof fn lemma_unloaded_is_gone(
    before: Map<u128, MetadataView>,
    id: u128,
    listing: Seq<BinaryMetadata>,
)
    requires
        snapshot_of(listing, before.remove(id)),
    ensures
        !before.remove(id).dom().contains(id),
        forall|i: int| 0 <= i < listing.len() ==> (#[trigger] listing[i]).id != id,
{
    assert forall|i: int| 0 <= i < listing.len() implies (#[trigger] listing[i]).id != id by {
        assert(before.remove(id).dom().contains(listing[i].id));
    }
}

/// Whether at most one record of `holdings` has the path `path`.
pub open spec fn path_is_unique(holdings: Map<u128, MetadataView>, path: Seq<char>) -> bool {
    forall|a: u128, b: u128|
        holdings.dom().contains(a) && holdings.dom().contains(b) && (#[trigger] holdings[a]).path
            == path && (#[trigger] holdings[b]).path == path ==> a == b
}

/// Loading the same path twice gives the same identifier, and the record
/// then shows the second load. This holds where at most one record had the
/// path before; `first` and `second` are the identifiers that the two loads
/// gave, `fresh` the ones that were drawn for them.
pub proof fn lemma_reload_keeps_id(
    before: Map<u128, MetadataView>,
    path: Seq<char>,
    first: u128,
    first_record: MetadataView,
    second: u128,
    second_record: MetadataView,
)
    requires
        keyed_by_id(before),
        path_is_unique(before, path),
        first_record.path == path,
        second_record.path == path,
        holds_path(before, path) ==> before.dom().contains(first) && before[first].path == path,
        ({
            let between = before.insert(first, first_record);
            holds_path(between, path) ==> between.dom().contains(second) && between[second].path
                == path
        }),
    ensures
        second == first,
        before.insert(first, first_record).insert(second, second_record)[first] == second_record,
{
    let between = before.insert(first, first_record);
    assert(between.dom().contains(first) && between[first].path == path);
    assert(holds_path(between, path));
    if second != first {
        assert(before.dom().contains(second) && before[second].path == path);
        assert(holds_path(before, path));
    }
}

/// A snapshot has as many records as there are holdings.
pub proof fn lemma_snapshot_len(listing: Seq<BinaryMetadata>, holdings: Map<u128, MetadataView>)
    requires
        snapshot_of(listing, holdings),
        holdings.dom().finite(),
    ensures
        listing.len() == holdings.dom().len(),
    decreases listing.len(),
{
    if listing.len() == 0 {
        assert(holdings.dom() =~= Set::<u128>::empty());
    } else {
        let last = listing.last();
        let rest = listing.drop_last();
        let fewer = holdings.remove(last.id);
        assert forall|k: u128| fewer.dom().contains(k) implies exists|i: int|
            0 <= i < rest.len() && (#[trigger] rest[i]).id == k by {
            let i = choose|i: int| 0 <= i < listing.len() && (#[trigger] listing[i]).id == k;
            assert(rest[i] == listing[i]);
        }
        assert forall|i: int| 0 <= i < rest.len() implies fewer.dom().contains(
            (#[trigger] rest[i]).id,
        ) && fewer[rest[i].id] == rest[i]@ by {
            assert(rest[i] == listing[i]);
            assert(listing[i].id != listing[listing.len() - 1].id);
        }
        assert(snapshot_of(rest, fewer));
        lemma_snapshot_len(rest, fewer);
        assert(holdings.dom().contains(last.id));
    }
}

/// Whether no entry after entry `k` and before `upto` has the identifier of
/// entry `k`.
pub open spec fn last_of_its_id(entries: Seq<SnapshotEntry>, k: int, upto: int) -> bool {
    forall|j: int| k < j < upto ==> (#[trigger] entries[j]).metadata.id != entries[k].metadata.id
}

/// Whether an entry before `upto` has the identifier `id`.
pub open spec fn names_id(entries: Seq<SnapshotEntry>, id: u128, upto: int) -> bool {
    exists|j: int| 0 <= j < upto && (#[trigger] entries[j]).metadata.id == id
}

/// Whether `now` holds under `id` what `before` held: the same module, or
/// none as before.
pub open spec fn module_kept(id: u128, now: Map<u128, Module>, before: Map<u128, Module>) -> bool {
    now.dom().contains(id) == before.dom().contains(id) && now[id] == before[id]
}

/// Whether the module that `modules` holds under the identifier of entry `k`
/// is one that `engine` made of the bytes of entry `k`.
pub open spec fn module_restored(
    entries: Seq<SnapshotEntry>,
    k: int,
    modules: Map<u128, Module>,
    engine: Engine,
) -> bool {
    compiled_from(modules[entries[k].metadata.id], engine, entries[k].contents->0@)
}

/// Whether module `i` of `compiled` is one that `engine` made of the bytes
/// of entry `i + offset`, for every `i`.
pub open spec fn made_in_order(
    compiled: Seq<Module>,
    entries: Seq<SnapshotEntry>,
    offset: int,
    engine: Engine,
) -> bool {
    forall|i: int|
        0 <= i < compiled.len() ==> compiled_from(
            #[trigger] compiled[i],
            engine,
            entries[i + offset].contents->0@,
        )
}

/// Whether the bytes of `entry` were read and `engine` accepts them.
pub open spec fn entry_compiles(engine: Engine, entry: SnapshotEntry) -> bool {
    entry.contents is Some && compiles(engine, entry.contents->0@)
}

/// A set of identifiers that holds every identifier below `k` has at least
/// `k` members.
proof fn lemma_prefix_within(ids: Set<u128>, k: nat)
    requires
        ids.finite(),
        k <= u128::MAX,
        forall|i: u128| (i as nat) < k ==> ids.contains(i),
    ensures
        k <= ids.len(),
    decreases k,
{
    if k > 0 {
        let last = (k - 1) as u128;
        assert(ids.contains(last));
        lemma_prefix_within(ids.remove(last), (k - 1) as nat);
    }
}

/// A load under an identifier that was free adds exactly one record and
/// leaves every other record as it was.
pub proof fn lemma_fresh_load_adds_one(before: Map<u128, MetadataView>, id: u128, record: MetadataView)
    requires
        before.dom().finite(),
        keyed_by_id(before),
        record.id == id,
        !before.dom().contains(id),
    ensures
        before.insert(id, record).dom().len() == before.dom().len() + 1,
        keyed_by_id(before.insert(id, record)),
        forall|k: u128| before.dom().contains(k) ==> before.insert(id, record)[k] == before[k],
{
}

impl BinaryRegistry {
    /// The compiled module of each loaded binary.
    pub closed spec fn modules(&self) -> Map<u128, Module> {
        modules_held(self.binaries)
    }

    /// The invariant of the registry: it holds finitely many records, each
    /// under its own identifier and each with its module.
    pub open spec fn wf(&self) -> bool {
        &&& self@.dom().finite()
        &&& keyed_by_id(self@)
        &&& self.modules().dom() == self@.dom()
    }

    /// The engine that the registry was made with and compiles with.
    pub closed spec fn compiler(&self) -> Engine {
        self.engine
    }

    /// An empty registry that compiles with `engine`.
    pub fn new(engine: Engine) -> (registry: Self)
        ensures
            registry.wf(),
            registry@ == Map::<u128, MetadataView>::empty(),
            registry.modules() == Map::<u128, Module>::empty(),
            registry.compiler() == engine,
    {
        BinaryRegistry { binaries: map_new(), engine }
    }

    /// The engine of the registry: the one it was made with. Stores that run
    /// its modules are to be made with this engine.
    pub fn engine(&self) -> (engine: &Engine)
        ensures
            *engine == self.compiler(),
    {
        &self.engine
    }

    /// The number of loaded binaries.
    pub fn count(&self) -> (n: usize)
        ensures
            n == self@.dom().len(),
    {
        map_len(&self.binaries)
    }

    /// The binary with the identifier `id`: its record and its module.
    pub fn get_binary(&self, id: u128) -> (found: Result<LoadedBinary, HostError>)
        ensures
            found is Ok <==> self@.dom().contains(id),
            found matches Ok(binary) ==> binary.metadata@ == self@[id] && binary.module
                == self.modules()[id],
            found matches Err(e) ==> e == (HostError::NotFound { id }),
    {
        match map_get(&self.binaries, id) {
            Some(binary) => Ok(binary),
            None => Err(HostError::NotFound { id }),
        }
    }

    /// The identifier of a binary that was loaded from exactly `path`.
    pub fn find_binary_by_path(&self, path: &str) -> (found: Option<u128>)
        ensures
            found is Some <==> holds_path(self@, path@),
            found matches Some(id) ==> self@.dom().contains(id) && self@[id].path == path@,
    {
        let wanted = String::from_str(path);
        let records = map_records(&self.binaries);
        let mut i: usize = 0;
        while i < records.len()
            invariant
                i <= records@.len(),
                wanted@ == path@,
                lists(records@, self@),
                forall|j: int| 0 <= j < i ==> (#[trigger] records@[j]).1.path@ != path@,
            decreases records@.len() - i,
        {
            if records[i].1.path == wanted {
                return Some(records[i].0);
            }
            i += 1;
        }
        proof {
            if holds_path(self@, path@) {
                let k = choose|k: u128| self@.dom().contains(k) && (#[trigger] self@[k]).path == path@;
                let j = choose|j: int| 0 <= j < records@.len() && (#[trigger] records@[j]).0 == k;
                assert(records@[j].1.path@ != path@);
            }
        }
        None
    }

    /// An identifier under which nothing is loaded. A random identifier is
    /// drawn, and drawn again where it is taken; should every draw be taken,
    /// the least free identifier is given.
    pub fn free_id(&self) -> (id: u128)
        requires
            self.wf(),
        ensures
            !self@.dom().contains(id),
    {
        let mut tries: u8 = 0;
        while tries < 8
            invariant
                tries <= 8,
            decreases 8 - tries,
        {
            let drawn = fresh_id();
            if map_get(&self.binaries, drawn).is_none() {
                return drawn;
            }
            tries += 1;
        }
        let count = map_len(&self.binaries);
        let mut next: u128 = 0;
        loop
            invariant
                self@.dom().finite(),
                count == self@.dom().len(),
                next <= count,
                forall|i: u128| i < next ==> self@.dom().contains(i),
            decreases count - next,
        {
            if map_get(&self.binaries, next).is_none() {
                return next;
            }
            proof {
                lemma_prefix_within(self@.dom(), (next + 1) as nat);
            }
            next += 1;
        }
    }

    /// Puts a compiled module into the registry. Where a binary of the same
    /// path is loaded, its identifier is kept and its record and module are
    /// replaced; else the record stands under `fresh`.
    pub fn place(
        &mut self,
        path: &str,
        size: usize,
        module: Module,
        fresh: u128,
        loaded_at: Timestamp,
    ) -> (id: u128)
        requires
            old(self).wf(),
        ensures
            final(self).wf(),
            final(self).compiler() == old(self).compiler(),
            holds_path(old(self)@, path@) ==> old(self)@.dom().contains(id) && old(self)@[id].path
                == path@,
            !holds_path(old(self)@, path@) ==> id == fresh,
            final(self)@ == old(self)@.insert(
                id,
                MetadataView { id, path: path@, size, loaded_at },
            ),
            final(self).modules() == old(self).modules().insert(id, module),
    {
        let id = match self.find_binary_by_path(path) {
            Some(existing) => existing,
            None => fresh,
        };
        let metadata = BinaryMetadata { id, path: String::from_str(path), size, loaded_at };
        map_insert(&mut self.binaries, id, LoadedBinary { metadata, module });
        id
    }

    /// Loads the binary of the file at `path`, whose bytes are `contents`;
    /// none where the file could not be read. The bytes are compiled. The
    /// record stands under the identifier of the path where the path is
    /// loaded already, else under an identifier that was free.
    ///
    /// The load succeeds exactly where the file was read and the engine
    /// accepts its bytes. A failure leaves the registry as it was; a success
    /// changes the record and the module of that one identifier only, and
    /// the module is then the one compiled from these bytes.
    pub fn load_binary(&mut self, path: &str, contents: Option<&[u8]>, loaded_at: Timestamp) -> (loaded:
        Result<u128, HostError>)
        requires
            old(self).wf(),
        ensures
            final(self).wf(),
            final(self).compiler() == old(self).compiler(),
            loaded is Ok <==> contents is Some && compiles(old(self).compiler(), contents->0@),
            contents is None ==> (loaded matches Err(HostError::Read { path: p }) && p@ == path@),
            contents is Some && loaded is Err ==> loaded == Err::<u128, HostError>(
                HostError::Compile,
            ),
            loaded is Err ==> final(self)@ == old(self)@ && final(self).modules() == old(self).modules(),
            loaded matches Ok(id) ==> {
                &&& final(self)@ == old(self)@.insert(
                    id,
                    MetadataView { id, path: path@, size: contents->0@.len() as usize, loaded_at },
                )
                &&& holds_path(old(self)@, path@) ==> old(self)@.dom().contains(id) && old(self)@[id].path == path@
                &&& !holds_path(old(self)@, path@) ==> !old(self)@.dom().contains(id)
                &&& final(self).modules().remove(id) == old(self).modules().remove(id)
                &&& compiled_from(final(self).modules()[id], old(self).compiler(), contents->0@)
            },
    {
        match contents {
            None => Err(HostError::Read { path: String::from_str(path) }),
            Some(bytes) => {
                match compile(&self.engine, bytes) {
                    Ok(module) => {
                        let fresh = self.free_id();
                        let id = self.place(path, bytes.len(), module, fresh, loaded_at);
                        assert(self.modules().remove(id) =~= old(self).modules().remove(id));
                        Ok(id)
                    },
                    Err(_) => Err(HostError::Compile),
                }
            },
        }
    }

    /// Removes the binary with the identifier `id`.
    pub fn unload_binary(&mut self, id: u128) -> (done: Result<(), HostError>)
        requires
            old(self).wf(),
        ensures
            final(self).wf(),
            final(self).compiler() == old(self).compiler(),
            done is Ok <==> old(self)@.dom().contains(id),
            done is Ok ==> final(self)@ == old(self)@.remove(id) && final(self).modules() == old(self).modules().remove(id),
            done matches Err(e) ==> e == (HostError::NotFound { id }) && final(self)@ == old(self)@
                && final(self).modules() == old(self).modules(),
    {
        if map_remove(&mut self.binaries, id) {
            Ok(())
        } else {
            assert(self@ =~= old(self)@);
            assert(self.modules() =~= old(self).modules());
            Err(HostError::NotFound { id })
        }
    }

    /// A snapshot of the metadata of all loaded binaries, in no set order.
    pub fn list_binaries(&self) -> (listing: Vec<BinaryMetadata>)
        requires
            self.wf(),
        ensures
            snapshot_of(listing@, self@),
    {
        let mut records = map_records(&self.binaries);
        let ghost all = records@;
        let mut listing: Vec<BinaryMetadata> = Vec::new();
        let mut i: usize = 0;
        while i < records.len()
            invariant
                records@ == all,
                lists(all, self@),
                keyed_by_id(self@),
                i <= all.len(),
                listing@.len() == i,
                forall|j: int| 0 <= j < i ==> (#[trigger] listing@[j])@ == all[j].1@,
            decreases all.len() - i,
        {
            listing.push(records[i].1.duplicate());
            i += 1;
        }
        proof {
            assert forall|j: int| 0 <= j < listing@.len() implies self@.dom().contains(
                (#[trigger] listing@[j]).id,
            ) && self@[listing@[j].id] == listing@[j]@ by {
                assert(self@.dom().contains(all[j].0));
                assert(self@[all[j].0].id == all[j].0);
            }
            assert forall|j: int, k: int| 0 <= j < k < listing@.len() implies (
            #[trigger] listing@[j]).id != (#[trigger] listing@[k]).id by {
                assert(self@[all[j].0].id == all[j].0);
                assert(self@[all[k].0].id == all[k].0);
            }
            assert forall|key: u128| self@.dom().contains(key) implies exists|j: int|
                0 <= j < listing@.len() && (#[trigger] listing@[j]).id == key by {
                let j = choose|j: int| 0 <= j < all.len() && (#[trigger] all[j]).0 == key;
                assert(self@[all[j].0].id == all[j].0);
                assert(listing@[j].id == key);
            }
        }
        listing
    }

    /// Puts the record `meta` back under its identifier, with `module` as its
    /// compiled module.
    pub fn put_back(&mut self, meta: &BinaryMetadata, module: Module)
        requires
            old(self).wf(),
        ensures
            final(self).wf(),
            final(self).compiler() == old(self).compiler(),
            final(self)@ == old(self)@.insert(meta.id, meta@),
            final(self).modules() == old(self).modules().insert(meta.id, module),
    {
        let metadata = meta.duplicate();
        map_insert(&mut self.binaries, meta.id, LoadedBinary { metadata, module });
    }

    /// Puts the record `meta` of a snapshot back under its identifier, with
    /// the module compiled from `contents`; none where the file could not
    /// be read. It succeeds exactly where the file was read and the engine
    /// accepts its bytes; a failure leaves the registry as it was.
    pub fn restore_entry(&mut self, meta: &BinaryMetadata, contents: Option<&[u8]>) -> (done: Result<
        (),
        HostError,
    >)
        requires
            old(self).wf(),
        ensures
            final(self).wf(),
            final(self).compiler() == old(self).compiler(),
            done is Ok <==> contents is Some && compiles(old(self).compiler(), contents->0@),
            contents is None ==> (done matches Err(HostError::Read { path: p }) && p@
                == meta.path@),
            contents is Some && done is Err ==> (done matches Err(e) && e == HostError::Compile),
            done is Err ==> final(self)@ == old(self)@ && final(self).modules() == old(self).modules(),
            done is Ok ==> final(self)@ == old(self)@.insert(meta.id, meta@) && final(self).modules().remove(meta.id) == old(self).modules().remove(meta.id) && compiled_from(
                final(self).modules()[meta.id],
                old(self).compiler(),
                contents->0@,
            ),
    {
        match contents {
            None => Err(HostError::Read { path: meta.path.clone() }),
            Some(bytes) => {
                match compile(&self.engine, bytes) {
                    Ok(module) => {
                        self.put_back(meta, module);
                        assert(self.modules().remove(meta.id) =~= old(self).modules().remove(
                            meta.id,
                        ));
                        Ok(())
                    },
                    Err(_) => Err(HostError::Compile),
                }
            },
        }
    }

    /// Restores the registry from the entries of a snapshot. Every entry is
    /// compiled first; the records are put back, in order, only where all
    /// compiled. The restore succeeds exactly where every file was read and
    /// the engine accepts the bytes of each. The first entry that fails gives
    /// the error, and a failure leaves the registry as it was: nothing of a
    /// snapshot is kept where a part of it is lost.
    pub fn load(&mut self, entries: &Vec<SnapshotEntry>) -> (done: Result<(), HostError>)
        requires
            old(self).wf(),
        ensures
            final(self).wf(),
            final(self).compiler() == old(self).compiler(),
            done is Ok <==> forall|k: int|
                0 <= k < entries@.len() ==> entry_compiles(
                    old(self).compiler(),
                    #[trigger] entries@[k],
                ),
            done is Ok ==> final(self)@ == restored(old(self)@, records_of(entries@)),
            done is Ok ==> forall|k: int|
                0 <= k < entries@.len() && last_of_its_id(entries@, k, entries@.len() as int)
                    ==> #[trigger] module_restored(
                    entries@,
                    k,
                    final(self).modules(),
                    old(self).compiler(),
                ),
            done is Ok ==> forall|id: u128|
                !names_id(entries@, id, entries@.len() as int) ==> #[trigger] module_kept(
                    id,
                    final(self).modules(),
                    old(self).modules(),
                ),
            done is Err ==> final(self)@ == old(self)@ && final(self).modules() == old(self).modules(),
            done is Err ==> exists|k: int|
                0 <= k < entries@.len() && !entry_compiles(
                    old(self).compiler(),
                    #[trigger] entries@[k],
                ) && (forall|j: int|
                    0 <= j < k ==> entry_compiles(old(self).compiler(), #[trigger] entries@[j]))
                    && (entries@[k].contents is None ==> (done matches Err(
                    HostError::Read { path: p },
                ) && p@ == entries@[k].metadata.path@)) && (entries@[k].contents is Some ==> (
                done matches Err(e) && e == HostError::Compile)),
    {
        let ghost records = records_of(entries@);
        let mut compiled: Vec<Module> = Vec::new();
        let mut i: usize = 0;
        while i < entries.len()
            invariant
                i <= entries@.len(),
                compiled@.len() == i,
                *self == *old(self),
                self.wf(),
                forall|j: int|
                    0 <= j < i ==> entry_compiles(self.compiler(), #[trigger] entries@[j]),
                made_in_order(compiled@, entries@, 0, self.compiler()),
            decreases entries@.len() - i,
        {
            let entry = &entries[i];
            match &entry.contents {
                None => {
                    return Err(HostError::Read { path: entry.metadata.path.clone() });
                },
                Some(bytes) => {
                    match compile(&self.engine, bytes.as_slice()) {
                        Ok(module) => {
                            let ghost before = compiled@;
                            compiled.push(module);
                            proof {
                                assert forall|j: int| 0 <= j < compiled@.len() implies compiled_from(
                                    #[trigger] compiled@[j],
                                    self.compiler(),
                                    entries@[j + 0].contents->0@,
                                ) by {
                                    if j < before.len() {
                                        assert(compiled@[j] == before[j]);
                                    }
                                }
                            }
                        },
                        Err(_) => {
                            return Err(HostError::Compile);
                        },
                    }
                },
            }
            i += 1;
        }
        let mut k: usize = 0;
        proof {
            assert(records.take(0) =~= Seq::<MetadataView>::empty());
        }
        while k < entries.len()
            invariant
                k <= entries@.len(),
                compiled@.len() == entries@.len() - k,
                records == records_of(entries@),
                self.wf(),
                self.compiler() == old(self).compiler(),
                self@ == restored(old(self)@, records.take(k as int)),
                made_in_order(compiled@, entries@, k as int, self.compiler()),
                forall|a: int|
                    0 <= a < k && last_of_its_id(entries@, a, k as int) ==> #[trigger] module_restored(
                        entries@,
                        a,
                        self.modules(),
                        self.compiler(),
                    ),
                forall|id: u128|
                    !names_id(entries@, id, k as int) ==> #[trigger] module_kept(
                        id,
                        self.modules(),
                        old(self).modules(),
                    ),
            decreases entries@.len() - k,
        {
            let ghost before = compiled@;
            let ghost held_before = self.modules();
            let ghost engine = self.compiler();
            assert(compiled_from(before[0], engine, entries@[0 + k].contents->0@));
            let module = compiled.remove(0);
            self.put_back(&entries[k].metadata, module);
            proof {
                assert(records.take(k + 1).drop_last() =~= records.take(k as int));
                assert(records.take(k + 1).last() == entries@[k as int].metadata@);
                let id_k = entries@[k as int].metadata.id;
                assert(self.modules() == held_before.insert(id_k, before[0]));
                assert forall|i: int| 0 <= i < compiled@.len() implies compiled_from(
                    #[trigger] compiled@[i],
                    engine,
                    entries@[i + (k + 1)].contents->0@,
                ) by {
                    assert(compiled@[i] == before[i + 1]);
                    assert(compiled_from(before[i + 1], engine, entries@[(i + 1) + k].contents->0@));
                }
                assert forall|a: int|
                    0 <= a < k + 1 && last_of_its_id(entries@, a, k + 1) implies #[trigger] module_restored(
                    entries@,
                    a,
                    self.modules(),
                    engine,
                ) by {
                    if a < k {
                        assert(entries@[k as int].metadata.id != entries@[a].metadata.id);
                        assert(last_of_its_id(entries@, a, k as int));
                        assert(module_restored(entries@, a, held_before, engine));
                    }
                }
                assert forall|id: u128| !names_id(entries@, id, k + 1) implies #[trigger] module_kept(
                    id,
                    self.modules(),
                    old(self).modules(),
                ) by {
                    assert(entries@[k as int].metadata.id != id);
                    assert(!names_id(entries@, id, k as int));
                    assert(module_kept(id, held_before, old(self).modules()));
                }
            }
            k += 1;
        }
        proof {
            assert(records.take(entries@.len() as int) =~= records);
        }
        Ok(())
    }
}

} // verus!
