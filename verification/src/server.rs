//! The five operations: load, execute, execute a chain, list and unload.

use vstd::prelude::*;
use vstd::string::StringExecFns;
use crate::abi::env_text;
use crate::chain::ChainRun;
use crate::error::HostError;
use crate::execution::Phase;
use crate::executor::{Executor, PreparedCall};
use crate::ident::{id_string, id_text};
use crate::registry::{MetadataView, Timestamp, compiled_from, compiles, holds_path};
use crate::wire::{
    BinaryInfo,
    ExecuteChainRequest,
    ExecuteRequest,
    ListBinariesRequest,
    ListBinariesResponse,
    LoadBinaryRequest,
    LoadBinaryResponse,
    UnloadBinaryRequest,
    UnloadBinaryResponse,
    binary_info,
    config_or_default,
    limits_of,
};

verus! {

/// The host as its callers see it.
pub struct Server {
    pub executor: Executor,
}

/// The confirmation of an unload.
pub open spec fn unload_text(id: u128) -> Seq<char> {
    "Binary "@ + id_text(id) + " unloaded successfully"@
}

impl Server {
    /// A server over `executor` and its registry.
    pub fn new(executor: Executor) -> (server: Self)
        ensures
            server.executor == executor,
    {
        Server { executor }
    }

    /// Loads the binary at the path of `req`, whose bytes are `contents`
    /// (none where the file could not be read), and tells its identifier
    /// and size.
    pub fn load_binary(&mut self, req: LoadBinaryRequest, contents: Option<&[u8]>, loaded_at: Timestamp) -> (loaded:
        Result<LoadBinaryResponse, HostError>)
        requires
            old(self).executor.registry.wf(),
        ensures
            final(self).executor.registry.wf(),
            final(self).executor.registry.compiler() == old(self).executor.registry.compiler(),
            final(self).executor.tracer == old(self).executor.tracer,
            loaded is Ok <==> contents is Some && compiles(
                old(self).executor.registry.compiler(),
                contents->0@,
            ),
            contents is None ==> (loaded matches Err(HostError::Read { path: p }) && p@
                == req.path@),
            contents is Some && loaded is Err ==> (loaded matches Err(e) && e
                == HostError::Compile),
            loaded is Err ==> final(self).executor.registry@ == old(self).executor.registry@
                && final(self).executor.registry.modules() == old(self).executor.registry.modules(),
            loaded matches Ok(response) ==> {
                &&& response.size == contents->0@.len() as usize
                &&& final(self).executor.registry@ == old(self).executor.registry@.insert(
                    response.binary_id,
                    MetadataView {
                        id: response.binary_id,
                        path: req.path@,
                        size: response.size,
                        loaded_at,
                    },
                )
                &&& holds_path(old(self).executor.registry@, req.path@) ==> old(self).executor.registry@.dom().contains(response.binary_id) && old(self).executor.registry@[response.binary_id].path == req.path@
                &&& !holds_path(old(self).executor.registry@, req.path@) ==> !old(self).executor.registry@.dom().contains(response.binary_id)
                &&& final(self).executor.registry.modules().remove(response.binary_id) == old(self).executor.registry.modules().remove(response.binary_id)
                &&& compiled_from(
                    final(self).executor.registry.modules()[response.binary_id],
                    old(self).executor.registry.compiler(),
                    contents->0@,
                )
            },
    {
        match self.executor.registry.load_binary(req.path.as_str(), contents, loaded_at) {
            Ok(binary_id) => {
                match self.executor.registry.get_binary(binary_id) {
                    Ok(binary) => Ok(LoadBinaryResponse { binary_id, size: binary.metadata.size }),
                    Err(e) => {
                        proof {
                            assert(self.executor.registry@.dom().contains(binary_id));
                        }
                        Err(e)
                    },
                }
            },
            Err(e) => Err(e),
        }
    }

    /// Prepares the call of `req`, with the default limits where `req` gives
    /// none.
    pub fn execute(&self, req: ExecuteRequest, timestamp: i64) -> (prepared: Result<
        PreparedCall,
        HostError,
    >)
        requires
            limits_of(req.config).fuel_fits(),
        ensures
            prepared is Ok <==> self.executor.registry@.dom().contains(req.binary_id),
            prepared matches Err(e) ==> e == (HostError::NotFound { id: req.binary_id }),
            prepared matches Ok(p) ==> {
                &&& p.module == self.executor.registry.modules()[req.binary_id]
                &&& p.call.wf()
                &&& p.call.binary_id == req.binary_id
                &&& p.call.input == req.input
                &&& p.call.config == limits_of(req.config)
                &&& p.call.phase == Phase::SettingFuel
                &&& exists|seed: i64| p.call.env_json@ == env_text(timestamp, seed)
            },
    {
        let config = config_or_default(req.config);
        self.executor.execute(req.binary_id, req.input, config, timestamp)
    }

    /// Begins the chain of `req`, with the default limits where `req` gives
    /// none.
    pub fn execute_chain(&self, req: ExecuteChainRequest) -> (run: ChainRun)
        ensures
            run.wf(),
            run.ids == req.binary_ids,
            run.config == limits_of(req.config),
            run.input == req.input,
            run.results@.len() == 0,
            run.failure is None,
    {
        let config = config_or_default(req.config);
        self.executor.execute_chain(req.binary_ids, req.input, config)
    }

    /// Lists the loaded binaries, each with its time of loading in whole
    /// seconds since the epoch.
    pub fn list_binaries(&self, req: ListBinariesRequest) -> (listing: ListBinariesResponse)
        requires
            self.executor.registry.wf(),
        ensures
            listing.binaries@.len() == self.executor.registry@.dom().len(),
            forall|i: int|
                0 <= i < listing.binaries@.len() ==> {
                    let info = #[trigger] listing.binaries@[i];
                    &&& self.executor.registry@.dom().contains(info.id)
                    &&& self.executor.registry@[info.id].path == info.path@
                    &&& self.executor.registry@[info.id].size == info.size
                    &&& self.executor.registry@[info.id].loaded_at.secs_since_epoch
                        == info.loaded_at
                },
            forall|k: u128|
                self.executor.registry@.dom().contains(k) ==> exists|i: int|
                    0 <= i < listing.binaries@.len() && (#[trigger] listing.binaries@[i]).id == k,
    {
        let records = self.executor.registry.list_binaries();
        let count = self.executor.registry.count();
        let mut binaries: Vec<BinaryInfo> = Vec::new();
        let mut i: usize = 0;
        proof {
            crate::registry::lemma_snapshot_len(records@, self.executor.registry@);
        }
        while i < records.len()
            invariant
                i <= records@.len(),
                binaries@.len() == i,
                forall|j: int|
                    0 <= j < i ==> {
                        let info = #[trigger] binaries@[j];
                        &&& info.id == records@[j].id
                        &&& info.path@ == records@[j].path@
                        &&& info.size == records@[j].size
                        &&& info.loaded_at == records@[j].loaded_at.secs_since_epoch
                    },
            decreases records@.len() - i,
        {
            binaries.push(binary_info(&records[i]));
            i += 1;
        }
        proof {
            assert forall|k: u128| self.executor.registry@.dom().contains(k) implies exists|i: int|
                0 <= i < binaries@.len() && (#[trigger] binaries@[i]).id == k by {
                let j = choose|j: int| 0 <= j < records@.len() && (#[trigger] records@[j]).id == k;
                assert(binaries@[j].id == k);
            }
        }
        ListBinariesResponse { binaries }
    }

    /// Unloads the binary of `req` and confirms it.
    pub fn unload_binary(&mut self, req: UnloadBinaryRequest) -> (done: Result<
        UnloadBinaryResponse,
        HostError,
    >)
        requires
            old(self).executor.registry.wf(),
        ensures
            final(self).executor.registry.wf(),
            final(self).executor.registry.compiler() == old(self).executor.registry.compiler(),
            final(self).executor.tracer == old(self).executor.tracer,
            done is Ok <==> old(self).executor.registry@.dom().contains(req.binary_id),
            done matches Ok(response) ==> response.message@ == unload_text(req.binary_id)
                && final(self).executor.registry@ == old(self).executor.registry@.remove(
                req.binary_id,
            ),
            done matches Err(e) ==> e == (HostError::NotFound { id: req.binary_id })
                && final(self).executor.registry@ == old(self).executor.registry@,
    {
        match self.executor.registry.unload_binary(req.binary_id) {
            Ok(()) => {
                let mut message = String::from_str("Binary ");
                let shown = id_string(req.binary_id);
                message.append(shown.as_str());
                message.append(" unloaded successfully");
                Ok(UnloadBinaryResponse { message })
            },
            Err(e) => Err(e),
        }
    }
}

} // verus!
