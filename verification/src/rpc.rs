//! The versioned method registry and the method-name routing decision of the
//! client-facing query API.
//!
//! This is a thin routing table over already-validated values: registration
//! maps version-prefixed method names to handler identities and refuses a
//! duplicate name; dispatch maps a bare method name to the handler identity
//! that should serve it. Performing a handler's work is outside this crate.

use vstd::prelude::*;
use vstd::string::StrSliceExecFns;

verus! {

broadcast use vstd::std_specs::control_flow::group_control_flow_axioms;

/// Character-by-character string comparison, so that routing decisions are
/// stated over the names' character sequences.
fn str_eq(a: &str, b: &str) -> (r: bool)
    ensures
        r == (a@ == b@),
{
    let n = a.unicode_len();
    let m = b.unicode_len();
    if n != m {
        return false;
    }
    let mut i: usize = 0;
    while i < n
        invariant
            a@.len() == n as nat,
            b@.len() == n as nat,
            i <= n,
            forall|j: int| 0 <= j < i ==> a@[j] == b@[j],
        decreases n - i,
    {
        let ca = a.get_char(i);
        let cb = b.get_char(i);
        if ca != cb {
            return false;
        }
        i += 1;
    }
    proof {
        assert(a@ =~= b@);
    }
    true
}

/// The identity of a handler a method name routes to. Several API versions
/// may reuse one handler for identical wire semantics.
#[derive(Debug, Clone, Copy, PartialEq, Eq, Structural)]
pub enum MethodKind {
    AddDeclareTransaction,
    AddDeployAccountTransaction,
    AddInvokeTransaction,
    BlockHashAndNumber,
    BlockNumber,
    Call,
    ChainId,
    EstimateFee,
    GetBlockWithTxHashes,
    GetBlockWithTxs,
    GetBlockTransactionCount,
    GetClass,
    GetClassAt,
    GetClassHashAt,
    GetNonce,
    GetStorageAt,
    GetTransactionByBlockIdAndIndex,
    GetTransactionByHash,
    GetTransactionReceipt,
    PendingTransactions,
    Syncing,
    GetEvents,
    GetStateUpdate,
    SimulateTransaction,
    EstimateMessageFee,
    GetProof,
    GetTransactionStatus,
}

impl View for MethodKind {
    type V = MethodKind;

    open spec fn view(&self) -> MethodKind {
        *self
    }
}

impl DeepView for MethodKind {
    type V = MethodKind;

    open spec fn deep_view(&self) -> MethodKind {
        *self
    }
}

/// A registration failure: the registry refuses a second handler under an
/// already-registered name.
#[derive(Debug, Clone, Copy, PartialEq, Eq, Structural)]
pub enum RegisterError {
    DuplicateMethod,
}

impl View for RegisterError {
    type V = RegisterError;

    open spec fn view(&self) -> RegisterError {
        *self
    }
}

impl DeepView for RegisterError {
    type V = RegisterError;

    open spec fn deep_view(&self) -> RegisterError {
        *self
    }
}

/// One registry entry: a method name bound to a handler identity.
#[derive(Debug, Clone, PartialEq, Eq)]
pub struct MethodEntry {
    pub name: String,
    pub kind: MethodKind,
}

/// Model of a [`MethodEntry`].
pub struct MethodEntryView {
    pub name: Seq<char>,
    pub kind: MethodKind,
}

impl View for MethodEntry {
    type V = MethodEntryView;

    open spec fn view(&self) -> MethodEntryView {
        MethodEntryView { name: self.name@, kind: self.kind }
    }
}

impl DeepView for MethodEntry {
    type V = MethodEntryView;

    open spec fn deep_view(&self) -> MethodEntryView {
        self@
    }
}

/// The method registry: an ordered table of name-to-handler bindings, each
/// name bound at most once.
#[derive(Debug, Clone, PartialEq, Eq)]
pub struct Module {
    pub methods: Vec<MethodEntry>,
}

impl View for Module {
    type V = Seq<MethodEntryView>;

    open spec fn view(&self) -> Seq<MethodEntryView> {
        self.methods.deep_view()
    }
}

impl DeepView for Module {
    type V = Seq<MethodEntryView>;

    open spec fn deep_view(&self) -> Seq<MethodEntryView> {
        self.methods.deep_view()
    }
}

/// Whether some entry already binds `name`.
pub open spec fn spec_contains(entries: Seq<MethodEntryView>, name: Seq<char>) -> bool {
    exists|i: int| 0 <= i < entries.len() && entries[i].name == name
}

/// What registering one method does: a fresh name is appended with its
/// handler, an already-bound name is refused.
pub open spec fn spec_register_method(
    entries: Seq<MethodEntryView>,
    name: Seq<char>,
    kind: MethodKind,
) -> Result<Seq<MethodEntryView>, RegisterError> {
    if spec_contains(entries, name) {
        Err(RegisterError::DuplicateMethod)
    } else {
        Ok(entries.push(MethodEntryView { name, kind }))
    }
}

/// One step of a registration chain: a prior failure is kept, a prior
/// success registers the next method.
pub open spec fn spec_register_step(
    prior: Result<Seq<MethodEntryView>, RegisterError>,
    name: Seq<char>,
    kind: MethodKind,
) -> Result<Seq<MethodEntryView>, RegisterError> {
    match prior {
        Ok(entries) => spec_register_method(entries, name, kind),
        Err(e) => Err(e),
    }
}

impl Module {
    /// An empty registry.
    pub fn new() -> (r: Module)
        ensures
            r.deep_view() == Seq::<MethodEntryView>::empty(),
    {
        let r = Module { methods: Vec::new() };
        proof {
            assert(r.deep_view() =~= Seq::<MethodEntryView>::empty());
        }
        r
    }

    /// Binds `name` to a handler identity, refusing a duplicate name.
    pub fn register_method(self, name: &str, kind: MethodKind) -> (r: Result<
        Module,
        RegisterError,
    >)
        ensures
            crate::error::result_view(r) == spec_register_method(self.deep_view(), name@, kind),
    {
        let n = self.methods.len();
        let mut i: usize = 0;
        while i < n
            invariant
                n == self.methods@.len(),
                i <= n,
                forall|j: int| 0 <= j < i ==> self.methods.deep_view()[j].name != name@,
            decreases n - i,
        {
            let e = &self.methods[i];
            if str_eq(e.name.as_str(), name) {
                proof {
                    assert(self.methods.deep_view()[i as int].name == name@);
                }
                return Err(RegisterError::DuplicateMethod);
            }
            proof {
                assert(self.methods.deep_view()[i as int].name != name@);
            }
            i += 1;
        }
        proof {
            assert(!spec_contains(self.deep_view(), name@));
        }
        let ghost pre = self.deep_view();
        let mut methods = self.methods;
        methods.push(MethodEntry { name: name.to_owned(), kind });
        let m = Module { methods };
        proof {
            assert(m.deep_view() =~= pre.push(MethodEntryView { name: name@, kind }));
        }
        Ok(m)
    }
}

/// What registering the whole v0.3 method table does to a registry: each
/// name is bound to its handler in a fixed order, and the first duplicate
/// name fails the whole registration.
pub open spec fn spec_register_methods(entries: Seq<MethodEntryView>) -> Result<
    Seq<MethodEntryView>,
    RegisterError,
> {
    let r1 = spec_register_method(entries, "v0.3_starknet_addDeclareTransaction"@, MethodKind::AddDeclareTransaction);
    let r2 = spec_register_step(r1, "v0.3_starknet_addDeployAccountTransaction"@, MethodKind::AddDeployAccountTransaction);
    let r3 = spec_register_step(r2, "v0.3_starknet_addInvokeTransaction"@, MethodKind::AddInvokeTransaction);
    let r4 = spec_register_step(r3, "v0.3_starknet_blockHashAndNumber"@, MethodKind::BlockHashAndNumber);
    let r5 = spec_register_step(r4, "v0.3_starknet_blockNumber"@, MethodKind::BlockNumber);
    let r6 = spec_register_step(r5, "v0.3_starknet_call"@, MethodKind::Call);
    let r7 = spec_register_step(r6, "v0.3_starknet_chainId"@, MethodKind::ChainId);
    let r8 = spec_register_step(r7, "v0.3_starknet_estimateFee"@, MethodKind::EstimateFee);
    let r9 = spec_register_step(r8, "v0.3_starknet_getBlockWithTxHashes"@, MethodKind::GetBlockWithTxHashes);
    let r10 = spec_register_step(r9, "v0.3_starknet_getBlockWithTxs"@, MethodKind::GetBlockWithTxs);
    let r11 = spec_register_step(r10, "v0.3_starknet_getBlockTransactionCount"@, MethodKind::GetBlockTransactionCount);
    let r12 = spec_register_step(r11, "v0.3_starknet_getClass"@, MethodKind::GetClass);
    let r13 = spec_register_step(r12, "v0.3_starknet_getClassAt"@, MethodKind::GetClassAt);
    let r14 = spec_register_step(r13, "v0.3_starknet_getClassHashAt"@, MethodKind::GetClassHashAt);
    let r15 = spec_register_step(r14, "v0.3_starknet_getNonce"@, MethodKind::GetNonce);
    let r16 = spec_register_step(r15, "v0.3_starknet_getStorageAt"@, MethodKind::GetStorageAt);
    let r17 = spec_register_step(r16, "v0.3_starknet_getTransactionByBlockIdAndIndex"@, MethodKind::GetTransactionByBlockIdAndIndex);
    let r18 = spec_register_step(r17, "v0.3_starknet_getTransactionByHash"@, MethodKind::GetTransactionByHash);
    let r19 = spec_register_step(r18, "v0.3_starknet_getTransactionReceipt"@, MethodKind::GetTransactionReceipt);
    let r20 = spec_register_step(r19, "v0.3_starknet_pendingTransactions"@, MethodKind::PendingTransactions);
    let r21 = spec_register_step(r20, "v0.3_starknet_syncing"@, MethodKind::Syncing);
    let r22 = spec_register_step(r21, "v0.3_starknet_getEvents"@, MethodKind::GetEvents);
    let r23 = spec_register_step(r22, "v0.3_starknet_getStateUpdate"@, MethodKind::GetStateUpdate);
    let r24 = spec_register_step(r23, "v0.3_starknet_simulateTransaction"@, MethodKind::SimulateTransaction);
    let r25 = spec_register_step(r24, "v0.3_starknet_estimateMessageFee"@, MethodKind::EstimateMessageFee);
    let r26 = spec_register_step(r25, "v0.3_pathfinder_getProof"@, MethodKind::GetProof);
    let r27 = spec_register_step(r26, "v0.3_pathfinder_getTransactionStatus"@, MethodKind::GetTransactionStatus);
    r27
}

/// Registers every method of the v0.3 API: the handlers reused from v0.2,
/// the v0.3-specific ones, and the node's own extensions, each under its
/// version-prefixed name and in a fixed order.
pub fn register_methods(module: Module) -> (r: Result<Module, RegisterError>)
    ensures
        crate::error::result_view(r) == spec_register_methods(module.deep_view()),
{
    let module = module.register_method("v0.3_starknet_addDeclareTransaction", MethodKind::AddDeclareTransaction)?;
    let module = module.register_method("v0.3_starknet_addDeployAccountTransaction", MethodKind::AddDeployAccountTransaction)?;
    let module = module.register_method("v0.3_starknet_addInvokeTransaction", MethodKind::AddInvokeTransaction)?;
    let module = module.register_method("v0.3_starknet_blockHashAndNumber", MethodKind::BlockHashAndNumber)?;
    let module = module.register_method("v0.3_starknet_blockNumber", MethodKind::BlockNumber)?;
    let module = module.register_method("v0.3_starknet_call", MethodKind::Call)?;
    let module = module.register_method("v0.3_starknet_chainId", MethodKind::ChainId)?;
    let module = module.register_method("v0.3_starknet_estimateFee", MethodKind::EstimateFee)?;
    let module = module.register_method("v0.3_starknet_getBlockWithTxHashes", MethodKind::GetBlockWithTxHashes)?;
    let module = module.register_method("v0.3_starknet_getBlockWithTxs", MethodKind::GetBlockWithTxs)?;
    let module = module.register_method("v0.3_starknet_getBlockTransactionCount", MethodKind::GetBlockTransactionCount)?;
    let module = module.register_method("v0.3_starknet_getClass", MethodKind::GetClass)?;
    let module = module.register_method("v0.3_starknet_getClassAt", MethodKind::GetClassAt)?;
    let module = module.register_method("v0.3_starknet_getClassHashAt", MethodKind::GetClassHashAt)?;
    let module = module.register_method("v0.3_starknet_getNonce", MethodKind::GetNonce)?;
    let module = module.register_method("v0.3_starknet_getStorageAt", MethodKind::GetStorageAt)?;
    let module = module.register_method("v0.3_starknet_getTransactionByBlockIdAndIndex", MethodKind::GetTransactionByBlockIdAndIndex)?;
    let module = module.register_method("v0.3_starknet_getTransactionByHash", MethodKind::GetTransactionByHash)?;
    let module = module.register_method("v0.3_starknet_getTransactionReceipt", MethodKind::GetTransactionReceipt)?;
    let module = module.register_method("v0.3_starknet_pendingTransactions", MethodKind::PendingTransactions)?;
    let module = module.register_method("v0.3_starknet_syncing", MethodKind::Syncing)?;
    let module = module.register_method("v0.3_starknet_getEvents", MethodKind::GetEvents)?;
    let module = module.register_method("v0.3_starknet_getStateUpdate", MethodKind::GetStateUpdate)?;
    let module = module.register_method("v0.3_starknet_simulateTransaction", MethodKind::SimulateTransaction)?;
    let module = module.register_method("v0.3_starknet_estimateMessageFee", MethodKind::EstimateMessageFee)?;
    let module = module.register_method("v0.3_pathfinder_getProof", MethodKind::GetProof)?;
    let module = module.register_method("v0.3_pathfinder_getTransactionStatus", MethodKind::GetTransactionStatus)?;
    Ok(module)
}

/// The handler identity a bare (unprefixed) method name routes to, or `None`
/// where the name is outside the recognized set.
pub open spec fn spec_select_method(m: Seq<char>) -> Option<MethodKind> {
    if m == "starknet_addDeclareTransaction"@ {
        Some(MethodKind::AddDeclareTransaction)
    } else if m == "starknet_addDeployAccountTransaction"@ {
        Some(MethodKind::AddDeployAccountTransaction)
    } else if m == "starknet_addInvokeTransaction"@ {
        Some(MethodKind::AddInvokeTransaction)
    } else if m == "starknet_blockHashAndNumber"@ {
        Some(MethodKind::BlockHashAndNumber)
    } else if m == "starknet_blockNumber"@ {
        Some(MethodKind::BlockNumber)
    } else if m == "starknet_call"@ {
        Some(MethodKind::Call)
    } else if m == "starknet_chainId"@ {
        Some(MethodKind::ChainId)
    } else if m == "starknet_getBlockWithTxHashes"@ {
        Some(MethodKind::GetBlockWithTxHashes)
    } else if m == "starknet_getBlockWithTxs"@ {
        Some(MethodKind::GetBlockWithTxs)
    } else if m == "starknet_getBlockTransactionCount"@ {
        Some(MethodKind::GetBlockTransactionCount)
    } else if m == "starknet_getClass"@ {
        Some(MethodKind::GetClass)
    } else if m == "starknet_getClassAt"@ {
        Some(MethodKind::GetClassAt)
    } else if m == "starknet_getClassHashAt"@ {
        Some(MethodKind::GetClassHashAt)
    } else if m == "starknet_getNonce"@ {
        Some(MethodKind::GetNonce)
    } else if m == "starknet_getStorageAt"@ {
        Some(MethodKind::GetStorageAt)
    } else if m == "starknet_getTransactionByBlockIdAndIndex"@ {
        Some(MethodKind::GetTransactionByBlockIdAndIndex)
    } else if m == "starknet_getTransactionByHash"@ {
        Some(MethodKind::GetTransactionByHash)
    } else if m == "starknet_getTransactionReceipt"@ {
        Some(MethodKind::GetTransactionReceipt)
    } else if m == "starknet_pendingTransactions"@ {
        Some(MethodKind::PendingTransactions)
    } else if m == "starknet_syncing"@ {
        Some(MethodKind::Syncing)
    } else if m == "starknet_estimateFee"@ {
        Some(MethodKind::EstimateFee)
    } else if m == "starknet_getEvents"@ {
        Some(MethodKind::GetEvents)
    } else if m == "starknet_getStateUpdate"@ {
        Some(MethodKind::GetStateUpdate)
    } else if m == "starknet_simulateTransaction"@ {
        Some(MethodKind::SimulateTransaction)
    } else if m == "starknet_estimateMessageFee"@ {
        Some(MethodKind::EstimateMessageFee)
    } else if m == "pathfinder_getProof"@ {
        Some(MethodKind::GetProof)
    } else if m == "pathfinder_getTransactionStatus"@ {
        Some(MethodKind::GetTransactionStatus)
    } else {
        None
    }
}

/// The v0.3 request handler: routes a bare method name to the handler that
/// serves it. Performing the handler's work (and producing the response
/// envelope) is the surrounding server's business, not this table's.
pub struct RpcHandlerV03;

impl RpcHandlerV03 {
    /// The routing decision behind method dispatch: the handler identity for
    /// a recognized bare method name, `None` — method not found — otherwise.
    pub fn select_method(method: &str) -> (r: Option<MethodKind>)
        ensures
            r == spec_select_method(method@),
    {
        if str_eq(method, "starknet_addDeclareTransaction") {
            return Some(MethodKind::AddDeclareTransaction);
        }
        if str_eq(method, "starknet_addDeployAccountTransaction") {
            return Some(MethodKind::AddDeployAccountTransaction);
        }
        if str_eq(method, "starknet_addInvokeTransaction") {
            return Some(MethodKind::AddInvokeTransaction);
        }
        if str_eq(method, "starknet_blockHashAndNumber") {
            return Some(MethodKind::BlockHashAndNumber);
        }
        if str_eq(method, "starknet_blockNumber") {
            return Some(MethodKind::BlockNumber);
        }
        if str_eq(method, "starknet_call") {
            return Some(MethodKind::Call);
        }
        if str_eq(method, "starknet_chainId") {
            return Some(MethodKind::ChainId);
        }
        if str_eq(method, "starknet_getBlockWithTxHashes") {
            return Some(MethodKind::GetBlockWithTxHashes);
        }
        if str_eq(method, "starknet_getBlockWithTxs") {
            return Some(MethodKind::GetBlockWithTxs);
        }
        if str_eq(method, "starknet_getBlockTransactionCount") {
            return Some(MethodKind::GetBlockTransactionCount);
        }
        if str_eq(method, "starknet_getClass") {
            return Some(MethodKind::GetClass);
        }
        if str_eq(method, "starknet_getClassAt") {
            return Some(MethodKind::GetClassAt);
        }
        if str_eq(method, "starknet_getClassHashAt") {
            return Some(MethodKind::GetClassHashAt);
        }
        if str_eq(method, "starknet_getNonce") {
            return Some(MethodKind::GetNonce);
        }
        if str_eq(method, "starknet_getStorageAt") {
            return Some(MethodKind::GetStorageAt);
        }
        if str_eq(method, "starknet_getTransactionByBlockIdAndIndex") {
            return Some(MethodKind::GetTransactionByBlockIdAndIndex);
        }
        if str_eq(method, "starknet_getTransactionByHash") {
            return Some(MethodKind::GetTransactionByHash);
        }
        if str_eq(method, "starknet_getTransactionReceipt") {
            return Some(MethodKind::GetTransactionReceipt);
        }
        if str_eq(method, "starknet_pendingTransactions") {
            return Some(MethodKind::PendingTransactions);
        }
        if str_eq(method, "starknet_syncing") {
            return Some(MethodKind::Syncing);
        }
        if str_eq(method, "starknet_estimateFee") {
            return Some(MethodKind::EstimateFee);
        }
        if str_eq(method, "starknet_getEvents") {
            return Some(MethodKind::GetEvents);
        }
        if str_eq(method, "starknet_getStateUpdate") {
            return Some(MethodKind::GetStateUpdate);
        }
        if str_eq(method, "starknet_simulateTransaction") {
            return Some(MethodKind::SimulateTransaction);
        }
        if str_eq(method, "starknet_estimateMessageFee") {
            return Some(MethodKind::EstimateMessageFee);
        }
        if str_eq(method, "pathfinder_getProof") {
            return Some(MethodKind::GetProof);
        }
        if str_eq(method, "pathfinder_getTransactionStatus") {
            return Some(MethodKind::GetTransactionStatus);
        }
        None
    }
}

} // verus!
