//! The versioned method registry and the dispatch decision.

use p2p_codec::rpc::{register_methods, MethodKind, Module, RegisterError, RpcHandlerV03};

#[test]
fn register_methods_fills_an_empty_registry() {
    let module = register_methods(Module::new()).unwrap();
    assert_eq!(module.methods.len(), 27);
    assert_eq!(module.methods[0].name, "v0.3_starknet_addDeclareTransaction");
    assert_eq!(module.methods[0].kind, MethodKind::AddDeclareTransaction);
    assert_eq!(module.methods[7].name, "v0.3_starknet_estimateFee");
    assert_eq!(module.methods[7].kind, MethodKind::EstimateFee);
    assert_eq!(module.methods[26].name, "v0.3_pathfinder_getTransactionStatus");
    assert_eq!(module.methods[26].kind, MethodKind::GetTransactionStatus);
}

#[test]
fn register_methods_keeps_prior_entries() {
    let module = Module::new()
        .register_method("v0.2_starknet_call", MethodKind::Call)
        .unwrap();
    let module = register_methods(module).unwrap();
    assert_eq!(module.methods.len(), 28);
    assert_eq!(module.methods[0].name, "v0.2_starknet_call");
}

#[test]
fn register_methods_refuses_a_duplicate_name() {
    let module = Module::new()
        .register_method("v0.3_starknet_call", MethodKind::Call)
        .unwrap();
    let err = register_methods(module).unwrap_err();
    assert_eq!(err, RegisterError::DuplicateMethod);
}

#[test]
fn register_method_refuses_the_same_name_twice() {
    let module = Module::new()
        .register_method("v0.3_starknet_call", MethodKind::Call)
        .unwrap();
    let err = module
        .register_method("v0.3_starknet_call", MethodKind::Call)
        .unwrap_err();
    assert_eq!(err, RegisterError::DuplicateMethod);
}

#[test]
fn select_method_routes_known_names() {
    assert_eq!(
        RpcHandlerV03::select_method("starknet_call"),
        Some(MethodKind::Call)
    );
    assert_eq!(
        RpcHandlerV03::select_method("starknet_getStateUpdate"),
        Some(MethodKind::GetStateUpdate)
    );
    assert_eq!(
        RpcHandlerV03::select_method("pathfinder_getProof"),
        Some(MethodKind::GetProof)
    );
}

#[test]
fn select_method_rejects_unknown_names() {
    assert_eq!(RpcHandlerV03::select_method("starknet_unknown"), None);
    assert_eq!(RpcHandlerV03::select_method(""), None);
    // The dispatch table takes bare names; the registry takes prefixed ones.
    assert_eq!(RpcHandlerV03::select_method("v0.3_starknet_call"), None);
}
