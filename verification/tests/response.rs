use rpc_types::response::{
    ConfirmedTransactionStatusWithSignature, OptionalContext, Response, RpcBlockUpdateError,
    RpcConfirmedTransactionStatusWithSignature, RpcResponseContext, RpcVersionInfo, SlotTransactionStats,
    SlotUpdate,
};

#[test]
fn parse_value_drops_context() {
    let with = OptionalContext::Context(Response { context: RpcResponseContext { slot: 9, api_version: None }, value: 17u64 });
    assert_eq!(with.parse_value(), 17);
    let without: OptionalContext<u64> = OptionalContext::NoContext(23);
    assert_eq!(without.parse_value(), 23);
}

#[test]
fn slot_update_reports_its_slot() {
    let stats = SlotTransactionStats {
        num_transaction_entries: 1,
        num_successful_transactions: 2,
        num_failed_transactions: 3,
        max_transactions_per_entry: 4,
    };
    let updates = vec![
        SlotUpdate::FirstShredReceived { slot: 1, timestamp: 100 },
        SlotUpdate::Completed { slot: 2, timestamp: 100 },
        SlotUpdate::CreatedBank { slot: 3, parent: 2, timestamp: 100 },
        SlotUpdate::Frozen { slot: 4, timestamp: 100, stats },
        SlotUpdate::Dead { slot: 5, timestamp: 100, err: "bad".to_string() },
        SlotUpdate::OptimisticConfirmation { slot: 6, timestamp: 100 },
        SlotUpdate::Root { slot: 7, timestamp: 100 },
    ];
    let slots: Vec<u64> = updates.iter().map(|u| u.slot()).collect();
    assert_eq!(slots, vec![1, 2, 3, 4, 5, 6, 7]);
}

fn version_info(core: &str) -> RpcVersionInfo {
    RpcVersionInfo { solana_core: core.to_string(), feature_set: None, commit: Some(123456), client_id: None }
}

#[test]
fn version_info_displays_semver_only() {
    assert_eq!(version_info("1.0.0 c375ce1f").to_string(), "1.0.0");
    assert_eq!(version_info("  2.1.0\tsrc:1234").to_string(), "2.1.0");
    assert_eq!(version_info("2.3.13").to_string(), "2.3.13");
    assert_eq!(version_info("2.3.13\u{3000}feat").to_string(), "2.3.13");
}

#[test]
fn version_info_without_words_displays_whole() {
    assert_eq!(version_info("   ").to_string(), "   ");
    assert_eq!(version_info("").to_string(), "");
}

#[test]
fn version_info_debug_shows_everything() {
    assert_eq!(version_info("1.0.0 c375ce1f").debug_string(), "1.0.0 c375ce1f");
}

#[test]
fn block_update_error_messages() {
    assert_eq!(RpcBlockUpdateError::BlockStoreError.to_string(), "block store error");
    assert_eq!(
        RpcBlockUpdateError::UnsupportedTransactionVersion(7).to_string(),
        "unsupported transaction version (7)"
    );
    assert_eq!(
        RpcBlockUpdateError::UnsupportedTransactionVersion(255).to_string(),
        "unsupported transaction version (255)"
    );
    assert_eq!(
        RpcBlockUpdateError::UnsupportedTransactionVersion(0).to_string(),
        "unsupported transaction version (0)"
    );
}

#[test]
fn confirmed_status_gets_base58_signature() {
    let status = ConfirmedTransactionStatusWithSignature {
        signature: [1u8; 64],
        slot: 77,
        err: None,
        memo: Some("memo".to_string()),
        block_time: Some(1_700_000_000),
    };
    let rpc = RpcConfirmedTransactionStatusWithSignature::from_status(status);
    assert_eq!(
        rpc.signature,
        "2AXDGYSE4f2sz7tvMMzyHvUfcoJmxudvdhBcmiUSo6ijwfYmfZYsKRxboQMPh3R4kUhXRVdtSXFXMheka4Rc4P2"
    );
    assert_eq!(rpc.slot, 77);
    assert_eq!(rpc.err, None);
    assert_eq!(rpc.memo, Some("memo".to_string()));
    assert_eq!(rpc.block_time, Some(1_700_000_000));
    assert!(rpc.confirmation_status.is_none());
}

#[test]
fn confirmed_status_zero_signature() {
    let status = ConfirmedTransactionStatusWithSignature {
        signature: [0u8; 64],
        slot: 1,
        err: None,
        memo: None,
        block_time: None,
    };
    let rpc = RpcConfirmedTransactionStatusWithSignature::from_status(status);
    assert_eq!(rpc.signature, "1".repeat(64));
}

#[test]
fn confirmed_status_leading_zero_bytes() {
    let mut signature = [1u8; 64];
    signature[0] = 0;
    signature[1] = 0;
    let status = ConfirmedTransactionStatusWithSignature { signature, slot: 3, err: None, memo: None, block_time: None };
    let rpc = RpcConfirmedTransactionStatusWithSignature::from_status(status);
    assert_eq!(rpc.signature, "114U2EqgM7KJCiGHNamR5Jvd6ug1LFLHEVDDubQbxYia5zSHCHHiXStyw2xWaQDdPVhE14vjdfhoUBW27kutec");
}

#[test]
fn confirmed_status_with_given_text() {
    let status = ConfirmedTransactionStatusWithSignature {
        signature: [9u8; 64],
        slot: 11,
        err: None,
        memo: Some("m".to_string()),
        block_time: Some(-5),
    };
    let rpc = RpcConfirmedTransactionStatusWithSignature::with_signature_text(status, "sig".to_string());
    assert_eq!(rpc.signature, "sig");
    assert_eq!(rpc.slot, 11);
    assert_eq!(rpc.memo, Some("m".to_string()));
    assert_eq!(rpc.block_time, Some(-5));
    assert!(rpc.err.is_none());
    assert!(rpc.confirmation_status.is_none());
}

#[test]
fn different_signatures_render_differently() {
    let mut texts = Vec::new();
    for k in 0u8..4 {
        let mut signature = [0u8; 64];
        signature[63] = k;
        let status = ConfirmedTransactionStatusWithSignature { signature, slot: 0, err: None, memo: None, block_time: None };
        texts.push(RpcConfirmedTransactionStatusWithSignature::from_status(status).signature);
    }
    for i in 0..texts.len() {
        for j in 0..texts.len() {
            assert_eq!(texts[i] == texts[j], i == j);
        }
    }
}
