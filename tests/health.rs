use node_health::aggregate::aggregate_heights;
use node_health::block_delta;
use node_health::probe::Action;
use node_health::probe::Phase;
use node_health::probe::Probe;
use node_health::rpc::decode_block_number;
use node_health::rpc::RpcError;
use node_health::rpc::RpcMethod;
use node_health::rpc::SyncingProgress;
use node_health::rpc::SyncingStatus;
use node_health::verdict::conclude;
use node_health::verdict::judge;
use node_health::verdict::HealthVerdict;
use node_health::verdict::DEFAULT_BEHIND_THRESHOLD;

fn progress(current: &str, highest: &str) -> SyncingProgress {
    SyncingProgress {
        current_block: current.to_string(),
        healed_bytecode_bytes: "0x0".to_string(),
        healed_bytecodes: "0x0".to_string(),
        healed_trienode_bytes: "0x0".to_string(),
        healed_trienodes: "0x0".to_string(),
        healing_bytecode: "0x0".to_string(),
        healing_trienodes: "0x0".to_string(),
        highest_block: highest.to_string(),
        starting_block: "0x0".to_string(),
        synced_account_bytes: "0x0".to_string(),
        synced_accounts: "0x0".to_string(),
        synced_bytecode_bytes: "0x0".to_string(),
        synced_bytecodes: "0x0".to_string(),
        synced_storage: "0x0".to_string(),
        synced_storage_bytes: "0x0".to_string(),
        tx_index_finished_blocks: "0x0".to_string(),
        tx_index_remaining_blocks: "0x0".to_string(),
    }
}

/// Runs a whole evaluation on the given call results.
fn evaluate(
    own: Result<u64, RpcError>,
    references: Vec<Result<u64, RpcError>>,
    syncing: Result<SyncingStatus, RpcError>,
) -> (HealthVerdict, bool) {
    let mut probe = Probe::new(DEFAULT_BEHIND_THRESHOLD);
    assert_eq!(probe.next_action(), Action::FetchHeights);
    let mut asked_syncing = false;
    let mut action = probe.on_heights(own, &references);
    loop {
        match action {
            Action::FetchHeights => panic!("heights asked for twice"),
            Action::FetchSyncing => {
                assert!(!asked_syncing);
                asked_syncing = true;
                action = probe.on_syncing(&syncing);
            }
            Action::Report(v) => return (v, asked_syncing),
        }
    }
}

#[test]
fn delta_is_symmetric() {
    assert_eq!(block_delta(3, 10), 7);
    assert_eq!(block_delta(10, 3), 7);
    assert_eq!(block_delta(5, 5), 0);
    assert_eq!(block_delta(0, u64::MAX), u64::MAX);
    assert_eq!(block_delta(u64::MAX, 0), u64::MAX);
}

#[test]
fn flag_true_is_syncing_even_at_zero_delta() {
    assert_eq!(judge(&SyncingStatus::Flag(true), 100, 100, 10), HealthVerdict::Syncing);
    assert_eq!(judge(&SyncingStatus::Flag(true), 0, 5000, 10), HealthVerdict::Syncing);
}

#[test]
fn progress_object_is_syncing() {
    let s = SyncingStatus::Progress(progress("0x10", "0x20"));
    assert_eq!(judge(&s, 100, 100, 10), HealthVerdict::Syncing);
    let s = SyncingStatus::Progress(progress("", ""));
    assert_eq!(judge(&s, 7, 900, 10), HealthVerdict::Syncing);
}

#[test]
fn all_references_failing_count_as_height_zero() {
    // With no reference answer, the best height is zero by definition, so a
    // node is behind exactly when its own height reaches the threshold.
    let failed = vec![Err(RpcError::Transport), Err(RpcError::Decode)];
    assert_eq!(aggregate_heights(&failed), 0);
    let (v, _) = evaluate(Ok(9), failed.clone(), Ok(SyncingStatus::Flag(false)));
    assert_eq!(v, HealthVerdict::Healthy);
    let (v, _) = evaluate(Ok(10), failed, Ok(SyncingStatus::Flag(false)));
    assert_eq!(v, HealthVerdict::BehindReferences(10));
    let (v, _) = evaluate(Ok(3), vec![], Ok(SyncingStatus::Flag(false)));
    assert_eq!(v, HealthVerdict::Healthy);
}

#[test]
fn threshold_boundary() {
    let not_syncing = SyncingStatus::Flag(false);
    assert_eq!(judge(&not_syncing, 110, 100, 10), HealthVerdict::BehindReferences(10));
    assert_eq!(judge(&not_syncing, 100, 110, 10), HealthVerdict::BehindReferences(10));
    assert_eq!(judge(&not_syncing, 109, 100, 10), HealthVerdict::Healthy);
    assert_eq!(judge(&not_syncing, 100, 109, 10), HealthVerdict::Healthy);
    assert_eq!(DEFAULT_BEHIND_THRESHOLD, 10);
}

#[test]
fn close_to_references_is_healthy() {
    let refs = vec![Ok(101), Ok(102), Err(RpcError::Transport), Ok(99)];
    assert_eq!(aggregate_heights(&refs), 102);
    assert_eq!(block_delta(100, 102), 2);
    let (v, asked) = evaluate(Ok(100), refs, Ok(SyncingStatus::Flag(false)));
    assert_eq!(v, HealthVerdict::Healthy);
    assert!(asked);
}

#[test]
fn all_references_fail_node_is_behind() {
    let refs = vec![Err(RpcError::Transport), Err(RpcError::Transport)];
    assert_eq!(aggregate_heights(&refs), 0);
    let (v, _) = evaluate(Ok(50), refs, Ok(SyncingStatus::Flag(false)));
    assert_eq!(v, HealthVerdict::BehindReferences(50));
}

#[test]
fn own_height_timeout_is_unreachable() {
    let mut probe = Probe::new(DEFAULT_BEHIND_THRESHOLD);
    let action = probe.on_heights(Err(RpcError::Transport), &vec![Ok(100)]);
    assert_eq!(action, Action::Report(HealthVerdict::UpstreamUnreachable));
    assert_eq!(probe.phase, Phase::Finished(HealthVerdict::UpstreamUnreachable));
    let (v, asked) = evaluate(Err(RpcError::Transport), vec![Ok(1)], Ok(SyncingStatus::Flag(false)));
    assert_eq!(v, HealthVerdict::UpstreamUnreachable);
    assert!(!asked);
}

#[test]
fn unparsable_syncing_answer_is_malformed() {
    let (v, asked) = evaluate(Ok(100), vec![Ok(100)], Err(RpcError::Decode));
    assert_eq!(v, HealthVerdict::UpstreamMalformed);
    assert!(asked);
}

#[test]
fn syncing_transport_failure_is_unreachable() {
    assert_eq!(conclude(&Err(RpcError::Transport), 1, 1, 10), HealthVerdict::UpstreamUnreachable);
    assert_eq!(conclude(&Err(RpcError::Decode), 1, 1, 10), HealthVerdict::UpstreamMalformed);
    assert_eq!(conclude(&Ok(SyncingStatus::Flag(false)), 1, 1, 10), HealthVerdict::Healthy);
}

#[test]
fn syncing_takes_precedence_over_delta() {
    let (v, _) = evaluate(Ok(1), vec![Ok(1000)], Ok(SyncingStatus::Flag(true)));
    assert_eq!(v, HealthVerdict::Syncing);
    let (v, _) = evaluate(Ok(1), vec![Ok(1000)], Ok(SyncingStatus::Progress(progress("0x1", "0x3e8"))));
    assert_eq!(v, HealthVerdict::Syncing);
}

#[test]
fn events_out_of_phase_change_nothing() {
    let mut probe = Probe::new(5);
    assert_eq!(probe.on_syncing(&Ok(SyncingStatus::Flag(true))), Action::FetchHeights);
    assert_eq!(probe.phase, Phase::AwaitingHeights);
    assert_eq!(probe.on_heights(Ok(20), &vec![Ok(10)]), Action::FetchSyncing);
    assert_eq!(probe.phase, Phase::AwaitingSyncing { own: 20, reference: 10 });
    assert_eq!(probe.on_heights(Err(RpcError::Transport), &vec![]), Action::FetchSyncing);
    assert_eq!(probe.on_syncing(&Ok(SyncingStatus::Flag(false))), Action::Report(HealthVerdict::BehindReferences(10)));
    assert_eq!(probe.on_syncing(&Err(RpcError::Decode)), Action::Report(HealthVerdict::BehindReferences(10)));
    assert_eq!(probe.threshold, 5);
}

#[test]
fn decodes_hex_block_numbers() {
    assert_eq!(decode_block_number("0x0"), Ok(0));
    assert_eq!(decode_block_number("0x1a"), Ok(26));
    assert_eq!(decode_block_number("0x1A"), Ok(26));
    assert_eq!(decode_block_number("0x12d687"), Ok(1234567));
    assert_eq!(decode_block_number("0xffffffffffffffff"), Ok(u64::MAX));
    assert_eq!(decode_block_number("0x000000000000000000ff"), Ok(255));
}

#[test]
fn rejects_malformed_block_numbers() {
    assert_eq!(decode_block_number(""), Err(RpcError::Decode));
    assert_eq!(decode_block_number("0x"), Err(RpcError::Decode));
    assert_eq!(decode_block_number("1a"), Err(RpcError::Decode));
    assert_eq!(decode_block_number("0X1a"), Err(RpcError::Decode));
    assert_eq!(decode_block_number("0x1g"), Err(RpcError::Decode));
    assert_eq!(decode_block_number("0x-1"), Err(RpcError::Decode));
    assert_eq!(decode_block_number("0x10000000000000000"), Err(RpcError::Decode));
    assert_eq!(decode_block_number("0x1ffffffffffffffffz"), Err(RpcError::Decode));
}

#[test]
fn aggregate_takes_the_maximum() {
    assert_eq!(aggregate_heights(&vec![]), 0);
    assert_eq!(aggregate_heights(&vec![Ok(5)]), 5);
    assert_eq!(aggregate_heights(&vec![Ok(7), Ok(7), Ok(3)]), 7);
    assert_eq!(aggregate_heights(&vec![Err(RpcError::Decode), Ok(0)]), 0);
    assert_eq!(aggregate_heights(&vec![Ok(u64::MAX), Ok(1)]), u64::MAX);
}

#[test]
fn verdicts_map_to_statuses_in_order_of_seriousness() {
    let all = [
        HealthVerdict::Healthy,
        HealthVerdict::Syncing,
        HealthVerdict::BehindReferences(12),
        HealthVerdict::UpstreamUnreachable,
        HealthVerdict::UpstreamMalformed,
    ];
    let codes: Vec<u16> = all.iter().map(|v| v.status_code()).collect();
    assert_eq!(codes, vec![200, 503, 503, 502, 500]);
    let sev: Vec<u8> = all.iter().map(|v| v.severity()).collect();
    assert_eq!(sev, vec![0, 1, 1, 2, 3]);
    assert_eq!(HealthVerdict::Healthy.message(), "Ethereum node is healthy");
    assert_eq!(HealthVerdict::UpstreamMalformed.message(), "Failed to parse Ethereum node status");
}

#[test]
fn request_payloads() {
    assert_eq!(
        RpcMethod::BlockNumber.payload(),
        r#"{"jsonrpc":"2.0","method":"eth_blockNumber","params":[],"id":1}"#
    );
    assert_eq!(
        RpcMethod::Syncing.payload(),
        r#"{"jsonrpc":"2.0","method":"eth_syncing","params":[],"id":0}"#
    );
}
