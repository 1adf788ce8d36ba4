use l2_sync::{
    aggregate_classes, build_commitment_ops, chain_dispatches, class_gap, collect_class_downloads,
    fetch_missing_classes, get_highest_block_hash_and_number, get_pending_block,
    get_pending_state_update, get_verified_tip, is_caught_up, needs_genesis_seed, tip_refresh_due,
    update_l2, update_starknet_data, verify_l2, Action, Block, ClassDownload, ClassDownloadError,
    ContractClassData, DeclaredClass, DeployedContract, Dispatch, FetchOutcome, Felt,
    L1SyncParams, L2StateUpdate, NonceUpdate, ObservationStore, Phase, ReplacedClass, seal_request, SealRequest, StateDiff,
    StateUpdate, StorageWrite, SyncState, TipError, TrieOp, VerifyError,
};

fn f(v: u64) -> Felt {
    Felt::from_u64(v)
}

fn update(deployed: Vec<(u64, u64)>, declared: Vec<(u64, u64)>) -> StateUpdate {
    let mut diff = StateDiff::empty();
    for (a, c) in deployed {
        diff.deployed_contracts.push(DeployedContract { address: f(a), class_hash: f(c) });
    }
    for (c, k) in declared {
        diff.declared_classes.push(DeclaredClass { class_hash: f(c), compiled_class_hash: f(k) });
    }
    StateUpdate { block_hash: Some(f(0x100)), old_root: f(0), new_root: f(0x777), state_diff: diff }
}

fn class(hash: u64) -> ClassDownload {
    Ok(ContractClassData { hash: f(hash), definition: vec![hash as u8, 1, 2] })
}

fn failed(hash: u64) -> ClassDownload {
    Err(ClassDownloadError { class_hash: f(hash), message: String::from("gateway error") })
}

fn pending(number: Option<u64>, parent: u64) -> Block {
    Block { block_number: number, parent_block_hash: f(parent), payload: vec![9] }
}

#[test]
fn happy_path_one_height() {
    let su = update(vec![(0x1, 0xA)], vec![]);
    let ops = build_commitment_ops(&su.state_diff);
    assert_eq!(ops, vec![TrieOp::ContractClass { address: f(0x1), class_hash: f(0xA) }]);
    let mut store = ObservationStore::new();
    let tip = verify_l2(&mut store, 0, &su, f(0x777)).unwrap();
    assert_eq!(tip, L2StateUpdate { block_number: 0, global_root: f(0x777), block_hash: f(0x100) });
    assert_eq!(get_verified_tip(&store).block_number, 0);
    assert_eq!(get_verified_tip(&store).global_root, su.new_root);
    let candidates = aggregate_classes(&su);
    let missing = class_gap(candidates, None);
    assert_eq!(missing, vec![f(0xA)]);
    let msgs = chain_dispatches(su.clone(), vec![class(0xA)]).unwrap();
    assert_eq!(msgs.len(), 2);
    assert!(matches!(&msgs[0], Dispatch::StateUpdate(u) if u.new_root == f(0x777)));
    match &msgs[1] {
        Dispatch::Classes(cs) => {
            assert_eq!(cs.len(), 1);
            assert_eq!(cs[0].hash, f(0xA));
        }
        _ => panic!("class batch expected second"),
    }
}

#[test]
fn partial_success_fetches_block_only() {
    let mut s = SyncState::new(5);
    assert_eq!(s.next_action(), Action::Fetch { height: 5, block: true, state_update: true });
    assert_eq!(s.record_fetch(false, true), FetchOutcome::RetryBlock);
    assert_eq!(s.next_action(), Action::Fetch { height: 5, block: true, state_update: false });
    assert_eq!(s.record_fetch(true, false), FetchOutcome::Seal);
    assert_eq!(s.next_action(), Action::Seal);
    s.record_seal(Some(f(0x55)));
    assert_eq!(s.height, 6);
    assert_eq!(s.last_block_hash, Some(f(0x55)));
    assert_eq!(s.next_action(), Action::Fetch { height: 6, block: true, state_update: true });
}

#[test]
fn class_dedup_declared_and_deployed() {
    let su = update(vec![(0x2, 0xB)], vec![(0xB, 0xBB)]);
    let candidates = aggregate_classes(&su);
    assert_eq!(candidates, vec![f(0xB)]);
    let missing = class_gap(candidates, Some(vec![false]));
    assert_eq!(missing, vec![f(0xB)]);
    let msgs = chain_dispatches(su, vec![class(0xB)]).unwrap();
    match &msgs[1] {
        Dispatch::Classes(cs) => assert_eq!(cs.len(), 1),
        _ => panic!("class batch expected second"),
    }
}

#[test]
fn fail_fast_class_download() {
    let su = update(vec![(0x1, 0xA), (0x2, 0xB), (0x3, 0xC)], vec![]);
    let r = chain_dispatches(su, vec![class(0xA), failed(0xB), class(0xC)]);
    let e = r.unwrap_err();
    assert_eq!(e.class_hash, f(0xB));
    let mut s = SyncState::new(7);
    assert_eq!(s.record_fetch(true, false), FetchOutcome::RetryStateUpdate);
    assert_eq!(s.phase, Phase::NeedStateUpdate);
    assert_eq!(s.next_action(), Action::Fetch { height: 7, block: false, state_update: true });
}

#[test]
fn tip_observer_catch_up_gate() {
    let mut store = ObservationStore::new();
    let earlier = update(vec![], vec![]);
    update_starknet_data(&mut store, f(0x10), pending(Some(20), 0x10), Some(earlier)).unwrap();
    assert!(get_pending_block(&store).is_some());
    assert_eq!(get_highest_block_hash_and_number(&store), (f(0x10), 19));
    let newer = update(vec![(0x4, 0xD)], vec![]);
    update_starknet_data(&mut store, f(0x10), pending(Some(21), 0x11), Some(newer)).unwrap();
    assert_eq!(get_highest_block_hash_and_number(&store), (f(0x11), 20));
    assert_eq!(get_pending_block(&store).as_ref().unwrap().parent_block_hash, f(0x10));
    let su = get_pending_state_update(&store).as_ref().unwrap();
    assert_eq!(su.state_diff.deployed_contracts.len(), 0);
}

#[test]
fn seal_failure_is_fatal() {
    let mut s = SyncState::new(10);
    assert_eq!(s.record_fetch(true, true), FetchOutcome::Seal);
    s.record_seal(None);
    assert_eq!(s.phase, Phase::Halted);
    assert_eq!(s.height, 10);
    assert_eq!(s.next_action(), Action::Stop);
}

#[test]
fn commitment_ops_follow_category_order() {
    let mut diff = StateDiff::empty();
    diff.replaced_classes.push(ReplacedClass { address: f(5), class_hash: f(50) });
    diff.nonces.push(NonceUpdate { address: f(4), nonce: f(40) });
    diff.storage_writes.push(StorageWrite { address: f(3), key: f(30), value: f(31) });
    diff.storage_writes.push(StorageWrite { address: f(3), key: f(32), value: f(33) });
    diff.deployed_contracts.push(DeployedContract { address: f(2), class_hash: f(20) });
    diff.declared_classes.push(DeclaredClass { class_hash: f(10), compiled_class_hash: f(11) });
    let ops = build_commitment_ops(&diff);
    assert_eq!(
        ops,
        vec![
            TrieOp::ClassLeaf { class_hash: f(10), compiled_class_hash: f(11) },
            TrieOp::ContractClass { address: f(2), class_hash: f(20) },
            TrieOp::Storage { address: f(3), key: f(30), value: f(31) },
            TrieOp::Storage { address: f(3), key: f(32), value: f(33) },
            TrieOp::Nonce { address: f(4), nonce: f(40) },
            TrieOp::ContractClass { address: f(5), class_hash: f(50) },
        ]
    );
}

#[test]
fn commitment_ops_of_empty_diff() {
    assert!(build_commitment_ops(&StateDiff::empty()).is_empty());
}

#[test]
fn verify_rejects_root_mismatch() {
    let su = update(vec![], vec![]);
    let mut store = ObservationStore::new();
    let r = verify_l2(&mut store, 3, &su, f(0x778));
    assert_eq!(r, Err(VerifyError::RootMismatch { computed: f(0x778), announced: f(0x777) }));
    assert_eq!(get_verified_tip(&store).block_number, 0);
    assert_eq!(get_verified_tip(&store).global_root, f(0));
}

#[test]
fn verify_rejects_missing_block_hash() {
    let mut su = update(vec![], vec![]);
    su.block_hash = None;
    let mut store = ObservationStore::new();
    assert_eq!(verify_l2(&mut store, 3, &su, f(0x777)), Err(VerifyError::MissingBlockHash));
}

#[test]
fn verified_tip_is_last_success() {
    let mut store = ObservationStore::new();
    let su = update(vec![], vec![]);
    verify_l2(&mut store, 1, &su, f(0x777)).unwrap();
    verify_l2(&mut store, 2, &su, f(0x777)).unwrap();
    assert!(verify_l2(&mut store, 3, &su, f(1)).is_err());
    assert_eq!(get_verified_tip(&store).block_number, 2);
}

#[test]
fn update_l2_replaces_tip() {
    let mut store = ObservationStore::new();
    let tip = L2StateUpdate { block_number: 8, global_root: f(1), block_hash: f(2) };
    update_l2(&mut store, tip);
    assert_eq!(get_verified_tip(&store), tip);
    assert!(get_pending_block(&store).is_none());
}

#[test]
fn aggregate_keeps_first_seen_order() {
    let su = update(vec![(1, 0xC), (2, 0xA), (3, 0xC)], vec![(0xB, 1), (0xA, 2)]);
    assert_eq!(aggregate_classes(&su), vec![f(0xC), f(0xA), f(0xB)]);
}

#[test]
fn missing_classes_skip_stored_ones() {
    let cands = vec![f(0xA), f(0xB), f(0xC)];
    assert_eq!(fetch_missing_classes(&cands, &vec![false, true, false]), vec![f(0xA), f(0xC)]);
    assert_eq!(fetch_missing_classes(&cands, &vec![true, true, true]), Vec::<Felt>::new());
    assert_eq!(class_gap(cands.clone(), None), cands);
}

#[test]
fn empty_update_needs_no_class() {
    let su = update(vec![], vec![]);
    assert!(aggregate_classes(&su).is_empty());
    let msgs = chain_dispatches(su, vec![]).unwrap();
    assert!(matches!(&msgs[1], Dispatch::Classes(cs) if cs.is_empty()));
}

#[test]
fn collect_returns_all_classes_in_order() {
    let r = collect_class_downloads(vec![class(3), class(1)]).unwrap();
    assert_eq!(r.len(), 2);
    assert_eq!(r[0].hash, f(3));
    assert_eq!(r[1].hash, f(1));
    let e = collect_class_downloads(vec![class(3), failed(4), failed(5)]).unwrap_err();
    assert_eq!(e.class_hash, f(4));
}

#[test]
fn state_failure_retries_both_when_block_failed_too() {
    let mut s = SyncState::new(3);
    assert_eq!(s.record_fetch(false, false), FetchOutcome::RetryStateUpdate);
    assert_eq!(s.next_action(), Action::Fetch { height: 3, block: true, state_update: true });
}

#[test]
fn tip_observer_errors_leave_store_untouched() {
    let mut store = ObservationStore::new();
    assert_eq!(
        update_starknet_data(&mut store, f(1), pending(None, 1), None),
        Err(TipError::MissingBlockNumber)
    );
    assert_eq!(update_starknet_data(&mut store, f(1), pending(Some(0), 1), None), Err(TipError::NoParent));
    assert_eq!(
        update_starknet_data(&mut store, f(1), pending(Some(4), 1), None),
        Err(TipError::MissingPendingStateUpdate)
    );
    assert_eq!(get_highest_block_hash_and_number(&store), (f(0), 0));
    assert!(get_pending_block(&store).is_none());
    assert!(is_caught_up(f(1), &pending(Some(4), 1)));
    assert!(!is_caught_up(f(2), &pending(Some(4), 1)));
}

#[test]
fn loop_timers_and_genesis() {
    assert!(needs_genesis_seed(1));
    assert!(!needs_genesis_seed(0));
    assert!(!needs_genesis_seed(2));
    assert!(!tip_refresh_due(1000));
    assert!(tip_refresh_due(1001));
}

#[test]
fn seal_request_is_empty_and_final() {
    assert_eq!(seal_request(), SealRequest { create_empty: true, finalize: true, parent_hash: None });
}

#[test]
fn l1_params_default() {
    let p = L1SyncParams::default();
    assert!(!p.sync_l1_disabled);
    assert!(p.l1_endpoint.is_none());
    assert_eq!(p.gas_price_poll_secs, 10);
}
