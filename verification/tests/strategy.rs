use xcnft::strategy::{
    Command, First, Next, PolkadotSyncingStrategy, StrategyActions, SyncingStrategy,
};
use xcnft::sync::{
    chain_sync_mode, ChainSyncMode, ChainTypes, PeerId, StateStrategyAction, StrategyKey, SyncMode,
    SyncingAction, SyncingConfig, WarpSyncAction,
};

struct TestChain;

impl ChainTypes for TestChain {
    type Hash = u64;
    type Number = u32;
    type BlockAnnounce = &'static str;
    type BlockRequest = &'static str;
    type BlockData = u8;
    type IncomingBlock = u8;
    type BlockOrigin = u8;
    type Justifications = u8;
    type ImportResult = bool;
    type StateRequest = &'static str;
    type StateResponse = &'static str;
    type WarpProofRequest = &'static str;
    type EncodedProof = &'static str;
    type WarpSyncConfig = &'static str;
    type WarpSyncResult = &'static str;
    type BadPeer = u8;
    type ClientError = &'static str;
    type Registry = &'static str;
}

type Strategy = PolkadotSyncingStrategy<TestChain>;

fn peer(n: u128) -> PeerId {
    PeerId { code: 0, size: 36, digest_0: n, digest_1: 0, digest_2: 0, digest_3: 0 }
}

fn config(mode: SyncMode) -> SyncingConfig<&'static str> {
    SyncingConfig {
        mode,
        max_parallel_downloads: 5,
        max_blocks_per_request: 64,
        metrics_registry: Some("registry"),
    }
}

fn started(mode: SyncMode) -> Strategy {
    match Strategy::started(config(mode), Ok(())) {
        Ok(strategy) => strategy,
        Err(e) => panic!("{}", e),
    }
}

/// A strategy at each stage, with the stage.
fn stages() -> Vec<(StrategyKey, Strategy)> {
    let mut state = started(SyncMode::Warp);
    assert_eq!(state.proceeded(true, Ok(())), Ok(()));
    vec![
        (StrategyKey::Warp, started(SyncMode::Warp)),
        (StrategyKey::State, state),
        (StrategyKey::ChainSync, started(SyncMode::Full)),
    ]
}

#[test]
fn modes_correspond() {
    assert_eq!(chain_sync_mode(SyncMode::Full), ChainSyncMode::Full);
    assert_eq!(chain_sync_mode(SyncMode::Warp), ChainSyncMode::Full);
    assert_eq!(
        chain_sync_mode(SyncMode::LightState { skip_proofs: true, storage_chain_mode: false }),
        ChainSyncMode::LightState { skip_proofs: true, storage_chain_mode: false }
    );
}

#[test]
fn warp_mode_begins_with_warp_sync() {
    let config = config(SyncMode::Warp);
    match Strategy::new(&config, Some("warp config")) {
        First::Warp(warp_config) => assert_eq!(warp_config, "warp config"),
        First::ChainSync(_) => panic!("not warp sync"),
    }
    assert_eq!(started(SyncMode::Warp).active(), StrategyKey::Warp);
}

#[test]
fn other_modes_begin_with_chain_sync() {
    let mode = SyncMode::LightState { skip_proofs: false, storage_chain_mode: true };
    let config = config(mode);
    match Strategy::new(&config, None) {
        First::ChainSync(start) => {
            assert_eq!(
                start.mode,
                ChainSyncMode::LightState { skip_proofs: false, storage_chain_mode: true }
            );
            assert_eq!(start.max_parallel_downloads, 5);
            assert_eq!(start.max_blocks_per_request, 64);
            assert_eq!(start.metrics_registry, Some(&"registry"));
            assert_eq!(start.initial_peers, vec![]);
        }
        First::Warp(_) => panic!("warp sync"),
    }
    assert_eq!(started(mode).active(), StrategyKey::ChainSync);
    assert_eq!(Strategy::started(config, Err("no genesis")).err(), Some("no genesis"));
}

#[test]
fn state_sync_takes_the_peers_over() {
    let mut strategy = started(SyncMode::Warp);
    strategy.add_peer(peer(1), 11, 111);
    strategy.add_peer(peer(2), 22, 222);
    match strategy.proceed_to_next(Some("target")) {
        Next::State { target, skip_proofs, initial_peers } => {
            assert_eq!(target, "target");
            assert!(!skip_proofs);
            assert_eq!(initial_peers, vec![(peer(1), 111), (peer(2), 222)]);
        }
        Next::ChainSync(_) => panic!("not state sync"),
    }
    assert_eq!(strategy.active(), StrategyKey::Warp);
    assert_eq!(strategy.proceeded(true, Ok(())), Ok(()));
    assert_eq!(strategy.active(), StrategyKey::State);
    assert_eq!(strategy.num_peers(), 2);
}

#[test]
fn chain_sync_takes_the_peers_over() {
    // After warp sync that led nowhere, and after state sync.
    for from_state in [false, true] {
        let mut strategy = started(SyncMode::Warp);
        strategy.add_peer(peer(1), 11, 111);
        if from_state {
            assert_eq!(strategy.proceeded(true, Ok(())), Ok(()));
        }
        match strategy.proceed_to_next(None) {
            Next::ChainSync(start) => {
                assert_eq!(start.mode, ChainSyncMode::Full);
                assert_eq!(start.max_parallel_downloads, 5);
                assert_eq!(start.max_blocks_per_request, 64);
                assert_eq!(start.metrics_registry, Some(&"registry"));
                assert_eq!(start.initial_peers, vec![(peer(1), 11, 111)]);
            }
            Next::State { .. } => panic!("state sync"),
        }
        assert_eq!(strategy.proceeded(false, Ok(())), Ok(()));
        assert_eq!(strategy.active(), StrategyKey::ChainSync);
        assert_eq!(strategy.num_peers(), 1);
    }
}

#[test]
fn strategy_stays_when_the_next_one_cannot_be_started() {
    let mut strategy = started(SyncMode::Warp);
    assert_eq!(strategy.proceeded(false, Err("no")), Err("no"));
    assert_eq!(strategy.active(), StrategyKey::Warp);
}

#[test]
fn peers_come_and_go() {
    for (key, mut strategy) in stages() {
        match strategy.add_peer(peer(1), 11, 111) {
            Command::AddPeer { to, peer_id, best_hash, best_number } => {
                assert_eq!((to, peer_id, best_hash, best_number), (key, peer(1), 11, 111));
            }
            _ => panic!("another command"),
        }
        assert_eq!(strategy.num_peers(), 1);
        match strategy.remove_peer(peer(1)) {
            Command::RemovePeer { to, peer_id } => assert_eq!((to, peer_id), (key, peer(1))),
            _ => panic!("another command"),
        }
        assert_eq!(strategy.num_peers(), 0);
    }
}

#[test]
fn a_peer_counts_once() {
    let mut strategy = started(SyncMode::Warp);
    strategy.add_peer(peer(1), 11, 111);
    strategy.add_peer(peer(2), 22, 222);
    strategy.add_peer(peer(2), 23, 223);
    assert_eq!(strategy.num_peers(), 2);
    strategy.remove_peer(peer(2));
    assert_eq!(strategy.num_peers(), 1);
    strategy.remove_peer(peer(2));
    assert_eq!(strategy.num_peers(), 1);
    match strategy.proceed_to_next(None) {
        Next::ChainSync(start) => {
            assert_eq!(start.initial_peers, vec![(peer(1), 11, 111)]);
        }
        Next::State { .. } => panic!("state sync"),
    }
}

#[test]
fn best_blocks_of_connected_peers_are_remembered() {
    let mut strategy = started(SyncMode::Warp);
    strategy.add_peer(peer(1), 11, 111);
    match strategy.on_validated_block_announce(true, peer(1), "announce") {
        Command::BlockAnnounced { to, is_best, peer_id, announce } => {
            assert_eq!(
                (to, is_best, peer_id, announce),
                (StrategyKey::Warp, true, peer(1), "announce")
            );
        }
        _ => panic!("another command"),
    }
    assert_eq!(
        strategy.on_validated_block_announced(peer(1), Some((12, 112))),
        Some((12, 112))
    );
    assert_eq!(
        strategy.on_validated_block_announced(peer(2), Some((13, 113))),
        Some((13, 113))
    );
    assert_eq!(strategy.on_validated_block_announced(peer(1), None), None);
    match strategy.proceed_to_next(None) {
        Next::ChainSync(start) => {
            assert_eq!(start.initial_peers, vec![(peer(1), 12, 112)]);
        }
        Next::State { .. } => panic!("state sync"),
    }
}

#[test]
fn responses_go_to_who_asked() {
    let keys = [StrategyKey::Warp, StrategyKey::State, StrategyKey::ChainSync];
    for (active, strategy) in stages() {
        for key in keys {
            let expected = key == active && key != StrategyKey::State;
            match strategy.on_block_response(peer(1), key, "request", vec![1, 2]) {
                Some(Command::BlockResponse { to, peer_id, request, blocks }) => {
                    assert!(expected);
                    assert_eq!(
                        (to, peer_id, request, blocks),
                        (key, peer(1), "request", vec![1, 2])
                    );
                }
                Some(_) => panic!("another command"),
                None => assert!(!expected),
            }

            let expected = key == active && key != StrategyKey::Warp;
            match strategy.on_state_response(peer(1), key, "state") {
                Some(Command::StateResponse { to, peer_id, response }) => {
                    assert!(expected);
                    assert_eq!((to, peer_id, response), (key, peer(1), "state"));
                }
                Some(_) => panic!("another command"),
                None => assert!(!expected),
            }

            let expected = key == active && key == StrategyKey::Warp;
            match strategy.on_warp_proof_response(peer(1), key, "proof") {
                Some(Command::WarpProofResponse { to, peer_id, response }) => {
                    assert!(expected);
                    assert_eq!((to, peer_id, response), (key, peer(1), "proof"));
                }
                Some(_) => panic!("another command"),
                None => assert!(!expected),
            }
        }
    }
}

#[test]
fn processed_blocks_concern_state_and_chain_sync() {
    for (active, strategy) in stages() {
        match strategy.on_blocks_processed(1, 2, vec![(true, 7)]) {
            Some(Command::BlocksProcessed { to, imported, count, results }) => {
                assert_ne!(active, StrategyKey::Warp);
                assert_eq!((to, imported, count, results), (active, 1, 2, vec![(true, 7)]));
            }
            Some(_) => panic!("another command"),
            None => assert_eq!(active, StrategyKey::Warp),
        }
    }
}

#[test]
fn some_calls_concern_chain_sync_alone() {
    for (active, strategy) in stages() {
        let is_chain_sync = active == StrategyKey::ChainSync;
        let commands = [
            strategy.set_sync_fork_request(vec![peer(1)], 7, 8),
            strategy.request_justification(7, 8),
            strategy.clear_justification_requests(),
            strategy.on_justification_import(7, 8, true),
            strategy.on_block_finalized(7, 8),
            strategy.update_chain_info(7, 8),
        ];
        for command in &commands {
            assert_eq!(command.is_some(), is_chain_sync);
        }
        if is_chain_sync {
            assert!(matches!(
                &commands[0],
                Some(Command::SetSyncForkRequest { peers, hash: 7, number: 8, .. })
                    if *peers == vec![peer(1)]
            ));
            assert!(matches!(
                commands[1],
                Some(Command::RequestJustification { hash: 7, number: 8, .. })
            ));
            assert!(matches!(commands[2], Some(Command::ClearJustificationRequests { .. })));
            assert!(matches!(
                commands[3],
                Some(Command::JustificationImported { hash: 7, number: 8, success: true, .. })
            ));
            assert!(matches!(
                commands[4],
                Some(Command::BlockFinalized { hash: 7, number: 8, .. })
            ));
            assert!(matches!(
                commands[5],
                Some(Command::ChainInfoUpdated { best_hash: 7, best_number: 8, .. })
            ));
        }
    }
}

#[test]
fn status_is_that_of_the_strategy_at_work() {
    for (active, strategy) in stages() {
        let is_chain_sync = active == StrategyKey::ChainSync;
        assert_eq!(strategy.status(), active);
        assert!(strategy.is_major_syncing(true));
        assert_eq!(strategy.is_major_syncing(false), !is_chain_sync);
        assert_eq!(strategy.num_downloaded_blocks(3), if is_chain_sync { 3 } else { 0 });
        assert_eq!(strategy.num_sync_requests(4), if is_chain_sync { 4 } else { 0 });
    }
}

#[test]
fn warp_actions_get_their_key() {
    let strategy = started(SyncMode::Warp);
    let actions = StrategyActions::Warp(vec![
        WarpSyncAction::SendWarpProofRequest { peer_id: peer(1), request: "proof" },
        WarpSyncAction::SendBlockRequest { peer_id: peer(2), request: "block" },
        WarpSyncAction::DropPeer(9),
        WarpSyncAction::Finished,
    ]);
    let (actions, finished) = strategy.actions(actions).ok().unwrap();
    assert!(finished);
    assert_eq!(actions.len(), 4);
    assert!(matches!(
        actions[0],
        SyncingAction::SendWarpProofRequest { key: StrategyKey::Warp, request: "proof", .. }
    ));
    assert!(matches!(
        actions[1],
        SyncingAction::SendBlockRequest { key: StrategyKey::Warp, request: "block", .. }
    ));
    assert!(matches!(actions[2], SyncingAction::DropPeer(9)));
    assert!(actions[3].is_finished());
}

#[test]
fn state_actions_get_their_key() {
    let (_, strategy) = stages().remove(1);
    let actions = StrategyActions::State(vec![
        StateStrategyAction::SendStateRequest { peer_id: peer(1), request: "state" },
        StateStrategyAction::ImportBlocks { origin: 1, blocks: vec![2] },
        StateStrategyAction::DropPeer(9),
    ]);
    let (actions, finished) = strategy.actions(actions).ok().unwrap();
    assert!(!finished);
    assert!(matches!(
        actions[0],
        SyncingAction::SendStateRequest { key: StrategyKey::State, request: "state", .. }
    ));
    assert!(matches!(&actions[1], SyncingAction::ImportBlocks { origin: 1, blocks } if *blocks == vec![2]));
    assert!(matches!(actions[2], SyncingAction::DropPeer(9)));

    let finish = StrategyActions::State(vec![StateStrategyAction::Finished]);
    assert!(strategy.actions(finish).ok().unwrap().1);
}

#[test]
fn chain_sync_actions_pass_unchanged() {
    let strategy = started(SyncMode::Full);
    let actions = StrategyActions::ChainSync(Ok(vec![SyncingAction::CancelRequest {
        peer_id: peer(1),
        key: StrategyKey::ChainSync,
    }]));
    let (actions, finished) = strategy.actions(actions).ok().unwrap();
    assert!(!finished);
    assert!(matches!(
        actions[0],
        SyncingAction::CancelRequest { key: StrategyKey::ChainSync, .. }
    ));
    let failed = StrategyActions::ChainSync(Err("client"));
    assert_eq!(strategy.actions(failed).err(), Some("client"));
}
