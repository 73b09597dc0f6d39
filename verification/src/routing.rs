//! What each call of the syncing strategy promises: whom it reaches, and what it leaves as it was.
use vstd::prelude::*;

use crate::strategy::{
    Command, First, Next, PolkadotSyncingStrategy, StrategyActions, SyncingStrategy,
};
use crate::sync::{
    chain_sync_mode, ChainSyncMode, ChainTypes, PeerId, StrategyKey, SyncMode, SyncingAction,
    SyncingConfig,
};

verus! {

/// Block-by-block sync is light exactly where light sync is asked for, and then with the same
/// settings.
pub proof fn law_what_the_mode_promises(mode: SyncMode, r: ChainSyncMode)
    requires
        call_ensures(chain_sync_mode, (mode,), r),
    ensures
        mode matches SyncMode::LightState { skip_proofs, storage_chain_mode } ==> r == (
        ChainSyncMode::LightState { skip_proofs, storage_chain_mode }),
        !(mode is LightState) ==> r == ChainSyncMode::Full,
{
}

/// Warp sync is to be started exactly where it is asked for, as configured; otherwise block-by-block
/// sync is, without peers.
pub proof fn law_what_a_new_strategy_promises<'a, B: ChainTypes>(
    config: &'a SyncingConfig<B::Registry>,
    warp_sync_config: Option<B::WarpSyncConfig>,
    r: First<'a, B>,
)
    requires
        call_ensures(PolkadotSyncingStrategy::<B>::new, (config, warp_sync_config), r),
    ensures
        r is Warp <==> config.mode is Warp,
        r matches First::Warp(warp_config) ==> warp_config == warp_sync_config->0,
        r matches First::ChainSync(start) ==> {
            &&& start.initial_peers@.len() == 0
            &&& start.mode is LightState <==> config.mode is LightState
            &&& start.max_parallel_downloads == config.max_parallel_downloads
            &&& start.max_blocks_per_request == config.max_blocks_per_request
        },
{
    if let First::ChainSync(start) = r {
        if start.initial_peers@.len() > 0 {
            assert(Map::<PeerId, (B::Hash, B::Number)>::empty().contains_key(
                start.initial_peers@[0].0,
            ));
        }
    }
}

/// A strategy that was started has the configuration that was given, the strategy at work that this
/// asks for, and no peers; one that was not gives its error back.
pub proof fn law_what_a_started_strategy_promises<B: ChainTypes>(
    config: SyncingConfig<B::Registry>,
    outcome: Result<(), B::ClientError>,
    r: Result<PolkadotSyncingStrategy<B>, B::ClientError>,
)
    requires
        call_ensures(PolkadotSyncingStrategy::<B>::started, (config, outcome), r),
    ensures
        r is Ok <==> outcome is Ok,
        outcome matches Err(e) ==> (r matches Err(error) && error == e),
        r matches Ok(strategy) ==> {
            &&& strategy@.config == config
            &&& strategy@.active is Warp <==> config.mode is Warp
            &&& !(strategy@.active is State)
            &&& forall|peer: PeerId| !(#[trigger] strategy@.peers.contains_key(peer))
        },
{
}

/// State sync is to follow exactly warp sync that has found something, and then towards that;
/// block-by-block sync is to follow otherwise. Either starts with every connected peer.
pub proof fn law_what_the_next_strategy_promises<'a, B: ChainTypes>(
    strategy: &'a PolkadotSyncingStrategy<B>,
    warp_result: Option<B::WarpSyncResult>,
    peer: PeerId,
    r: Next<'a, B>,
)
    requires
        call_ensures(
            PolkadotSyncingStrategy::<B>::proceed_to_next,
            (strategy, warp_result),
            r,
        ),
    ensures
        r is State <==> strategy@.active is Warp && warp_result is Some,
        r matches Next::State { target, skip_proofs, initial_peers } ==> {
            &&& target == warp_result->0
            &&& !skip_proofs
            &&& strategy@.peers.contains_key(peer) <==> exists|i: int|
                0 <= i < initial_peers@.len() && (#[trigger] initial_peers@[i]).0 == peer
        },
        r matches Next::ChainSync(start) ==> {
            &&& strategy@.peers.contains_key(peer) <==> exists|i: int|
                0 <= i < start.initial_peers@.len() && (#[trigger] start.initial_peers@[i]).0
                    == peer
            &&& start.mode is LightState <==> strategy@.config.mode is LightState
        },
{
}

/// Once the next strategy has been started, it is at work; where it could not be, the one before still
/// is. Configuration and peers stay in either case.
pub proof fn law_what_proceeding_promises<B: ChainTypes>(
    strategy: &mut PolkadotSyncingStrategy<B>,
    has_warp_result: bool,
    outcome: Result<(), B::ClientError>,
    r: Result<(), B::ClientError>,
)
    requires
        call_ensures(
            PolkadotSyncingStrategy::<B>::proceeded,
            (strategy, has_warp_result, outcome),
            r,
        ),
    ensures
        r is Ok <==> outcome is Ok,
        outcome matches Err(e) ==> (r matches Err(error) && error == e),
        final(strategy)@.config == old(strategy)@.config,
        final(strategy)@.peers == old(strategy)@.peers,
        outcome is Err ==> final(strategy)@.active == old(strategy)@.active,
        outcome is Ok ==> (final(strategy)@.active is State <==> old(strategy)@.active is Warp
            && has_warp_result) && !(final(strategy)@.active is Warp),
{
}

/// A peer that connects is known with its best block, and the strategy at work is told; nothing else
/// changes.
pub proof fn law_what_a_peer_that_comes_promises<B: ChainTypes>(
    strategy: &mut PolkadotSyncingStrategy<B>,
    peer_id: PeerId,
    best_hash: B::Hash,
    best_number: B::Number,
    r: Command<B>,
)
    requires
        call_ensures(
            PolkadotSyncingStrategy::<B>::add_peer,
            (strategy, peer_id, best_hash, best_number),
            r,
        ),
    ensures
        final(strategy)@.peers == old(strategy)@.peers.insert(peer_id, (best_hash, best_number)),
        final(strategy)@.config == old(strategy)@.config,
        final(strategy)@.active == old(strategy)@.active,
        r == (Command::<B>::AddPeer {
            to: old(strategy)@.active,
            peer_id,
            best_hash,
            best_number,
        }),
{
}

/// A peer that disconnects is no longer known, and the strategy at work is told; nothing else changes.
pub proof fn law_what_a_peer_that_goes_promises<B: ChainTypes>(
    strategy: &mut PolkadotSyncingStrategy<B>,
    peer_id: PeerId,
    r: Command<B>,
)
    requires
        call_ensures(PolkadotSyncingStrategy::<B>::remove_peer, (strategy, peer_id), r),
    ensures
        final(strategy)@.peers == old(strategy)@.peers.remove(peer_id),
        final(strategy)@.config == old(strategy)@.config,
        final(strategy)@.active == old(strategy)@.active,
        r == (Command::<B>::RemovePeer { to: old(strategy)@.active, peer_id }),
{
}

/// A new best block is told on, and remembered of a peer that is known; nothing is remembered of any
/// other, and no peer becomes known by it.
pub proof fn law_what_an_announced_block_promises<B: ChainTypes>(
    strategy: &mut PolkadotSyncingStrategy<B>,
    peer_id: PeerId,
    new_best: Option<(B::Hash, B::Number)>,
    r: Option<(B::Hash, B::Number)>,
)
    requires
        call_ensures(
            PolkadotSyncingStrategy::<B>::on_validated_block_announced,
            (strategy, peer_id, new_best),
            r,
        ),
    ensures
        r == new_best,
        final(strategy)@.config == old(strategy)@.config,
        final(strategy)@.active == old(strategy)@.active,
        final(strategy)@.peers.dom() == old(strategy)@.peers.dom(),
        forall|peer: PeerId| #[trigger]
            old(strategy)@.peers.contains_key(peer) ==> final(strategy)@.peers[peer] == if peer
                == peer_id && new_best is Some {
                new_best->0
            } else {
                old(strategy)@.peers[peer]
            },
{
}

/// A block that is announced is handed, as it is, to the strategy at work.
pub proof fn law_what_an_announcement_promises<B: ChainTypes>(
    strategy: PolkadotSyncingStrategy<B>,
    is_best: bool,
    peer_id: PeerId,
    announce: B::BlockAnnounce,
    r: Command<B>,
)
    requires
        call_ensures(
            PolkadotSyncingStrategy::<B>::on_validated_block_announce,
            (&strategy, is_best, peer_id, announce),
            r,
        ),
    ensures
        r == (Command::<B>::BlockAnnounced { to: strategy@.active, is_best, peer_id, announce }),
{
}

/// Blocks that a peer has sent reach the strategy that asked for them, as they are, exactly where it
/// is at work and asks for blocks.
pub proof fn law_whom_blocks_reach<B: ChainTypes>(
    strategy: PolkadotSyncingStrategy<B>,
    peer_id: PeerId,
    key: StrategyKey,
    request: B::BlockRequest,
    blocks: Vec<B::BlockData>,
    r: Option<Command<B>>,
)
    requires
        call_ensures(
            PolkadotSyncingStrategy::<B>::on_block_response,
            (&strategy, peer_id, key, request, blocks),
            r,
        ),
    ensures
        r is Some <==> strategy@.active == key && (key is Warp || key is ChainSync),
        r is Some ==> r->0 == (Command::<B>::BlockResponse { to: key, peer_id, request, blocks }),
{
}

/// State that a peer has sent reaches the strategy that asked for it, as it is, exactly where it is at
/// work and asks for state.
pub proof fn law_whom_state_reaches<B: ChainTypes>(
    strategy: PolkadotSyncingStrategy<B>,
    peer_id: PeerId,
    key: StrategyKey,
    response: B::StateResponse,
    r: Option<Command<B>>,
)
    requires
        call_ensures(
            PolkadotSyncingStrategy::<B>::on_state_response,
            (&strategy, peer_id, key, response),
            r,
        ),
    ensures
        r is Some <==> strategy@.active == key && (key is State || key is ChainSync),
        r is Some ==> r->0 == (Command::<B>::StateResponse { to: key, peer_id, response }),
{
}

/// A proof that a peer has sent reaches warp sync, as it is, exactly where that asked for it and is at
/// work.
pub proof fn law_whom_proofs_reach<B: ChainTypes>(
    strategy: PolkadotSyncingStrategy<B>,
    peer_id: PeerId,
    key: StrategyKey,
    response: B::EncodedProof,
    r: Option<Command<B>>,
)
    requires
        call_ensures(
            PolkadotSyncingStrategy::<B>::on_warp_proof_response,
            (&strategy, peer_id, key, response),
            r,
        ),
    ensures
        r is Some <==> strategy@.active is Warp && key is Warp,
        r is Some ==> r->0 == (Command::<B>::WarpProofResponse {
            to: StrategyKey::Warp,
            peer_id,
            response,
        }),
{
}

/// What came of processing blocks reaches the strategy at work, as it is, unless that is warp sync.
pub proof fn law_whom_processed_blocks_reach<B: ChainTypes>(
    strategy: PolkadotSyncingStrategy<B>,
    imported: usize,
    count: usize,
    results: Vec<(B::ImportResult, B::Hash)>,
    r: Option<Command<B>>,
)
    requires
        call_ensures(
            PolkadotSyncingStrategy::<B>::on_blocks_processed,
            (&strategy, imported, count, results),
            r,
        ),
    ensures
        r is Some <==> strategy@.active is State || strategy@.active is ChainSync,
        r is Some ==> r->0 == (Command::<B>::BlocksProcessed {
            to: strategy@.active,
            imported,
            count,
            results,
        }),
{
}

/// Forks and justifications are asked for exactly where block-by-block sync is at work, and then as they
/// are.
pub proof fn law_who_is_asked_for_forks_and_justifications<B: ChainTypes>(
    strategy: PolkadotSyncingStrategy<B>,
    peers: Vec<PeerId>,
    hash: B::Hash,
    number: B::Number,
    success: bool,
    r: Option<Command<B>>,
)
    ensures
        call_ensures(
            PolkadotSyncingStrategy::<B>::set_sync_fork_request,
            (&strategy, peers, hash, number),
            r,
        ) ==> {
            &&& r is Some <==> strategy@.active is ChainSync
            &&& r is Some ==> r->0 == (Command::<B>::SetSyncForkRequest {
                to: StrategyKey::ChainSync,
                peers,
                hash,
                number,
            })
        },
        call_ensures(
            PolkadotSyncingStrategy::<B>::request_justification,
            (&strategy, hash, number),
            r,
        ) ==> {
            &&& r is Some <==> strategy@.active is ChainSync
            &&& r is Some ==> r->0 == (Command::<B>::RequestJustification {
                to: StrategyKey::ChainSync,
                hash,
                number,
            })
        },
        call_ensures(
            PolkadotSyncingStrategy::<B>::clear_justification_requests,
            (&strategy,),
            r,
        ) ==> {
            &&& r is Some <==> strategy@.active is ChainSync
            &&& r is Some ==> r->0 == (Command::<B>::ClearJustificationRequests {
                to: StrategyKey::ChainSync,
            })
        },
        call_ensures(
            PolkadotSyncingStrategy::<B>::on_justification_import,
            (&strategy, hash, number, success),
            r,
        ) ==> {
            &&& r is Some <==> strategy@.active is ChainSync
            &&& r is Some ==> r->0 == (Command::<B>::JustificationImported {
                to: StrategyKey::ChainSync,
                hash,
                number,
                success,
            })
        },
{
}

/// New finalized and best blocks are told to block-by-block sync alone, as they are.
pub proof fn law_who_is_told_of_new_blocks<B: ChainTypes>(
    strategy: PolkadotSyncingStrategy<B>,
    hash: B::Hash,
    number: B::Number,
    r: Option<Command<B>>,
)
    ensures
        call_ensures(
            PolkadotSyncingStrategy::<B>::on_block_finalized,
            (&strategy, hash, number),
            r,
        ) ==> {
            &&& r is Some <==> strategy@.active is ChainSync
            &&& r is Some ==> r->0 == (Command::<B>::BlockFinalized {
                to: StrategyKey::ChainSync,
                hash,
                number,
            })
        },
        call_ensures(
            PolkadotSyncingStrategy::<B>::update_chain_info,
            (&strategy, hash, number),
            r,
        ) ==> {
            &&& r is Some <==> strategy@.active is ChainSync
            &&& r is Some ==> r->0 == (Command::<B>::ChainInfoUpdated {
                to: StrategyKey::ChainSync,
                best_hash: hash,
                best_number: number,
            })
        },
{
}

/// Syncing is major as long as block-by-block sync is not at work, or says so itself; blocks and
/// requests are counted by block-by-block sync alone, and peers by who is connected.
pub proof fn law_what_is_told_of_syncing<B: ChainTypes>(
    strategy: PolkadotSyncingStrategy<B>,
    is_major: bool,
    given: usize,
    key: StrategyKey,
    told: bool,
    counted: usize,
)
    ensures
        call_ensures(
            PolkadotSyncingStrategy::<B>::is_major_syncing,
            (&strategy, is_major),
            told,
        ) ==> (told <==> strategy@.active is Warp || strategy@.active is State || is_major),
        call_ensures(
            PolkadotSyncingStrategy::<B>::num_downloaded_blocks,
            (&strategy, given),
            counted,
        ) ==> counted == if strategy@.active is ChainSync {
            given
        } else {
            0
        },
        call_ensures(
            PolkadotSyncingStrategy::<B>::num_sync_requests,
            (&strategy, given),
            counted,
        ) ==> counted == if strategy@.active is ChainSync {
            given
        } else {
            0
        },
        call_ensures(PolkadotSyncingStrategy::<B>::num_peers, (&strategy,), counted) ==> counted
            == strategy@.peers.dom().len(),
        call_ensures(PolkadotSyncingStrategy::<B>::status, (&strategy,), key) ==> key
            == strategy@.active,
        call_ensures(PolkadotSyncingStrategy::<B>::active, (&strategy,), key) ==> key
            == strategy@.active,
{
}

/// Every action of the strategy at work is handed on, in order and none besides, and the strategy is
/// taken to have finished exactly where one of them says so. What block-by-block sync wants is handed on
/// as it is; where it failed, its error is.
pub proof fn law_what_handing_actions_on_promises<B: ChainTypes>(
    strategy: PolkadotSyncingStrategy<B>,
    actions: StrategyActions<B>,
    r: Result<(Vec<SyncingAction<B>>, bool), B::ClientError>,
)
    requires
        call_ensures(PolkadotSyncingStrategy::<B>::actions, (&strategy, actions), r),
    ensures
        r is Err <==> (actions is ChainSync && actions->ChainSync_0 is Err),
        r is Err ==> r->Err_0 == actions->ChainSync_0->Err_0,
        actions matches StrategyActions::ChainSync(Ok(given)) ==> {
            &&& r->Ok_0.0@.len() == given@.len()
            &&& forall|i: int| 0 <= i < given@.len() ==> #[trigger] r->Ok_0.0@[i] == given@[i]
            &&& r->Ok_0.1 <==> exists|i: int|
                0 <= i < given@.len() && (#[trigger] given@[i]) is Finished
        },
        actions matches StrategyActions::Warp(given) ==> {
            &&& r->Ok_0.0@.len() == given@.len()
            &&& r->Ok_0.1 <==> exists|i: int|
                0 <= i < given@.len() && (#[trigger] given@[i]) is Finished
        },
        actions matches StrategyActions::State(given) ==> {
            &&& r->Ok_0.0@.len() == given@.len()
            &&& r->Ok_0.1 <==> exists|i: int|
                0 <= i < given@.len() && (#[trigger] given@[i]) is Finished
        },
{
    if r is Ok {
        let keyed = r->Ok_0.0@;
        match actions {
            StrategyActions::Warp(given) => {
                assert forall|i: int| 0 <= i < given@.len() implies (#[trigger] given@[i]
                    is Finished <==> keyed[i] is Finished) by {}
            },
            StrategyActions::State(given) => {
                assert forall|i: int| 0 <= i < given@.len() implies (#[trigger] given@[i]
                    is Finished <==> keyed[i] is Finished) by {}
            },
            StrategyActions::ChainSync(_) => {},
        }
    }
}

} // verus!
