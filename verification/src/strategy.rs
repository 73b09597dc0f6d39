//! The strategy that stands for whichever way to sync is at work.
use vstd::prelude::*;

use crate::sync::{
    chain_sync_mode, corresponding_mode, from_state, from_warp, ChainSyncMode, ChainTypes, PeerId,
    StateStrategyAction, StrategyKey, SyncMode, SyncingAction, SyncingConfig, WarpSyncAction,
};
use crate::table::{has_key_at, lemma_row_of_key, Table};

verus! {

/// Which strategies are at work.
#[derive(Clone, Copy, PartialEq, Eq, Structural, Debug)]
struct Strategies {
    warp: bool,
    state: bool,
    chain_sync: bool,
}

impl Strategies {
    /// Exactly one strategy is at work.
    #[verifier::type_invariant]
    spec fn one_is_at_work(&self) -> bool {
        &&& self.warp || self.state || self.chain_sync
        &&& !(self.warp && self.state)
        &&& !(self.warp && self.chain_sync)
        &&& !(self.state && self.chain_sync)
    }
}

/// Proxy to specific syncing strategies used in Polkadot.
pub struct PolkadotSyncingStrategy<B: ChainTypes> {
    /// Initial syncing configuration.
    config: SyncingConfig<B::Registry>,
    strategies: Strategies,
    /// Connected peers and their best blocks used to seed a new strategy when switching to it.
    peer_best_blocks: Table<PeerId, (B::Hash, B::Number)>,
}

/// What the proxy knows.
#[verifier::ext_equal]
pub struct StrategyView<B: ChainTypes> {
    pub config: SyncingConfig<B::Registry>,
    /// The one strategy that is at work.
    pub active: StrategyKey,
    pub peers: Map<PeerId, (B::Hash, B::Number)>,
}

impl<B: ChainTypes> View for PolkadotSyncingStrategy<B> {
    type V = StrategyView<B>;

    closed spec fn view(&self) -> StrategyView<B> {
        StrategyView {
            config: self.config,
            active: if self.strategies.warp {
                StrategyKey::Warp
            } else if self.strategies.state {
                StrategyKey::State
            } else {
                StrategyKey::ChainSync
            },
            peers: self.peer_best_blocks@,
        }
    }
}

/// Something that a strategy is to be told.
#[allow(inconsistent_fields)]
pub enum Command<B: ChainTypes> {
    /// A peer has connected.
    AddPeer { to: StrategyKey, peer_id: PeerId, best_hash: B::Hash, best_number: B::Number },
    /// A peer has disconnected.
    RemovePeer { to: StrategyKey, peer_id: PeerId },
    /// A block was announced and validated; the strategy answers with the peer's new best block.
    BlockAnnounced {
        to: StrategyKey,
        is_best: bool,
        peer_id: PeerId,
        announce: B::BlockAnnounce,
    },
    /// A fork is to be downloaded from these peers.
    SetSyncForkRequest { to: StrategyKey, peers: Vec<PeerId>, hash: B::Hash, number: B::Number },
    /// A justification is wanted.
    RequestJustification { to: StrategyKey, hash: B::Hash, number: B::Number },
    /// No justification is wanted any more.
    ClearJustificationRequests { to: StrategyKey },
    /// A justification was imported, or not.
    JustificationImported {
        to: StrategyKey,
        hash: B::Hash,
        number: B::Number,
        success: bool,
    },
    /// A peer has sent blocks.
    BlockResponse {
        to: StrategyKey,
        peer_id: PeerId,
        request: B::BlockRequest,
        blocks: Vec<B::BlockData>,
    },
    /// A peer has sent state.
    StateResponse { to: StrategyKey, peer_id: PeerId, response: B::StateResponse },
    /// A peer has sent a proof.
    WarpProofResponse { to: StrategyKey, peer_id: PeerId, response: B::EncodedProof },
    /// Blocks were processed.
    BlocksProcessed {
        to: StrategyKey,
        imported: usize,
        count: usize,
        results: Vec<(B::ImportResult, B::Hash)>,
    },
    /// A block was finalized.
    BlockFinalized { to: StrategyKey, hash: B::Hash, number: B::Number },
    /// There is a new best block.
    ChainInfoUpdated { to: StrategyKey, best_hash: B::Hash, best_number: B::Number },
}

/// With what block-by-block sync is to be started.
pub struct ChainSyncStart<'a, B: ChainTypes> {
    pub mode: ChainSyncMode,
    pub max_parallel_downloads: u32,
    pub max_blocks_per_request: u32,
    pub metrics_registry: Option<&'a B::Registry>,
    /// The peers that are connected, with their best blocks.
    pub initial_peers: Vec<(PeerId, B::Hash, B::Number)>,
}

/// The strategy that is to be started first.
pub enum First<'a, B: ChainTypes> {
    Warp(B::WarpSyncConfig),
    ChainSync(ChainSyncStart<'a, B>),
}

/// The strategy that is to be started in place of one that has finished.
pub enum Next<'a, B: ChainTypes> {
    /// State sync, towards what warp sync has found.
    State {
        target: B::WarpSyncResult,
        skip_proofs: bool,
        /// The peers that are connected, with the numbers of their best blocks.
        initial_peers: Vec<(PeerId, B::Number)>,
    },
    ChainSync(ChainSyncStart<'a, B>),
}

/// What the strategy at work wants to be done.
pub enum StrategyActions<B: ChainTypes> {
    Warp(Vec<WarpSyncAction<B>>),
    State(Vec<StateStrategyAction<B>>),
    ChainSync(Result<Vec<SyncingAction<B>>, B::ClientError>),
}

/// Whether `list` names every known peer once, with its best block.
pub open spec fn lists_peers<H, N>(
    list: Seq<(PeerId, H, N)>,
    peers: Map<PeerId, (H, N)>,
) -> bool {
    &&& forall|i: int, j: int|
        0 <= i < j < list.len() ==> (#[trigger] list[i]).0 != (#[trigger] list[j]).0
    &&& forall|i: int|
        0 <= i < list.len() ==> peers.contains_key((#[trigger] list[i]).0) && peers[list[i].0] == (
            list[i].1,
            list[i].2,
        )
    &&& forall|peer: PeerId| #[trigger]
        peers.contains_key(peer) ==> exists|i: int|
            0 <= i < list.len() && (#[trigger] list[i]).0 == peer
}

/// Whether `list` names every known peer once, with the number of its best block.
pub open spec fn lists_peer_numbers<H, N>(
    list: Seq<(PeerId, N)>,
    peers: Map<PeerId, (H, N)>,
) -> bool {
    &&& forall|i: int, j: int|
        0 <= i < j < list.len() ==> (#[trigger] list[i]).0 != (#[trigger] list[j]).0
    &&& forall|i: int|
        0 <= i < list.len() ==> peers.contains_key((#[trigger] list[i]).0) && peers[list[i].0].1
            == list[i].1
    &&& forall|peer: PeerId| #[trigger]
        peers.contains_key(peer) ==> exists|i: int|
            0 <= i < list.len() && (#[trigger] list[i]).0 == peer
}

impl<'a, B: ChainTypes> ChainSyncStart<'a, B> {
    /// Whether this starts block-by-block sync as configured, with these peers.
    pub open spec fn is_for(
        &self,
        config: SyncingConfig<B::Registry>,
        peers: Map<PeerId, (B::Hash, B::Number)>,
    ) -> bool {
        &&& self.mode == corresponding_mode(config.mode)
        &&& self.max_parallel_downloads == config.max_parallel_downloads
        &&& self.max_blocks_per_request == config.max_blocks_per_request
        &&& match config.metrics_registry {
            Some(registry) => self.metrics_registry == Some(&registry),
            None => self.metrics_registry is None,
        }
        &&& lists_peers(self.initial_peers@, peers)
    }
}

/// The strategy with which syncing begins.
pub open spec fn first_strategy(mode: SyncMode) -> StrategyKey {
    match mode {
        SyncMode::Warp => StrategyKey::Warp,
        _ => StrategyKey::ChainSync,
    }
}

/// The strategy that follows one that has finished; warp sync that led nowhere is followed by
/// block-by-block sync at once.
pub open spec fn next_strategy(active: StrategyKey, has_warp_result: bool) -> StrategyKey {
    if active is Warp && has_warp_result {
        StrategyKey::State
    } else {
        StrategyKey::ChainSync
    }
}

/// Whether these actions are those of the strategy `active`.
pub open spec fn are_actions_of<B: ChainTypes>(
    actions: StrategyActions<B>,
    active: StrategyKey,
) -> bool {
    match actions {
        StrategyActions::Warp(_) => active is Warp,
        StrategyActions::State(_) => active is State,
        StrategyActions::ChainSync(_) => active is ChainSync,
    }
}

/// The actions of a strategy, each under the strategy's key.
pub open spec fn keyed_actions<B: ChainTypes>(actions: StrategyActions<B>) -> Seq<
    SyncingAction<B>,
> {
    match actions {
        StrategyActions::Warp(actions) => actions@.map_values(
            |action: WarpSyncAction<B>| from_warp(action),
        ),
        StrategyActions::State(actions) => actions@.map_values(
            |action: StateStrategyAction<B>| from_state(action),
        ),
        StrategyActions::ChainSync(Ok(actions)) => actions@,
        StrategyActions::ChainSync(Err(_)) => Seq::empty(),
    }
}

/// Whether one of the actions tells that the strategy has finished.
pub open spec fn has_finished<B: ChainTypes>(actions: Seq<SyncingAction<B>>) -> bool {
    exists|i: int| 0 <= i < actions.len() && (#[trigger] actions[i]) is Finished
}

fn key_warp_actions<B: ChainTypes>(actions: Vec<WarpSyncAction<B>>) -> (r: Vec<SyncingAction<B>>)
    ensures
        r@ == actions@.map_values(|action: WarpSyncAction<B>| from_warp(action)),
{
    let mut keyed: Vec<SyncingAction<B>> = Vec::new();
    let ghost all = actions@;
    for action in iter: actions
        invariant
            iter.seq() == all,
            keyed@ =~= all.take(iter.index()).map_values(
                |action: WarpSyncAction<B>| from_warp(action),
            ),
    {
        keyed.push(SyncingAction::from(action));
    }
    keyed
}

fn key_state_actions<B: ChainTypes>(actions: Vec<StateStrategyAction<B>>) -> (r: Vec<
    SyncingAction<B>,
>)
    ensures
        r@ == actions@.map_values(|action: StateStrategyAction<B>| from_state(action)),
{
    let mut keyed: Vec<SyncingAction<B>> = Vec::new();
    let ghost all = actions@;
    for action in iter: actions
        invariant
            iter.seq() == all,
            keyed@ =~= all.take(iter.index()).map_values(
                |action: StateStrategyAction<B>| from_state(action),
            ),
    {
        keyed.push(SyncingAction::from(action));
    }
    keyed
}

fn any_finished<B: ChainTypes>(actions: &Vec<SyncingAction<B>>) -> (r: bool)
    ensures
        r == has_finished(actions@),
{
    let mut i: usize = 0;
    while i < actions.len()
        invariant
            i <= actions.len(),
            forall|j: int| 0 <= j < i ==> !((#[trigger] actions@[j]) is Finished),
        decreases actions.len() - i,
    {
        if actions[i].is_finished() {
            return true;
        }
        i += 1;
    }
    false
}

impl<B: ChainTypes> PolkadotSyncingStrategy<B> {
    /// Initialize a new syncing strategy: says which strategy is to be started first. The outcome is
    /// handed to [`PolkadotSyncingStrategy::started`].
    pub fn new<'a>(
        config: &'a SyncingConfig<B::Registry>,
        warp_sync_config: Option<B::WarpSyncConfig>,
    ) -> (r: First<'a, B>)
        requires
            config.mode is Warp ==> warp_sync_config is Some,
        ensures
            match first_strategy(config.mode) {
                StrategyKey::Warp => {
                    &&& r matches First::Warp(warp_config)
                    &&& warp_config == warp_sync_config->0
                },
                _ => {
                    &&& r matches First::ChainSync(start)
                    &&& start.is_for(*config, Map::empty())
                },
            },
    {
        match config.mode {
            SyncMode::Warp => First::Warp(warp_sync_config.unwrap()),
            _ => First::ChainSync(
                ChainSyncStart {
                    mode: chain_sync_mode(config.mode),
                    max_parallel_downloads: config.max_parallel_downloads,
                    max_blocks_per_request: config.max_blocks_per_request,
                    metrics_registry: config.metrics_registry.as_ref(),
                    initial_peers: Vec::new(),
                },
            ),
        }
    }

    /// The strategy once the first one has been started, or why it could not be.
    pub fn started(
        config: SyncingConfig<B::Registry>,
        outcome: Result<(), B::ClientError>,
    ) -> (r: Result<Self, B::ClientError>)
        ensures
            match outcome {
                Ok(()) => {
                    &&& r matches Ok(strategy)
                    &&& strategy@ == (StrategyView::<B> {
                        config,
                        active: first_strategy(config.mode),
                        peers: Map::empty(),
                    })
                },
                Err(e) => r matches Err(error) && error == e,
            },
    {
        match outcome {
            Ok(()) => {
                let strategies = match config.mode {
                    SyncMode::Warp => Strategies { warp: true, state: false, chain_sync: false },
                    _ => Strategies { warp: false, state: false, chain_sync: true },
                };
                Ok(
                    PolkadotSyncingStrategy {
                        config,
                        strategies,
                        peer_best_blocks: Table::new(),
                    },
                )
            },
            Err(e) => Err(e),
        }
    }

    /// The strategy that is at work.
    pub fn active(&self) -> (r: StrategyKey)
        ensures
            r == self@.active,
    {
        if self.strategies.warp {
            StrategyKey::Warp
        } else if self.strategies.state {
            StrategyKey::State
        } else {
            StrategyKey::ChainSync
        }
    }

    /// Every known peer, with its best block.
    fn known_peers(&self) -> (r: Vec<(PeerId, B::Hash, B::Number)>)
        ensures
            lists_peers(r@, self@.peers),
    {
        let count = self.peer_best_blocks.len();
        let ghost rows = self.peer_best_blocks.rows();
        let mut peers: Vec<(PeerId, B::Hash, B::Number)> = Vec::new();
        let mut i: usize = 0;
        while i < count
            invariant
                i <= count,
                count == rows.len(),
                rows == self.peer_best_blocks.rows(),
                peers.len() == i,
                forall|j: int|
                    0 <= j < i ==> (#[trigger] peers@[j]) == (
                        rows[j].0,
                        rows[j].1.0,
                        rows[j].1.1,
                    ),
            decreases count - i,
        {
            let (peer_id, best) = self.peer_best_blocks.row(i);
            peers.push((peer_id, best.0, best.1));
            i += 1;
        }
        proof {
            assert forall|j: int| 0 <= j < peers.len() implies self@.peers.contains_key(
                (#[trigger] peers@[j]).0,
            ) && self@.peers[peers@[j].0] == (peers@[j].1, peers@[j].2) by {
                lemma_row_of_key(rows, j);
            }
            assert forall|peer: PeerId| #[trigger] self@.peers.contains_key(peer) implies exists|
                j: int,
            |
                0 <= j < peers.len() && (#[trigger] peers@[j]).0 == peer by {
                let j = choose|j: int| has_key_at(rows, peer, j);
                assert(peers@[j].0 == peer);
            }
        }
        peers
    }

    /// Every known peer, with the number of its best block.
    fn known_peer_numbers(&self) -> (r: Vec<(PeerId, B::Number)>)
        ensures
            lists_peer_numbers(r@, self@.peers),
    {
        let count = self.peer_best_blocks.len();
        let ghost rows = self.peer_best_blocks.rows();
        let mut peers: Vec<(PeerId, B::Number)> = Vec::new();
        let mut i: usize = 0;
        while i < count
            invariant
                i <= count,
                count == rows.len(),
                rows == self.peer_best_blocks.rows(),
                peers.len() == i,
                forall|j: int|
                    0 <= j < i ==> (#[trigger] peers@[j]) == (rows[j].0, rows[j].1.1),
            decreases count - i,
        {
            let (peer_id, best) = self.peer_best_blocks.row(i);
            peers.push((peer_id, best.1));
            i += 1;
        }
        proof {
            assert forall|j: int| 0 <= j < peers.len() implies self@.peers.contains_key(
                (#[trigger] peers@[j]).0,
            ) && self@.peers[peers@[j].0].1 == peers@[j].1 by {
                lemma_row_of_key(rows, j);
            }
            assert forall|peer: PeerId| #[trigger] self@.peers.contains_key(peer) implies exists|
                j: int,
            |
                0 <= j < peers.len() && (#[trigger] peers@[j]).0 == peer by {
                let j = choose|j: int| has_key_at(rows, peer, j);
                assert(peers@[j].0 == peer);
            }
        }
        peers
    }

    /// Proceed with the next strategy if the active one finished: says which one is to be started.
    ///
    /// `warp_result` is what warp sync has found, if it is at work and has found anything. The
    /// outcome is handed to [`PolkadotSyncingStrategy::proceeded`].
    pub fn proceed_to_next<'a>(&'a self, warp_result: Option<B::WarpSyncResult>) -> (r: Next<'a, B>)
        requires
            !(self@.active is ChainSync),
        ensures
            match next_strategy(self@.active, warp_result is Some) {
                StrategyKey::State => {
                    &&& r matches Next::State { target, skip_proofs, initial_peers }
                    &&& target == warp_result->0
                    &&& !skip_proofs
                    &&& lists_peer_numbers(initial_peers@, self@.peers)
                },
                _ => {
                    &&& r matches Next::ChainSync(start)
                    &&& start.is_for(self@.config, self@.peers)
                },
            },
    {
        if self.strategies.warp {
            if let Some(target) = warp_result {
                return Next::State {
                    target,
                    skip_proofs: false,
                    initial_peers: self.known_peer_numbers(),
                };
            }
        }
        Next::ChainSync(
            ChainSyncStart {
                mode: chain_sync_mode(self.config.mode),
                max_parallel_downloads: self.config.max_parallel_downloads,
                max_blocks_per_request: self.config.max_blocks_per_request,
                metrics_registry: self.config.metrics_registry.as_ref(),
                initial_peers: self.known_peers(),
            },
        )
    }

    /// Puts the next strategy in the place of the one that has finished, if it could be started.
    ///
    /// `has_warp_result` says whether [`PolkadotSyncingStrategy::proceed_to_next`] was given what warp
    /// sync has found.
    pub fn proceeded(&mut self, has_warp_result: bool, outcome: Result<(), B::ClientError>) -> (r:
        Result<(), B::ClientError>)
        requires
            !(old(self)@.active is ChainSync),
        ensures
            match outcome {
                Ok(()) => {
                    &&& final(self)@ == (StrategyView::<B> {
                        active: next_strategy(old(self)@.active, has_warp_result),
                        ..old(self)@
                    })
                    &&& r is Ok
                },
                Err(e) => {
                    &&& final(self)@ == old(self)@
                    &&& r matches Err(error)
                    &&& error == e
                },
            },
    {
        match outcome {
            Ok(()) => {
                self.strategies = if self.strategies.warp && has_warp_result {
                    Strategies { warp: false, state: true, chain_sync: false }
                } else {
                    Strategies { warp: false, state: false, chain_sync: true }
                };
                Ok(())
            },
            Err(e) => Err(e),
        }
    }

    /// Whether block-by-block sync is at work.
    fn is_chain_sync(&self) -> (r: bool)
        ensures
            r == (self@.active is ChainSync),
    {
        proof {
            use_type_invariant(&self.strategies);
        }
        self.strategies.chain_sync
    }
}

/// Syncing strategy for syncing engine to use.
///
/// What a call is to tell one of the strategies beneath comes back as a [`Command`].
pub trait SyncingStrategy<B: ChainTypes> {
    /// The strategy beneath that is at work.
    spec fn at_work(&self) -> StrategyKey;

    /// Notify syncing state machine that a new sync peer has connected.
    fn add_peer(
        &mut self,
        peer_id: PeerId,
        best_hash: B::Hash,
        best_number: B::Number,
    ) -> Command<B>;

    /// Notify that a sync peer has disconnected.
    fn remove_peer(&mut self, peer_id: PeerId) -> Command<B>;

    /// Submit a validated block announcement. What the strategy answers is handed to
    /// [`SyncingStrategy::on_validated_block_announced`].
    fn on_validated_block_announce(
        &self,
        is_best: bool,
        peer_id: PeerId,
        announce: B::BlockAnnounce,
    ) -> Command<B>;

    /// Remembers the new best block of a peer that is still connected.
    ///
    /// Returns new best hash & best number of the peer if they are updated.
    fn on_validated_block_announced(
        &mut self,
        peer_id: PeerId,
        new_best: Option<(B::Hash, B::Number)>,
    ) -> Option<(B::Hash, B::Number)>;

    /// Configure an explicit fork sync request in case external code has detected that there is a
    /// stale fork missing.
    ///
    /// Fork requests are only handled by `ChainSync`.
    fn set_sync_fork_request(
        &self,
        peers: Vec<PeerId>,
        hash: B::Hash,
        number: B::Number,
    ) -> Option<Command<B>>;

    /// Request extra justification. Justifications can only be requested via `ChainSync`.
    fn request_justification(&self, hash: B::Hash, number: B::Number) -> Option<Command<B>>;

    /// Clear extra justification requests. They can only be cleared by `ChainSync`.
    fn clear_justification_requests(&self) -> Option<Command<B>>;

    /// Report a justification import (successful or not). Only `ChainSync` is interested in it.
    fn on_justification_import(
        &self,
        hash: B::Hash,
        number: B::Number,
        success: bool,
    ) -> Option<Command<B>>;

    /// Process block response.
    ///
    /// It goes to the strategy that asked for the blocks, if that is one that asks for blocks and
    /// still is at work.
    fn on_block_response(
        &self,
        peer_id: PeerId,
        key: StrategyKey,
        request: B::BlockRequest,
        blocks: Vec<B::BlockData>,
    ) -> Option<Command<B>>;

    /// Process state response.
    ///
    /// It goes to the strategy that asked for the state, if that is one that asks for state and
    /// still is at work.
    fn on_state_response(
        &self,
        peer_id: PeerId,
        key: StrategyKey,
        response: B::StateResponse,
    ) -> Option<Command<B>>;

    /// Process warp proof response. It goes to warp sync, if that asked for it and still is at work.
    fn on_warp_proof_response(
        &self,
        peer_id: PeerId,
        key: StrategyKey,
        response: B::EncodedProof,
    ) -> Option<Command<B>>;

    /// A batch of blocks that have been processed, with or without errors.
    ///
    /// Only `StateStrategy` and `ChainSync` are interested in block processing notifications.
    fn on_blocks_processed(
        &self,
        imported: usize,
        count: usize,
        results: Vec<(B::ImportResult, B::Hash)>,
    ) -> Option<Command<B>>;

    /// Notify a syncing strategy that a block has been finalized. Only `ChainSync` is interested in
    /// it.
    fn on_block_finalized(&self, hash: B::Hash, number: B::Number) -> Option<Command<B>>;

    /// Inform sync about a new best imported block. This is relevant to `ChainSync` only.
    fn update_chain_info(&self, best_hash: B::Hash, best_number: B::Number) -> Option<Command<B>>;

    /// Are we in major sync mode? `chain_sync` is what block-by-block sync says, where it is at work.
    fn is_major_syncing(&self, chain_sync: bool) -> bool;

    /// Get the number of peers known to the syncing strategy.
    fn num_peers(&self) -> usize;

    /// Which strategy's status is the current sync status.
    fn status(&self) -> StrategyKey;

    /// Get the total number of downloaded blocks; `chain_sync` is what block-by-block sync says,
    /// where it is at work.
    fn num_downloaded_blocks(&self, chain_sync: usize) -> usize;

    /// Get an estimate of the number of parallel sync requests; `chain_sync` is what block-by-block
    /// sync says, where it is at work.
    fn num_sync_requests(&self, chain_sync: usize) -> usize;

    /// Get actions that should be performed by the owner on the strategy's behalf, from those of the
    /// strategy that is at work, and whether that one has finished: then
    /// [`PolkadotSyncingStrategy::proceed_to_next`] comes next.
    fn actions(
        &self,
        actions: StrategyActions<B>,
    ) -> Result<(Vec<SyncingAction<B>>, bool), B::ClientError>
        requires
            are_actions_of(actions, self.at_work()),
    ;
}

impl<B: ChainTypes> SyncingStrategy<B> for PolkadotSyncingStrategy<B> {
    open spec fn at_work(&self) -> StrategyKey {
        self@.active
    }

    fn add_peer(&mut self, peer_id: PeerId, best_hash: B::Hash, best_number: B::Number) -> (r:
        Command<B>)
        ensures
            final(self)@ == (StrategyView::<B> {
                peers: old(self)@.peers.insert(peer_id, (best_hash, best_number)),
                ..old(self)@
            }),
            r == (Command::AddPeer::<B> { to: old(self)@.active, peer_id, best_hash, best_number }),
    {
        let to = self.active();
        self.peer_best_blocks.insert(peer_id, (best_hash, best_number));
        Command::AddPeer { to, peer_id, best_hash, best_number }
    }

    fn remove_peer(&mut self, peer_id: PeerId) -> (r: Command<B>)
        ensures
            final(self)@ == (StrategyView::<B> {
                peers: old(self)@.peers.remove(peer_id),
                ..old(self)@
            }),
            r == (Command::RemovePeer::<B> { to: old(self)@.active, peer_id }),
    {
        let to = self.active();
        let _ = self.peer_best_blocks.remove(peer_id);
        Command::RemovePeer { to, peer_id }
    }

    fn on_validated_block_announce(
        &self,
        is_best: bool,
        peer_id: PeerId,
        announce: B::BlockAnnounce,
    ) -> (r: Command<B>)
        ensures
            r == (Command::BlockAnnounced::<B> {
                to: self@.active,
                is_best,
                peer_id,
                announce,
            }),
    {
        Command::BlockAnnounced { to: self.active(), is_best, peer_id, announce }
    }

    fn on_validated_block_announced(
        &mut self,
        peer_id: PeerId,
        new_best: Option<(B::Hash, B::Number)>,
    ) -> (r: Option<(B::Hash, B::Number)>)
        ensures
            r == new_best,
            final(self)@ == match new_best {
                Some(best) => if old(self)@.peers.contains_key(peer_id) {
                    StrategyView::<B> {
                        peers: old(self)@.peers.insert(peer_id, best),
                        ..old(self)@
                    }
                } else {
                    old(self)@
                },
                None => old(self)@,
            },
    {
        if let Some(best) = new_best {
            if self.peer_best_blocks.contains_key(peer_id) {
                self.peer_best_blocks.insert(peer_id, best);
            }
        }
        new_best
    }

    fn set_sync_fork_request(&self, peers: Vec<PeerId>, hash: B::Hash, number: B::Number) -> (r:
        Option<Command<B>>)
        ensures
            r == if self@.active is ChainSync {
                Some(
                    Command::SetSyncForkRequest::<B> {
                        to: StrategyKey::ChainSync,
                        peers,
                        hash,
                        number,
                    },
                )
            } else {
                None
            },
    {
        if self.is_chain_sync() {
            Some(Command::SetSyncForkRequest { to: StrategyKey::ChainSync, peers, hash, number })
        } else {
            None
        }
    }

    fn request_justification(&self, hash: B::Hash, number: B::Number) -> (r: Option<Command<B>>)
        ensures
            r == if self@.active is ChainSync {
                Some(
                    Command::RequestJustification::<B> {
                        to: StrategyKey::ChainSync,
                        hash,
                        number,
                    },
                )
            } else {
                None
            },
    {
        if self.is_chain_sync() {
            Some(Command::RequestJustification { to: StrategyKey::ChainSync, hash, number })
        } else {
            None
        }
    }

    fn clear_justification_requests(&self) -> (r: Option<Command<B>>)
        ensures
            r == if self@.active is ChainSync {
                Some(Command::ClearJustificationRequests::<B> { to: StrategyKey::ChainSync })
            } else {
                None
            },
    {
        if self.is_chain_sync() {
            Some(Command::ClearJustificationRequests { to: StrategyKey::ChainSync })
        } else {
            None
        }
    }

    fn on_justification_import(&self, hash: B::Hash, number: B::Number, success: bool) -> (r:
        Option<Command<B>>)
        ensures
            r == if self@.active is ChainSync {
                Some(
                    Command::JustificationImported::<B> {
                        to: StrategyKey::ChainSync,
                        hash,
                        number,
                        success,
                    },
                )
            } else {
                None
            },
    {
        if self.is_chain_sync() {
            Some(
                Command::JustificationImported {
                    to: StrategyKey::ChainSync,
                    hash,
                    number,
                    success,
                },
            )
        } else {
            None
        }
    }

    fn on_block_response(
        &self,
        peer_id: PeerId,
        key: StrategyKey,
        request: B::BlockRequest,
        blocks: Vec<B::BlockData>,
    ) -> (r: Option<Command<B>>)
        ensures
            r == if key == self@.active && !(key is State) {
                Some(Command::BlockResponse::<B> { to: key, peer_id, request, blocks })
            } else {
                None
            },
    {
        proof {
            use_type_invariant(&self.strategies);
        }
        match key {
            StrategyKey::Warp => if self.strategies.warp {
                return Some(Command::BlockResponse { to: key, peer_id, request, blocks });
            },
            StrategyKey::ChainSync => if self.strategies.chain_sync {
                return Some(Command::BlockResponse { to: key, peer_id, request, blocks });
            },
            StrategyKey::State => {},
        }
        None
    }

    fn on_state_response(
        &self,
        peer_id: PeerId,
        key: StrategyKey,
        response: B::StateResponse,
    ) -> (r: Option<Command<B>>)
        ensures
            r == if key == self@.active && !(key is Warp) {
                Some(Command::StateResponse::<B> { to: key, peer_id, response })
            } else {
                None
            },
    {
        proof {
            use_type_invariant(&self.strategies);
        }
        match key {
            StrategyKey::State => if self.strategies.state {
                return Some(Command::StateResponse { to: key, peer_id, response });
            },
            StrategyKey::ChainSync => if self.strategies.chain_sync {
                return Some(Command::StateResponse { to: key, peer_id, response });
            },
            StrategyKey::Warp => {},
        }
        None
    }

    fn on_warp_proof_response(
        &self,
        peer_id: PeerId,
        key: StrategyKey,
        response: B::EncodedProof,
    ) -> (r: Option<Command<B>>)
        ensures
            r == if key == self@.active && key is Warp {
                Some(
                    Command::WarpProofResponse::<B> { to: StrategyKey::Warp, peer_id, response },
                )
            } else {
                None
            },
    {
        match key {
            StrategyKey::Warp => if self.strategies.warp {
                return Some(
                    Command::WarpProofResponse { to: StrategyKey::Warp, peer_id, response },
                );
            },
            _ => {},
        }
        None
    }

    fn on_blocks_processed(
        &self,
        imported: usize,
        count: usize,
        results: Vec<(B::ImportResult, B::Hash)>,
    ) -> (r: Option<Command<B>>)
        ensures
            r == if self@.active is Warp {
                None
            } else {
                Some(
                    Command::BlocksProcessed::<B> { to: self@.active, imported, count, results },
                )
            },
    {
        proof {
            use_type_invariant(&self.strategies);
        }
        if self.strategies.state {
            Some(Command::BlocksProcessed { to: StrategyKey::State, imported, count, results })
        } else if self.strategies.chain_sync {
            Some(Command::BlocksProcessed { to: StrategyKey::ChainSync, imported, count, results })
        } else {
            None
        }
    }

    fn on_block_finalized(&self, hash: B::Hash, number: B::Number) -> (r: Option<Command<B>>)
        ensures
            r == if self@.active is ChainSync {
                Some(Command::BlockFinalized::<B> { to: StrategyKey::ChainSync, hash, number })
            } else {
                None
            },
    {
        if self.is_chain_sync() {
            Some(Command::BlockFinalized { to: StrategyKey::ChainSync, hash, number })
        } else {
            None
        }
    }

    fn update_chain_info(&self, best_hash: B::Hash, best_number: B::Number) -> (r: Option<
        Command<B>,
    >)
        ensures
            r == if self@.active is ChainSync {
                Some(
                    Command::ChainInfoUpdated::<B> {
                        to: StrategyKey::ChainSync,
                        best_hash,
                        best_number,
                    },
                )
            } else {
                None
            },
    {
        if self.is_chain_sync() {
            Some(
                Command::ChainInfoUpdated { to: StrategyKey::ChainSync, best_hash, best_number },
            )
        } else {
            None
        }
    }

    fn is_major_syncing(&self, chain_sync: bool) -> (r: bool)
        ensures
            r == (!(self@.active is ChainSync) || chain_sync),
    {
        self.strategies.warp || self.strategies.state || chain_sync
    }

    fn num_peers(&self) -> (r: usize)
        ensures
            r == self@.peers.len(),
            self@.peers.dom().finite(),
    {
        self.peer_best_blocks.len()
    }

    fn status(&self) -> (r: StrategyKey)
        ensures
            r == self@.active,
    {
        self.active()
    }

    fn num_downloaded_blocks(&self, chain_sync: usize) -> (r: usize)
        ensures
            r == if self@.active is ChainSync {
                chain_sync
            } else {
                0
            },
    {
        if self.is_chain_sync() {
            chain_sync
        } else {
            0
        }
    }

    fn num_sync_requests(&self, chain_sync: usize) -> (r: usize)
        ensures
            r == if self@.active is ChainSync {
                chain_sync
            } else {
                0
            },
    {
        if self.is_chain_sync() {
            chain_sync
        } else {
            0
        }
    }

    fn actions(&self, actions: StrategyActions<B>) -> (r: Result<
        (Vec<SyncingAction<B>>, bool),
        B::ClientError,
    >)
        ensures
            match actions {
                StrategyActions::ChainSync(Err(e)) => r matches Err(error) && error == e,
                _ => {
                    &&& r matches Ok((keyed, is_finished))
                    &&& keyed@ == keyed_actions(actions)
                    &&& is_finished == has_finished(keyed@)
                    &&& is_finished <==> exists|i: int|
                        0 <= i < keyed@.len() && (#[trigger] keyed@[i]) is Finished
                },
            },
            actions matches StrategyActions::ChainSync(Ok(given)) ==> {
                &&& r matches Ok((keyed, _))
                &&& keyed@.len() == given@.len()
                &&& forall|i: int| 0 <= i < given@.len() ==> #[trigger] keyed@[i] == given@[i]
            },
            actions matches StrategyActions::Warp(given) ==> (r matches Ok((keyed, _))
                && keyed@.len() == given@.len()),
            actions matches StrategyActions::State(given) ==> (r matches Ok((keyed, _))
                && keyed@.len() == given@.len()),
    {
        let keyed = match actions {
            StrategyActions::Warp(actions) => key_warp_actions(actions),
            StrategyActions::State(actions) => key_state_actions(actions),
            StrategyActions::ChainSync(Ok(actions)) => actions,
            StrategyActions::ChainSync(Err(e)) => {
                return Err(e);
            },
        };
        let is_finished = any_finished(&keyed);
        Ok((keyed, is_finished))
    }
}

/// How far syncing has come with a strategy.
pub open spec fn progress(key: StrategyKey) -> int {
    match key {
        StrategyKey::Warp => 0,
        StrategyKey::State => 1,
        StrategyKey::ChainSync => 2,
    }
}

/// Strategies are only ever switched forward, from warp sync over state sync to block-by-block sync,
/// and after two switches at most block-by-block sync is at work.
pub proof fn law_strategies_move_forward(active: StrategyKey, first: bool, second: bool)
    ensures
        !(active is ChainSync) ==> progress(next_strategy(active, first)) > progress(active),
        next_strategy(next_strategy(active, first), second) is ChainSync,
{
}

/// A new strategy starts with as many peers as are connected.
pub proof fn law_every_peer_is_taken_along<H, N>(
    list: Seq<(PeerId, H, N)>,
    peers: Map<PeerId, (H, N)>,
)
    requires
        lists_peers(list, peers),
    ensures
        peers.dom().finite(),
        list.len() == peers.len(),
{
    let ids = list.map_values(|entry: (PeerId, H, N)| entry.0);
    assert(ids.to_set() =~= peers.dom()) by {
        assert forall|peer: PeerId| ids.to_set().contains(peer) <==> peers.dom().contains(peer) by {
            if peers.contains_key(peer) {
                let i = choose|i: int| 0 <= i < list.len() && (#[trigger] list[i]).0 == peer;
                assert(ids[i] == peer);
            }
        }
    }
    vstd::seq_lib::seq_to_set_is_finite(ids);
    ids.unique_seq_to_set();
}

/// A peer counts once, however often it is added, and no longer once it is removed, however often
/// that is. Whatever is done with it, the other peers and their best blocks stay as they are.
pub proof fn law_a_peer_counts_once<H, N>(
    peers: Map<PeerId, (H, N)>,
    peer: PeerId,
    first: (H, N),
    second: (H, N),
)
    requires
        peers.dom().finite(),
        !peers.contains_key(peer),
    ensures
        ({
            let added = peers.insert(peer, first);
            let again = added.insert(peer, second);
            &&& added.len() == peers.len() + 1
            &&& again.len() == peers.len() + 1
            &&& again[peer] == second
            &&& again.dom().finite()
            &&& again.remove(peer) == peers
            &&& again.remove(peer).remove(peer) == peers
            &&& forall|other: PeerId|
                other != peer ==> (#[trigger] again.contains_key(other) <==> peers.contains_key(
                    other,
                )) && (peers.contains_key(other) ==> again[other] == peers[other])
        }),
{
    let again = peers.insert(peer, first).insert(peer, second);
    assert(again =~= peers.insert(peer, second));
    assert(again.remove(peer) =~= peers);
    assert(peers.remove(peer) =~= peers);
}

/// Every action of block-by-block sync is handed on as it is, in order, and none besides.
pub proof fn law_actions_of_chain_sync_are_handed_on<B: ChainTypes>(given: Vec<SyncingAction<B>>)
    ensures
        keyed_actions(StrategyActions::ChainSync(Ok(given))).len() == given@.len(),
        forall|i: int|
            0 <= i < given@.len() ==> #[trigger] keyed_actions(
                StrategyActions::ChainSync(Ok(given)),
            )[i] == given@[i],
{
}

/// Every action of warp sync is handed on, in order, and none besides: a request to the same peer,
/// under the key of warp sync, everything else as it is.
pub proof fn law_actions_of_warp_sync_are_handed_on<B: ChainTypes>(
    given: Vec<WarpSyncAction<B>>,
    i: int,
)
    requires
        0 <= i < given@.len(),
    ensures
        ({
            let keyed = keyed_actions(StrategyActions::Warp(given));
            &&& keyed.len() == given@.len()
            &&& given@[i] matches WarpSyncAction::SendWarpProofRequest { peer_id, request }
                ==> keyed[i] == (SyncingAction::<B>::SendWarpProofRequest {
                peer_id,
                key: StrategyKey::Warp,
                request,
            })
            &&& given@[i] matches WarpSyncAction::SendBlockRequest { peer_id, request } ==> keyed[i]
                == (SyncingAction::<B>::SendBlockRequest {
                peer_id,
                key: StrategyKey::Warp,
                request,
            })
            &&& given@[i] matches WarpSyncAction::DropPeer(bad_peer) ==> keyed[i]
                == SyncingAction::<B>::DropPeer(bad_peer)
            &&& given@[i] is Finished <==> keyed[i] is Finished
        }),
{
}

/// Every action of state sync is handed on, in order, and none besides: a request to the same peer,
/// under the key of state sync, everything else as it is.
pub proof fn law_actions_of_state_sync_are_handed_on<B: ChainTypes>(
    given: Vec<StateStrategyAction<B>>,
    i: int,
)
    requires
        0 <= i < given@.len(),
    ensures
        ({
            let keyed = keyed_actions(StrategyActions::State(given));
            &&& keyed.len() == given@.len()
            &&& given@[i] matches StateStrategyAction::SendStateRequest { peer_id, request }
                ==> keyed[i] == (SyncingAction::<B>::SendStateRequest {
                peer_id,
                key: StrategyKey::State,
                request,
            })
            &&& given@[i] matches StateStrategyAction::DropPeer(bad_peer) ==> keyed[i]
                == SyncingAction::<B>::DropPeer(bad_peer)
            &&& given@[i] matches StateStrategyAction::ImportBlocks { origin, blocks } ==> keyed[i]
                == (SyncingAction::<B>::ImportBlocks { origin, blocks })
            &&& given@[i] is Finished <==> keyed[i] is Finished
        }),
{
}

/// As many actions are handed on as a strategy wants, and none of one that failed.
pub proof fn law_no_actions_are_made_up<B: ChainTypes>(actions: StrategyActions<B>)
    ensures
        actions matches StrategyActions::Warp(given) ==> keyed_actions(actions).len()
            == given@.len(),
        actions matches StrategyActions::State(given) ==> keyed_actions(actions).len()
            == given@.len(),
        actions matches StrategyActions::ChainSync(Err(_)) ==> keyed_actions(actions).len() == 0,
{
}

/// A strategy has finished where one of its actions says so, wherever it stands among them.
pub proof fn law_when_a_strategy_has_finished<B: ChainTypes>(
    before: Seq<SyncingAction<B>>,
    action: SyncingAction<B>,
    after: Seq<SyncingAction<B>>,
)
    ensures
        !has_finished(Seq::<SyncingAction<B>>::empty()),
        has_finished(before.push(action) + after) <==> has_finished(before) || action is Finished
            || has_finished(after),
{
    let all = before.push(action) + after;
    assert(all[before.len() as int] == action);
    if has_finished(before) {
        let i = choose|i: int| 0 <= i < before.len() && (#[trigger] before[i]) is Finished;
        assert(all[i] is Finished);
    }
    if has_finished(after) {
        let i = choose|i: int| 0 <= i < after.len() && (#[trigger] after[i]) is Finished;
        assert(all[before.len() + 1 + i] is Finished);
    }
    if has_finished(all) {
        let i = choose|i: int| 0 <= i < all.len() && (#[trigger] all[i]) is Finished;
        if i < before.len() {
            assert(before[i] is Finished);
        } else if i > before.len() {
            assert(after[i - before.len() - 1] is Finished);
        }
    }
}

/// Syncing begins with warp sync exactly where that is asked for, and otherwise with block-by-block
/// sync. State sync follows only warp sync that led somewhere; everything else is followed by
/// block-by-block sync.
pub proof fn law_which_strategy_is_next(
    mode: SyncMode,
    active: StrategyKey,
    has_warp_result: bool,
)
    ensures
        first_strategy(mode) is Warp <==> mode is Warp,
        first_strategy(mode) is ChainSync <==> !(mode is Warp),
        next_strategy(active, has_warp_result) is State <==> active is Warp && has_warp_result,
        next_strategy(active, has_warp_result) is ChainSync <==> !(active is Warp
            && has_warp_result),
{
}

/// Block-by-block sync works as the configuration asks, and fully where that asks for no light sync;
/// it starts with every connected peer, once, and its best block, and with no other.
pub proof fn law_with_what_chain_sync_starts<'a, B: ChainTypes>(
    start: ChainSyncStart<'a, B>,
    config: SyncingConfig<B::Registry>,
    peers: Map<PeerId, (B::Hash, B::Number)>,
    peer: PeerId,
)
    requires
        start.is_for(config, peers),
    ensures
        start.mode is LightState <==> config.mode is LightState,
        config.mode matches SyncMode::LightState { skip_proofs, storage_chain_mode } ==> start.mode
            == (ChainSyncMode::LightState { skip_proofs, storage_chain_mode }),
        start.max_parallel_downloads == config.max_parallel_downloads,
        start.max_blocks_per_request == config.max_blocks_per_request,
        start.metrics_registry is Some <==> config.metrics_registry is Some,
        config.metrics_registry is Some ==> *start.metrics_registry->0
            == config.metrics_registry->0,
        peers.contains_key(peer) ==> exists|i: int|
            0 <= i < start.initial_peers@.len() && #[trigger] start.initial_peers@[i] == (
                peer,
                peers[peer].0,
                peers[peer].1,
            ),
        forall|i: int|
            0 <= i < start.initial_peers@.len() && (#[trigger] start.initial_peers@[i]).0 == peer
                ==> peers.contains_key(peer),
        forall|i: int, j: int|
            0 <= i < start.initial_peers@.len() && 0 <= j < start.initial_peers@.len() && (
            #[trigger] start.initial_peers@[i]).0 == (#[trigger] start.initial_peers@[j]).0 ==> i
                == j,
{
    if peers.contains_key(peer) {
        let i = choose|i: int|
            0 <= i < start.initial_peers@.len() && (#[trigger] start.initial_peers@[i]).0 == peer;
        assert(start.initial_peers@[i] == (peer, peers[peer].0, peers[peer].1));
    }
}

/// State sync starts with every connected peer, once, and the number of its best block, and with no
/// other.
pub proof fn law_with_which_peers_state_sync_starts<H, N>(
    list: Seq<(PeerId, N)>,
    peers: Map<PeerId, (H, N)>,
    peer: PeerId,
)
    requires
        lists_peer_numbers(list, peers),
    ensures
        peers.contains_key(peer) ==> exists|i: int|
            0 <= i < list.len() && #[trigger] list[i] == (peer, peers[peer].1),
        forall|i: int|
            0 <= i < list.len() && (#[trigger] list[i]).0 == peer ==> peers.contains_key(peer),
        forall|i: int, j: int|
            0 <= i < list.len() && 0 <= j < list.len() && (#[trigger] list[i]).0 == (
            #[trigger] list[j]).0 ==> i == j,
{
    if peers.contains_key(peer) {
        let i = choose|i: int| 0 <= i < list.len() && (#[trigger] list[i]).0 == peer;
        assert(list[i] == (peer, peers[peer].1));
    }
}

/// The strategy whose actions are taken is the one that is at work.
pub proof fn law_whose_actions_are_taken<B: ChainTypes>(
    strategy: PolkadotSyncingStrategy<B>,
    actions: StrategyActions<B>,
)
    ensures
        strategy.at_work() == strategy@.active,
        actions is Warp ==> (are_actions_of(actions, strategy@.active) <==> strategy@.active is Warp),
        actions is State ==> (are_actions_of(actions, strategy@.active)
            <==> strategy@.active is State),
        actions is ChainSync ==> (are_actions_of(actions, strategy@.active)
            <==> strategy@.active is ChainSync),
{
}

} // verus!
