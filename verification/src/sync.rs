//! Switching between the ways to bring a node up to the chain it follows.
//!
//! Warp sync, state sync and block-by-block sync follow one another, and at any time exactly one of
//! them is at work. What is decided here is which one a call concerns, when the next one takes over
//! and with which peers it starts; the strategies themselves do the rest.
use vstd::prelude::*;
use vstd::std_specs::convert::FromSpecImpl;

use crate::table::Key;

verus! {

/// The types of a chain and its client that are only handed on.
pub trait ChainTypes {
    type Hash: Copy;

    type Number: Copy;

    type BlockAnnounce;

    type BlockRequest;

    type BlockData;

    type IncomingBlock;

    type BlockOrigin;

    type Justifications;

    /// What the import of one block gave.
    type ImportResult;

    type StateRequest;

    type StateResponse;

    type WarpProofRequest;

    type EncodedProof;

    type WarpSyncConfig;

    /// The header, the body and the justifications to which warp sync led.
    type WarpSyncResult;

    type BadPeer;

    type ClientError;

    type Registry;
}

/// A peer: a multihash of at most sixty-four bytes, as four big-endian quarters.
#[derive(Clone, Copy, PartialEq, Eq, Structural, Debug)]
pub struct PeerId {
    pub code: u64,
    pub size: u8,
    pub digest_0: u128,
    pub digest_1: u128,
    pub digest_2: u128,
    pub digest_3: u128,
}

impl Key for PeerId {
    fn same(&self, other: &Self) -> (r: bool) {
        *self == *other
    }
}

/// How a node is to sync.
#[derive(Clone, Copy, PartialEq, Eq, Structural, Debug)]
pub enum SyncMode {
    /// All blocks.
    Full,
    /// The state at the latest block, and then all blocks.
    LightState { skip_proofs: bool, storage_chain_mode: bool },
    /// A proof of finality, the state to which it leads, and then all blocks.
    Warp,
}

/// How block-by-block sync works.
#[derive(Clone, Copy, PartialEq, Eq, Structural, Debug)]
pub enum ChainSyncMode {
    Full,
    LightState { skip_proofs: bool, storage_chain_mode: bool },
}

/// The mode of block-by-block sync that belongs to a way to sync: after warp sync it is the full one.
pub open spec fn corresponding_mode(sync_mode: SyncMode) -> ChainSyncMode {
    match sync_mode {
        SyncMode::LightState { skip_proofs, storage_chain_mode } => ChainSyncMode::LightState {
            skip_proofs,
            storage_chain_mode,
        },
        _ => ChainSyncMode::Full,
    }
}

/// Corresponding `ChainSync` mode.
pub fn chain_sync_mode(sync_mode: SyncMode) -> (r: ChainSyncMode)
    ensures
        r == corresponding_mode(sync_mode),
        r is LightState <==> sync_mode is LightState,
        sync_mode matches SyncMode::LightState { skip_proofs, storage_chain_mode } ==> r == (
        ChainSyncMode::LightState { skip_proofs, storage_chain_mode }),
{
    match sync_mode {
        SyncMode::Full => ChainSyncMode::Full,
        SyncMode::LightState { skip_proofs, storage_chain_mode } => ChainSyncMode::LightState {
            skip_proofs,
            storage_chain_mode,
        },
        SyncMode::Warp => ChainSyncMode::Full,
    }
}

/// Syncing configuration containing data for all strategies.
#[derive(Clone, Debug)]
pub struct SyncingConfig<R> {
    /// Syncing mode.
    pub mode: SyncMode,
    /// The number of parallel downloads to guard against slow peers.
    pub max_parallel_downloads: u32,
    /// Maximum number of blocks to request.
    pub max_blocks_per_request: u32,
    /// Prometheus metrics registry.
    pub metrics_registry: Option<R>,
}

/// The key identifying a specific strategy for responses routing.
#[derive(Clone, Copy, PartialEq, Eq, Structural, Debug, Hash)]
pub enum StrategyKey {
    /// Warp sync initiated this request.
    Warp,
    /// State sync initiated this request.
    State,
    /// `ChainSync` initiated this request.
    ChainSync,
}

/// What the owner of the strategy is to do on its behalf.
#[allow(inconsistent_fields)]
pub enum SyncingAction<B: ChainTypes> {
    /// Send block request to peer. Always implies dropping a stale block request to the same peer.
    SendBlockRequest { peer_id: PeerId, key: StrategyKey, request: B::BlockRequest },
    /// Send state request to peer.
    SendStateRequest { peer_id: PeerId, key: StrategyKey, request: B::StateRequest },
    /// Send warp proof request to peer.
    SendWarpProofRequest { peer_id: PeerId, key: StrategyKey, request: B::WarpProofRequest },
    /// Drop stale request.
    CancelRequest { peer_id: PeerId, key: StrategyKey },
    /// Peer misbehaved. Disconnect, report it and cancel any requests to it.
    DropPeer(B::BadPeer),
    /// Import blocks.
    ImportBlocks { origin: B::BlockOrigin, blocks: Vec<B::IncomingBlock> },
    /// Import justifications.
    ImportJustifications {
        peer_id: PeerId,
        hash: B::Hash,
        number: B::Number,
        justifications: B::Justifications,
    },
    /// Strategy finished. Nothing to do, this is handled by [`PolkadotSyncingStrategy`].
    Finished,
}

/// What warp sync wants to be done.
#[allow(inconsistent_fields)]
pub enum WarpSyncAction<B: ChainTypes> {
    SendWarpProofRequest { peer_id: PeerId, request: B::WarpProofRequest },
    SendBlockRequest { peer_id: PeerId, request: B::BlockRequest },
    DropPeer(B::BadPeer),
    Finished,
}

/// What state sync wants to be done.
pub enum StateStrategyAction<B: ChainTypes> {
    SendStateRequest { peer_id: PeerId, request: B::StateRequest },
    DropPeer(B::BadPeer),
    ImportBlocks { origin: B::BlockOrigin, blocks: Vec<B::IncomingBlock> },
    Finished,
}

impl<B: ChainTypes> SyncingAction<B> {
    /// Whether the strategy has finished.
    pub fn is_finished(&self) -> (r: bool)
        ensures
            r == (*self is Finished),
    {
        match self {
            SyncingAction::Finished => true,
            _ => false,
        }
    }
}

/// What warp sync wants, under the key of warp sync.
pub open spec fn from_warp<B: ChainTypes>(action: WarpSyncAction<B>) -> SyncingAction<B> {
    match action {
        WarpSyncAction::SendWarpProofRequest { peer_id, request } =>
            SyncingAction::SendWarpProofRequest { peer_id, key: StrategyKey::Warp, request },
        WarpSyncAction::SendBlockRequest { peer_id, request } => SyncingAction::SendBlockRequest {
            peer_id,
            key: StrategyKey::Warp,
            request,
        },
        WarpSyncAction::DropPeer(bad_peer) => SyncingAction::DropPeer(bad_peer),
        WarpSyncAction::Finished => SyncingAction::Finished,
    }
}

/// What state sync wants, under the key of state sync.
pub open spec fn from_state<B: ChainTypes>(action: StateStrategyAction<B>) -> SyncingAction<B> {
    match action {
        StateStrategyAction::SendStateRequest { peer_id, request } =>
            SyncingAction::SendStateRequest { peer_id, key: StrategyKey::State, request },
        StateStrategyAction::DropPeer(bad_peer) => SyncingAction::DropPeer(bad_peer),
        StateStrategyAction::ImportBlocks { origin, blocks } => SyncingAction::ImportBlocks {
            origin,
            blocks,
        },
        StateStrategyAction::Finished => SyncingAction::Finished,
    }
}

impl<B: ChainTypes> From<WarpSyncAction<B>> for SyncingAction<B> {
    fn from(action: WarpSyncAction<B>) -> (r: Self) {
        match action {
            WarpSyncAction::SendWarpProofRequest { peer_id, request } =>
                SyncingAction::SendWarpProofRequest { peer_id, key: StrategyKey::Warp, request },
            WarpSyncAction::SendBlockRequest { peer_id, request } =>
                SyncingAction::SendBlockRequest { peer_id, key: StrategyKey::Warp, request },
            WarpSyncAction::DropPeer(bad_peer) => SyncingAction::DropPeer(bad_peer),
            WarpSyncAction::Finished => SyncingAction::Finished,
        }
    }
}

impl<B: ChainTypes> FromSpecImpl<WarpSyncAction<B>> for SyncingAction<B> {
    open spec fn obeys_from_spec() -> bool {
        true
    }

    open spec fn from_spec(v: WarpSyncAction<B>) -> Self {
        from_warp(v)
    }
}

impl<B: ChainTypes> From<StateStrategyAction<B>> for SyncingAction<B> {
    fn from(action: StateStrategyAction<B>) -> (r: Self) {
        match action {
            StateStrategyAction::SendStateRequest { peer_id, request } =>
                SyncingAction::SendStateRequest { peer_id, key: StrategyKey::State, request },
            StateStrategyAction::DropPeer(bad_peer) => SyncingAction::DropPeer(bad_peer),
            StateStrategyAction::ImportBlocks { origin, blocks } => SyncingAction::ImportBlocks {
                origin,
                blocks,
            },
            StateStrategyAction::Finished => SyncingAction::Finished,
        }
    }
}

impl<B: ChainTypes> FromSpecImpl<StateStrategyAction<B>> for SyncingAction<B> {
    open spec fn obeys_from_spec() -> bool {
        true
    }

    open spec fn from_spec(v: StateStrategyAction<B>) -> Self {
        from_state(v)
    }
}

} // verus!
