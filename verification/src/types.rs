//! The plain values that the pallet works on.
use staging_xcm::latest::SendError;
use frame_support::dispatch::PostDispatchInfo;
use pallet_nfts::DestroyWitness;
use sp_runtime::DispatchError;
use vstd::prelude::*;

use crate::outside::{accounts, AccountList};
use crate::table::Key;

verus! {

/// Identifies a collection of one chain.
pub type CollectionId = u32;

/// Identifies an item within its collection.
pub type ItemId = u32;

/// Identifies a parachain.
pub type ParachainID = u32;

/// An amount of the chain's currency.
pub type Balance = u128;

/// The height of a block.
pub type BlockNumber = u64;

/// The settings with which a collection is created.
pub type CollectionConfigFor = pallet_nfts::CollectionConfig<Balance, BlockNumber, CollectionId>;

/// An account: thirty-two bytes, as two big-endian halves.
#[derive(Clone, Copy, PartialEq, Eq, Structural, Debug)]
pub struct AccountId {
    pub high: u128,
    pub low: u128,
}

/// An address that stands for an account.
///
/// `Account` is the address that the chain itself writes for an account; `Encoded` holds the bytes
/// of any other form, which only the chain can resolve.
#[derive(Clone, Copy, PartialEq, Eq, Debug)]
pub enum Address<'a> {
    Account(AccountId),
    Encoded(&'a [u8]),
}

/// Who makes a call.
#[derive(Clone, Copy, PartialEq, Eq, Structural, Debug)]
pub enum Origin {
    Root,
    Signed(AccountId),
    Other,
}

/// An item of a chain: its collection and its identifier there.
#[derive(Clone, Copy, PartialEq, Eq, Structural, Debug)]
pub struct AssetKey {
    pub collection: CollectionId,
    pub item: ItemId,
}

impl Key for AssetKey {
    fn same(&self, other: &Self) -> (r: bool) {
        *self == *other
    }
}

/// What the chain stores about an item.
#[derive(Clone, Copy, PartialEq, Eq, Debug)]
pub struct ItemState<'a> {
    pub id: ItemId,
    pub owner: AccountId,
    pub metadata: Option<&'a [u8]>,
    /// Who paid the deposit for the item.
    pub depositor: Option<AccountId>,
    /// The deposit for the item.
    pub deposit: Option<Balance>,
}

/// What the chain stores about a collection: its items stand in the order of the chain's storage.
#[derive(Clone, Copy, PartialEq, Eq, Debug)]
pub struct CollectionState<'a> {
    pub owner: AccountId,
    pub metadata: Option<&'a [u8]>,
    pub items: &'a [ItemState<'a>],
}

/// The settings of the pallet, and the chain on which it runs.
#[derive(Clone, Copy, PartialEq, Eq, Structural, Debug)]
pub struct Config {
    /// How long cross-chain proposals last.
    pub proposal_time_in_blocks: u32,
    /// How many different owners there can be in a collection on whose transfer is voted.
    pub max_owners: u32,
    /// This chain's identifier.
    pub parachain_id: ParachainID,
}

/// A vote on a proposal.
#[derive(Clone, Copy, PartialEq, Eq, Structural, Debug, Default)]
pub enum Vote {
    #[default]
    Aye,
    Nay,
}

/// The votes cast on a proposal.
#[derive(PartialEq, Debug)]
pub struct Votes {
    pub aye: AccountList,
    pub nay: AccountList,
}

/// A proposal to move a collection, with the items of several owners in it, to another chain.
#[derive(PartialEq, Debug)]
pub struct Proposal {
    pub proposal_id: u64,
    pub collection_id: CollectionId,
    pub proposed_collection_owner: AccountId,
    pub proposed_destination_para: ParachainID,
    pub proposed_destination_config: CollectionConfigFor,
    /// Who may vote.
    pub owners: AccountList,
    pub number_of_votes: Votes,
    pub end_time: BlockNumber,
}

/// A proposal, with its lists as sequences.
#[verifier::ext_equal]
pub struct ProposalView {
    pub proposal_id: u64,
    pub collection_id: CollectionId,
    pub proposed_collection_owner: AccountId,
    pub proposed_destination_para: ParachainID,
    pub proposed_destination_config: CollectionConfigFor,
    pub owners: Seq<AccountId>,
    pub aye: Seq<AccountId>,
    pub nay: Seq<AccountId>,
    pub end_time: BlockNumber,
}

impl View for Proposal {
    type V = ProposalView;

    open spec fn view(&self) -> ProposalView {
        ProposalView {
            proposal_id: self.proposal_id,
            collection_id: self.collection_id,
            proposed_collection_owner: self.proposed_collection_owner,
            proposed_destination_para: self.proposed_destination_para,
            proposed_destination_config: self.proposed_destination_config,
            owners: accounts(self.owners),
            aye: accounts(self.number_of_votes.aye),
            nay: accounts(self.number_of_votes.nay),
            end_time: self.end_time,
        }
    }
}

/// An asset that was sent from here to another chain.
#[derive(Clone, Copy, PartialEq, Eq, Structural, Debug)]
pub struct SentStruct {
    /// The chain on which the asset was made.
    pub origin_para_id: ParachainID,
    pub origin_collection_id: CollectionId,
    pub origin_asset_id: ItemId,
    pub destination_collection_id: CollectionId,
    pub destination_asset_id: ItemId,
}

/// An asset that was received here from another chain.
#[derive(Clone, Copy, PartialEq, Eq, Structural, Debug)]
pub struct ReceivedStruct {
    /// The chain that sent the asset.
    pub origin_para_id: ParachainID,
    pub origin_collection_id: CollectionId,
    pub origin_asset_id: ItemId,
    pub received_collection_id: CollectionId,
    pub received_asset_id: ItemId,
}

/// A collection that was received here from another chain.
#[derive(Clone, Copy, PartialEq, Eq, Structural, Debug)]
pub struct ReceivedCols {
    /// The chain that sent the collection.
    pub origin_para_id: ParachainID,
    pub origin_collection_id: CollectionId,
    pub received_collection_id: CollectionId,
}

/// Why the pallet refuses a call.
#[derive(Clone, Copy, PartialEq, Eq, Structural, Debug)]
pub enum Error {
    CollectionDoesNotExist,
    NFTDoesNotExist,
    NFTExists,
    ProposalAlreadyExists,
    NotCollectionOwner,
    NFTAlreadyReceived,
    ProposalExpired,
    ProposalStillActive,
    ProposalDoesNotExist,
    ProposalDidNotPass,
    AlreadyVotedThis,
    MaxOwnersReached,
    NotNFTOwner,
    NFTNotReceived,
    AccountLookupFailed,
    NotSent,
    NoNextCollectionId,
    ConversionError,
    WrongOriginCollectionAtOrigin,
}

/// How a call fails.
#[derive(Clone, Copy, PartialEq, Eq, Debug)]
pub enum Failure {
    /// The call is not signed.
    BadOrigin,
    /// The chain could not resolve an address.
    CannotLookup,
    /// The pallet refuses the call.
    Module(Error),
    /// A call into the NFT pallet failed.
    Nfts(DispatchError),
}

/// How the destruction of a collection fails.
#[derive(Clone, Copy, PartialEq, Eq, Debug)]
pub struct DestroyError {
    pub post_info: PostDispatchInfo,
    pub error: DispatchError,
}

/// What the pallet tells the world.
#[allow(inconsistent_fields)]
#[derive(PartialEq, Debug)]
pub enum Event<'a> {
    SomethingStored { block_number: BlockNumber, who: AccountId },
    /// A collection was transferred cross-chain.
    CollectionTransferred {
        origin_collection_id: CollectionId,
        destination_para_id: ParachainID,
        to_address: Address<'a>,
    },
    /// A cross-chain transfer failed.
    CollectionFailedToXCM {
        e: SendError,
        collection_id: CollectionId,
        owner: AccountId,
        destination: ParachainID,
    },
    /// There are different NFT owners in the collection.
    CollectionTransferProposalCreated {
        proposal_id: u64,
        collection_id: CollectionId,
        proposer: AccountId,
        proposed_collection_owner: Address<'a>,
        destination: ParachainID,
    },
    /// A collection and its NFTs were transferred cross-chain.
    CollectionAndNFTsTransferred {
        origin_collection_id: CollectionId,
        nft_ids: Vec<ItemId>,
        destination_para_id: ParachainID,
        to_address: Address<'a>,
    },
    /// A vote was registered.
    CrossChainPropoposalVoteRegistered { proposal_id: u64, voter: AccountId, vote: Vote },
    /// A non-fungible asset was transferred cross-chain.
    NFTTransferred {
        origin_collection_id: CollectionId,
        origin_asset_id: ItemId,
        destination_para_id: ParachainID,
        destination_collection_id: CollectionId,
        destination_asset_id: ItemId,
        to_address: Address<'a>,
    },
    /// A non-fungible asset was claimed into a collection that was also sent cross-chain.
    NFTClaimed {
        collection_claimed_from: CollectionId,
        asset_removed: ItemId,
        collection_claimed_to: CollectionId,
        asset_claimed: ItemId,
    },
    /// Collection metadata could not be sent.
    ColMetadataFailedToXCM {
        e: SendError,
        collection_id: CollectionId,
        proposed_data: &'a [u8],
        owner: AccountId,
        destination: ParachainID,
    },
    /// Collection metadata was sent cross-chain.
    ColMetadataSent {
        collection_id: CollectionId,
        proposed_data: &'a [u8],
        owner: AccountId,
        destination: ParachainID,
    },
    /// NFT metadata could not be sent.
    NFTMetadataFailedToXCM {
        e: SendError,
        collection_id: CollectionId,
        asset_id: ItemId,
        proposed_data: &'a [u8],
        owner: AccountId,
        destination: ParachainID,
    },
    /// NFT metadata was sent cross-chain.
    NFTMetadataSent {
        collection_id: CollectionId,
        asset_id: ItemId,
        proposed_data: &'a [u8],
        owner: AccountId,
        destination: ParachainID,
    },
    /// A collection burn call could not be sent.
    ColBurnFailedToXCM {
        e: SendError,
        collection_id: CollectionId,
        burn_data: DestroyWitness,
        owner: AccountId,
        destination: ParachainID,
    },
    /// A collection burn call was sent cross-chain.
    ColBurnSent {
        collection_id: CollectionId,
        burn_data: DestroyWitness,
        owner: AccountId,
        destination: ParachainID,
    },
    /// An NFT burn call could not be sent.
    NFTBurnFailedToXCM {
        e: SendError,
        collection_id: CollectionId,
        asset_id: ItemId,
        owner: AccountId,
        destination: ParachainID,
    },
    /// An NFT burn call was sent cross-chain.
    NFTBurnSent {
        collection_id: CollectionId,
        asset_id: ItemId,
        owner: AccountId,
        destination: ParachainID,
    },
    /// A collection ownership call could not be sent.
    ColOwnershipFailedToXCM {
        e: SendError,
        collection_id: CollectionId,
        proposed_owner: Address<'a>,
        destination: ParachainID,
    },
    /// A collection ownership call was sent cross-chain.
    ColOwnershipSent {
        collection_id: CollectionId,
        proposed_owner: Address<'a>,
        destination: ParachainID,
    },
    /// An NFT ownership call could not be sent.
    NFTOwnershipFailedToXCM {
        e: SendError,
        collection_id: CollectionId,
        asset_id: ItemId,
        proposed_owner: Address<'a>,
        destination: ParachainID,
    },
    /// An NFT ownership call was sent cross-chain.
    NFTOwnershipSent {
        collection_id: CollectionId,
        asset_id: ItemId,
        proposed_owner: Address<'a>,
        destination: ParachainID,
    },
    CollectionReceived {
        origin_collection_id: CollectionId,
        received_collection_id: CollectionId,
        to_address: Address<'a>,
    },
    CollectionAlreadyReceived { origin_collection_id: CollectionId, to_address: Address<'a> },
    CollectionCreationFailed { error: DispatchError, owner: Address<'a> },
    CollectionBurnFailed {
        error: DestroyError,
        collection_id: CollectionId,
        owner: Address<'a>,
    },
    CollectionMetadataSetFailed {
        error: DispatchError,
        collection_id: CollectionId,
        owner: Address<'a>,
    },
    CollectionOwnershipTransferFailed {
        error: DispatchError,
        collection_id: CollectionId,
        owner: Address<'a>,
    },
    NFTBurnFailed {
        error: DispatchError,
        collection_id: CollectionId,
        asset_id: ItemId,
        owner: Address<'a>,
    },
    NFTMetadataSetFailed {
        error: DispatchError,
        collection_id: CollectionId,
        asset_id: ItemId,
        owner: Address<'a>,
    },
    NFTOwnershipTransferFailed {
        error: DispatchError,
        collection_id: CollectionId,
        asset_id: ItemId,
        owner: Address<'a>,
    },
    NFTMintFailed {
        error: DispatchError,
        collection_id: CollectionId,
        asset_id: ItemId,
        owner: Address<'a>,
    },
    NFTReceived {
        origin_collection_id: CollectionId,
        origin_asset_id: ItemId,
        received_collection_id: CollectionId,
        received_asset_id: ItemId,
        to_address: Address<'a>,
    },
    NFTReturnedToOrigin {
        origin_collection_id: CollectionId,
        origin_asset_id: ItemId,
        returned_from_collection_id: CollectionId,
        returned_from_asset_id: ItemId,
        to_address: AccountId,
    },
    CollectionWithNftsReceived { collection_id: CollectionId, items: Vec<(ItemId, &'a [u8])> },
}

} // verus!
