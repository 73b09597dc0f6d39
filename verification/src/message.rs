//! What the pallet sends to other chains, and what it asks of the chain it runs on.
use pallet_nfts::DestroyWitness;
use vstd::prelude::*;

use crate::types::{
    AccountId, Address, Balance, CollectionConfigFor, CollectionId, ItemId, ParachainID,
};

verus! {

/// A call of this pallet, made on another chain.
#[allow(inconsistent_fields)]
#[derive(PartialEq, Debug)]
pub enum Call<'a> {
    ParseCollectionEmpty {
        origin_collection: CollectionId,
        receiving_account: Address<'a>,
        config: CollectionConfigFor,
        origin_para: ParachainID,
    },
    ParseCollectionBurn {
        owner: Address<'a>,
        collection_to_burn: CollectionId,
        witness_data: DestroyWitness,
    },
    ParseCollectionMetadata { owner: Address<'a>, collection: CollectionId, data: &'a [u8] },
    ParseNftBurn { owner: Address<'a>, collection: CollectionId, item: ItemId },
    ParseNftMetadata {
        owner: Address<'a>,
        collection: CollectionId,
        item: ItemId,
        data: &'a [u8],
    },
    ParseNftOwner {
        owner: Address<'a>,
        new_owner: Address<'a>,
        collection: CollectionId,
        item: ItemId,
    },
    ParseNftTransfer {
        owner: Address<'a>,
        collection: CollectionId,
        item: ItemId,
        data: &'a [u8],
        mint_to: Address<'a>,
        origin_collection: CollectionId,
        origin_item: ItemId,
        origin_chain: ParachainID,
    },
    ParseCollectionSameOwner {
        owner: Address<'a>,
        config: CollectionConfigFor,
        collection_metadata: &'a [u8],
        nfts: Vec<(ItemId, &'a [u8])>,
        origin_para: ParachainID,
        origin_collection_id: CollectionId,
    },
    ParseCollectionMultipleOwners {
        owner: Address<'a>,
        config: CollectionConfigFor,
        collection_metadata: &'a [u8],
        nfts: Vec<(ItemId, Address<'a>, &'a [u8])>,
        origin_para: ParachainID,
        origin_collection_id: CollectionId,
    },
}

/// A call of the NFT pallet.
#[derive(Clone, Copy, PartialEq, Debug)]
pub enum NftsCall<'a> {
    Create { admin: Address<'a>, config: CollectionConfigFor },
    Destroy { collection: CollectionId, witness: DestroyWitness },
    SetCollectionMetadata { collection: CollectionId, data: &'a [u8] },
    TransferOwnership { collection: CollectionId, new_owner: Address<'a> },
    /// Mints without a witness.
    Mint { collection: CollectionId, item: ItemId, mint_to: Address<'a> },
    Burn { collection: CollectionId, item: ItemId },
    Transfer { collection: CollectionId, item: ItemId, dest: Address<'a> },
    SetMetadata { collection: CollectionId, item: ItemId, data: &'a [u8] },
}

/// The call that a message has another chain make.
#[derive(PartialEq, Debug)]
pub enum RemoteCall<'a> {
    /// A call of this pallet.
    XcNft(Call<'a>),
    /// A call of the NFT pallet itself.
    Nfts(NftsCall<'a>),
}

/// How much the execution of a message may weigh.
#[derive(Clone, Copy, PartialEq, Eq, Structural, Debug)]
pub enum WeightLimit {
    Unlimited,
    Limited { ref_time: u64, proof_size: u64 },
}

/// As whom a chain makes a call that came in a message.
#[derive(Clone, Copy, PartialEq, Eq, Structural, Debug)]
pub enum OriginKind {
    Native,
    SovereignAccount,
    Superuser,
    Xcm,
}

/// The instruction to execute a message that nobody pays for.
#[derive(Clone, Copy, PartialEq, Eq, Structural, Debug)]
pub struct UnpaidExecution {
    pub weight_limit: WeightLimit,
    /// The sibling chain that must have sent the message, if any is named.
    pub check_origin: Option<ParachainID>,
}

/// The instruction to make a call.
#[derive(PartialEq, Debug)]
pub struct Transact<'a> {
    pub origin_kind: OriginKind,
    pub require_ref_time_at_most: u64,
    pub require_proof_size_at_most: u64,
    pub call: RemoteCall<'a>,
}

/// A message to another chain: its way there, and its two instructions in order.
#[derive(PartialEq, Debug)]
pub struct Message<'a> {
    /// How many levels up the way begins.
    pub parents: u8,
    /// The parachain below the relay chain.
    pub parachain: ParachainID,
    pub unpaid_execution: UnpaidExecution,
    pub transact: Transact<'a>,
}

/// The time that a remote call may take, in picoseconds.
pub const TRANSACT_REF_TIME: u64 = 1_000_000_000;

/// The proof that a remote call may need, in bytes.
pub const TRANSACT_PROOF_SIZE: u64 = 65_536;

impl<'a> Message<'a> {
    /// Whether this message has the chain `destination` execute, unpaid and without a limit, one
    /// call as the sender's sovereign account.
    pub open spec fn is_addressed_to(&self, destination: ParachainID) -> bool {
        &&& self.parents == 1
        &&& self.parachain == destination
        &&& self.unpaid_execution.weight_limit == WeightLimit::Unlimited
        &&& self.unpaid_execution.check_origin is None
        &&& self.transact.origin_kind == OriginKind::SovereignAccount
        &&& self.transact.require_ref_time_at_most == TRANSACT_REF_TIME
        &&& self.transact.require_proof_size_at_most == TRANSACT_PROOF_SIZE
    }

    /// The call that this message carries.
    pub open spec fn call(&self) -> RemoteCall<'a> {
        self.transact.call
    }

    /// The message that has the sibling chain `destination` make `call`.
    pub fn to_sibling(destination: ParachainID, call: RemoteCall<'a>) -> (r: Self)
        ensures
            r.is_addressed_to(destination),
            r.call() == call,
    {
        Message {
            parents: 1,
            parachain: destination,
            unpaid_execution: UnpaidExecution {
                weight_limit: WeightLimit::Unlimited,
                check_origin: None,
            },
            transact: Transact {
                origin_kind: OriginKind::SovereignAccount,
                require_ref_time_at_most: TRANSACT_REF_TIME,
                require_proof_size_at_most: TRANSACT_PROOF_SIZE,
                call,
            },
        }
    }
}

/// As whom the chain is asked to make a call.
#[derive(Clone, Copy, PartialEq, Eq, Structural, Debug)]
pub enum Caller {
    /// As whoever called the pallet.
    Caller,
    /// As this account.
    Signed(AccountId),
}

/// A call that the chain is asked to make, and whose outcome it is asked for.
#[derive(Clone, Copy, PartialEq, Debug)]
pub struct Dispatch<'a> {
    pub origin: Caller,
    pub call: NftsCall<'a>,
}

/// Something that the chain is asked to do, without being asked how it went.
///
/// To remove a record that is not there does nothing.
#[derive(Clone, Copy, PartialEq, Debug)]
pub enum Effect<'a> {
    /// Make a call of the NFT pallet.
    Dispatch(Dispatch<'a>),
    /// Give a deposit back.
    Unreserve { who: AccountId, amount: Balance },
    RemoveCollection { collection: CollectionId },
    RemoveCollectionMetadata { collection: CollectionId },
    RemoveCollectionConfig { collection: CollectionId },
    RemoveCollectionRole { collection: CollectionId, who: AccountId },
    RemoveCollectionAccount { who: AccountId, collection: CollectionId },
    RemoveAccount { owner: AccountId, collection: CollectionId, item: ItemId },
    RemoveItem { collection: CollectionId, item: ItemId },
    RemovePendingSwap { collection: CollectionId, item: ItemId },
    RemoveItemMetadata { collection: CollectionId, item: ItemId },
    RemoveItemAttributesApprovals { collection: CollectionId, item: ItemId },
    RemoveItemPrice { collection: CollectionId, item: ItemId },
    RemoveItemConfig { collection: CollectionId, item: ItemId },
}

} // verus!
