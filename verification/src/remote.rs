//! Changing collections and items that live on another chain.
use pallet_nfts::DestroyWitness;
use staging_xcm::latest::SendError;
use vstd::prelude::*;

use crate::message::{Call, Message, NftsCall, RemoteCall};
use crate::pallet::{ensure_signed, Pallet};
use crate::types::{
    AccountId, Address, CollectionId, Event, Failure, ItemId, Origin, ParachainID,
};

verus! {

/// A change that another chain is asked for, as the events about it tell it.
#[derive(Clone, Copy, PartialEq, Debug)]
pub enum Change<'a> {
    CollectionMetadata { collection_id: CollectionId, data: &'a [u8], owner: AccountId },
    NftMetadata {
        collection_id: CollectionId,
        asset_id: ItemId,
        data: &'a [u8],
        owner: AccountId,
    },
    CollectionBurn { collection_id: CollectionId, burn_data: DestroyWitness, owner: AccountId },
    NftBurn { collection_id: CollectionId, asset_id: ItemId, owner: AccountId },
    CollectionOwner { collection_id: CollectionId, new_owner: Address<'a> },
    NftOwner {
        collection_id: CollectionId,
        asset_id: ItemId,
        new_owner: Address<'a>,
        owner: AccountId,
    },
}

/// A change that another chain is asked for: the message is to be sent, and the outcome handed to
/// [`Change::sent`].
#[derive(PartialEq, Debug)]
pub struct Request<'a> {
    pub message: Message<'a>,
    pub destination: ParachainID,
    pub change: Change<'a>,
}

impl<'a> Change<'a> {
    /// The call by which another chain makes this change.
    ///
    /// Where the caller has to be known there, the call names them; only the owner of a collection
    /// is changed by a call of the NFT pallet itself, as the sender's sovereign account.
    pub open spec fn remote_call(self) -> RemoteCall<'a> {
        match self {
            Change::CollectionMetadata { collection_id, data, owner } => RemoteCall::XcNft(
                Call::ParseCollectionMetadata {
                    owner: Address::Account(owner),
                    collection: collection_id,
                    data,
                },
            ),
            Change::NftMetadata { collection_id, asset_id, data, owner } => RemoteCall::XcNft(
                Call::ParseNftMetadata {
                    owner: Address::Account(owner),
                    collection: collection_id,
                    item: asset_id,
                    data,
                },
            ),
            Change::CollectionBurn { collection_id, burn_data, owner } => RemoteCall::XcNft(
                Call::ParseCollectionBurn {
                    owner: Address::Account(owner),
                    collection_to_burn: collection_id,
                    witness_data: burn_data,
                },
            ),
            Change::NftBurn { collection_id, asset_id, owner } => RemoteCall::XcNft(
                Call::ParseNftBurn {
                    owner: Address::Account(owner),
                    collection: collection_id,
                    item: asset_id,
                },
            ),
            Change::CollectionOwner { collection_id, new_owner } => RemoteCall::Nfts(
                NftsCall::TransferOwnership { collection: collection_id, new_owner },
            ),
            Change::NftOwner { collection_id, asset_id, new_owner, owner } => RemoteCall::XcNft(
                Call::ParseNftOwner {
                    owner: Address::Account(owner),
                    new_owner,
                    collection: collection_id,
                    item: asset_id,
                },
            ),
        }
    }

    /// The event that tells that a message with this change went out.
    pub open spec fn sent_event(self, destination: ParachainID) -> Event<'a> {
        match self {
            Change::CollectionMetadata { collection_id, data, owner } => Event::ColMetadataSent {
                collection_id,
                proposed_data: data,
                owner,
                destination,
            },
            Change::NftMetadata { collection_id, asset_id, data, owner } => Event::NFTMetadataSent {
                collection_id,
                asset_id,
                proposed_data: data,
                owner,
                destination,
            },
            Change::CollectionBurn { collection_id, burn_data, owner } => Event::ColBurnSent {
                collection_id,
                burn_data,
                owner,
                destination,
            },
            Change::NftBurn { collection_id, asset_id, owner } => Event::NFTBurnSent {
                collection_id,
                asset_id,
                owner,
                destination,
            },
            Change::CollectionOwner { collection_id, new_owner } => Event::ColOwnershipSent {
                collection_id,
                proposed_owner: new_owner,
                destination,
            },
            Change::NftOwner { collection_id, asset_id, new_owner, owner: _ } =>
                Event::NFTOwnershipSent {
                collection_id,
                asset_id,
                proposed_owner: new_owner,
                destination,
            },
        }
    }

    /// The event that tells that a message with this change did not go out.
    pub open spec fn failed_event(self, destination: ParachainID, e: SendError) -> Event<'a> {
        match self {
            Change::CollectionMetadata { collection_id, data, owner } =>
                Event::ColMetadataFailedToXCM {
                e,
                collection_id,
                proposed_data: data,
                owner,
                destination,
            },
            Change::NftMetadata { collection_id, asset_id, data, owner } =>
                Event::NFTMetadataFailedToXCM {
                e,
                collection_id,
                asset_id,
                proposed_data: data,
                owner,
                destination,
            },
            Change::CollectionBurn { collection_id, burn_data, owner } => Event::ColBurnFailedToXCM {
                e,
                collection_id,
                burn_data,
                owner,
                destination,
            },
            Change::NftBurn { collection_id, asset_id, owner } => Event::NFTBurnFailedToXCM {
                e,
                collection_id,
                asset_id,
                owner,
                destination,
            },
            Change::CollectionOwner { collection_id, new_owner } => Event::ColOwnershipFailedToXCM {
                e,
                collection_id,
                proposed_owner: new_owner,
                destination,
            },
            Change::NftOwner { collection_id, asset_id, new_owner, owner: _ } =>
                Event::NFTOwnershipFailedToXCM {
                e,
                collection_id,
                asset_id,
                proposed_owner: new_owner,
                destination,
            },
        }
    }

    /// The event about this change, once the router has answered.
    pub fn sent(self, destination: ParachainID, sent: Result<(), SendError>) -> (r: Event<'a>)
        ensures
            r == match sent {
                Ok(()) => self.sent_event(destination),
                Err(e) => self.failed_event(destination, e),
            },
    {
        match sent {
            Ok(()) => match self {
                Change::CollectionMetadata { collection_id, data, owner } =>
                    Event::ColMetadataSent {
                    collection_id,
                    proposed_data: data,
                    owner,
                    destination,
                },
                Change::NftMetadata { collection_id, asset_id, data, owner } =>
                    Event::NFTMetadataSent {
                    collection_id,
                    asset_id,
                    proposed_data: data,
                    owner,
                    destination,
                },
                Change::CollectionBurn { collection_id, burn_data, owner } => Event::ColBurnSent {
                    collection_id,
                    burn_data,
                    owner,
                    destination,
                },
                Change::NftBurn { collection_id, asset_id, owner } => Event::NFTBurnSent {
                    collection_id,
                    asset_id,
                    owner,
                    destination,
                },
                Change::CollectionOwner { collection_id, new_owner } => Event::ColOwnershipSent {
                    collection_id,
                    proposed_owner: new_owner,
                    destination,
                },
                Change::NftOwner { collection_id, asset_id, new_owner, owner: _ } =>
                    Event::NFTOwnershipSent {
                    collection_id,
                    asset_id,
                    proposed_owner: new_owner,
                    destination,
                },
            },
            Err(e) => match self {
                Change::CollectionMetadata { collection_id, data, owner } =>
                    Event::ColMetadataFailedToXCM {
                    e,
                    collection_id,
                    proposed_data: data,
                    owner,
                    destination,
                },
                Change::NftMetadata { collection_id, asset_id, data, owner } =>
                    Event::NFTMetadataFailedToXCM {
                    e,
                    collection_id,
                    asset_id,
                    proposed_data: data,
                    owner,
                    destination,
                },
                Change::CollectionBurn { collection_id, burn_data, owner } =>
                    Event::ColBurnFailedToXCM {
                    e,
                    collection_id,
                    burn_data,
                    owner,
                    destination,
                },
                Change::NftBurn { collection_id, asset_id, owner } => Event::NFTBurnFailedToXCM {
                    e,
                    collection_id,
                    asset_id,
                    owner,
                    destination,
                },
                Change::CollectionOwner { collection_id, new_owner } =>
                    Event::ColOwnershipFailedToXCM {
                    e,
                    collection_id,
                    proposed_owner: new_owner,
                    destination,
                },
                Change::NftOwner { collection_id, asset_id, new_owner, owner: _ } =>
                    Event::NFTOwnershipFailedToXCM {
                    e,
                    collection_id,
                    asset_id,
                    proposed_owner: new_owner,
                    destination,
                },
            },
        }
    }
}

impl<'a> Request<'a> {
    /// Whether this asks `destination` for `change`, and for nothing else.
    pub open spec fn asks(&self, destination: ParachainID, change: Change<'a>) -> bool {
        &&& self.message.is_addressed_to(destination)
        &&& self.message.call() == change.remote_call()
        &&& self.destination == destination
        &&& self.change == change
    }

    /// The request for a change.
    fn new(destination: ParachainID, change: Change<'a>) -> (r: Self)
        ensures
            r.asks(destination, change),
    {
        let call = match change {
            Change::CollectionMetadata { collection_id, data, owner } => RemoteCall::XcNft(
                Call::ParseCollectionMetadata {
                    owner: Address::Account(owner),
                    collection: collection_id,
                    data,
                },
            ),
            Change::NftMetadata { collection_id, asset_id, data, owner } => RemoteCall::XcNft(
                Call::ParseNftMetadata {
                    owner: Address::Account(owner),
                    collection: collection_id,
                    item: asset_id,
                    data,
                },
            ),
            Change::CollectionBurn { collection_id, burn_data, owner } => RemoteCall::XcNft(
                Call::ParseCollectionBurn {
                    owner: Address::Account(owner),
                    collection_to_burn: collection_id,
                    witness_data: burn_data,
                },
            ),
            Change::NftBurn { collection_id, asset_id, owner } => RemoteCall::XcNft(
                Call::ParseNftBurn {
                    owner: Address::Account(owner),
                    collection: collection_id,
                    item: asset_id,
                },
            ),
            Change::CollectionOwner { collection_id, new_owner } => RemoteCall::Nfts(
                NftsCall::TransferOwnership { collection: collection_id, new_owner },
            ),
            Change::NftOwner { collection_id, asset_id, new_owner, owner } => RemoteCall::XcNft(
                Call::ParseNftOwner {
                    owner: Address::Account(owner),
                    new_owner,
                    collection: collection_id,
                    item: asset_id,
                },
            ),
        };
        Request { message: Message::to_sibling(destination, call), destination, change }
    }
}

impl Pallet {
    /// Updates the metadata of a collection on another chain.
    pub fn collection_x_update<'a>(
        origin: Origin,
        destination_collection_id: CollectionId,
        destination_para: ParachainID,
        data: &'a [u8],
    ) -> (r: Result<Request<'a>, Failure>)
        ensures
            match origin {
                Origin::Signed(who) => {
                    &&& r matches Ok(request)
                    &&& request.asks(
                        destination_para,
                        Change::CollectionMetadata {
                            collection_id: destination_collection_id,
                            data,
                            owner: who,
                        },
                    )
                },
                _ => r matches Err(failure) && failure == Failure::BadOrigin,
            },
    {
        match ensure_signed(origin) {
            Ok(who) => Ok(
                Request::new(
                    destination_para,
                    Change::CollectionMetadata {
                        collection_id: destination_collection_id,
                        data,
                        owner: who,
                    },
                ),
            ),
            Err(failure) => Err(failure),
        }
    }

    /// Updates the metadata of an item on another chain.
    pub fn nft_x_update<'a>(
        origin: Origin,
        destination_collection_id: CollectionId,
        destination_asset_id: ItemId,
        destination_para: ParachainID,
        data: &'a [u8],
    ) -> (r: Result<Request<'a>, Failure>)
        ensures
            match origin {
                Origin::Signed(who) => {
                    &&& r matches Ok(request)
                    &&& request.asks(
                        destination_para,
                        Change::NftMetadata {
                            collection_id: destination_collection_id,
                            asset_id: destination_asset_id,
                            data,
                            owner: who,
                        },
                    )
                },
                _ => r matches Err(failure) && failure == Failure::BadOrigin,
            },
    {
        match ensure_signed(origin) {
            Ok(who) => Ok(
                Request::new(
                    destination_para,
                    Change::NftMetadata {
                        collection_id: destination_collection_id,
                        asset_id: destination_asset_id,
                        data,
                        owner: who,
                    },
                ),
            ),
            Err(failure) => Err(failure),
        }
    }

    /// Burns a collection on another chain.
    pub fn collection_x_burn(
        origin: Origin,
        destination_collection_id: CollectionId,
        destination_para: ParachainID,
        witnes_data: DestroyWitness,
    ) -> (r: Result<Request<'static>, Failure>)
        ensures
            match origin {
                Origin::Signed(who) => {
                    &&& r matches Ok(request)
                    &&& request.asks(
                        destination_para,
                        Change::CollectionBurn {
                            collection_id: destination_collection_id,
                            burn_data: witnes_data,
                            owner: who,
                        },
                    )
                },
                _ => r matches Err(failure) && failure == Failure::BadOrigin,
            },
    {
        match ensure_signed(origin) {
            Ok(who) => Ok(
                Request::new(
                    destination_para,
                    Change::CollectionBurn {
                        collection_id: destination_collection_id,
                        burn_data: witnes_data,
                        owner: who,
                    },
                ),
            ),
            Err(failure) => Err(failure),
        }
    }

    /// Burns an item on another chain.
    pub fn nft_x_burn(
        origin: Origin,
        destination_collection_id: CollectionId,
        destination_asset_id: ItemId,
        destination_para: ParachainID,
    ) -> (r: Result<Request<'static>, Failure>)
        ensures
            match origin {
                Origin::Signed(who) => {
                    &&& r matches Ok(request)
                    &&& request.asks(
                        destination_para,
                        Change::NftBurn {
                            collection_id: destination_collection_id,
                            asset_id: destination_asset_id,
                            owner: who,
                        },
                    )
                },
                _ => r matches Err(failure) && failure == Failure::BadOrigin,
            },
    {
        match ensure_signed(origin) {
            Ok(who) => Ok(
                Request::new(
                    destination_para,
                    Change::NftBurn {
                        collection_id: destination_collection_id,
                        asset_id: destination_asset_id,
                        owner: who,
                    },
                ),
            ),
            Err(failure) => Err(failure),
        }
    }

    /// Changes the owner of a collection on another chain.
    pub fn collection_x_change_owner<'a>(
        origin: Origin,
        destination_collection_id: CollectionId,
        destination_para: ParachainID,
        destination_account: Address<'a>,
    ) -> (r: Result<Request<'a>, Failure>)
        ensures
            match origin {
                Origin::Signed(_) => {
                    &&& r matches Ok(request)
                    &&& request.asks(
                        destination_para,
                        Change::CollectionOwner {
                            collection_id: destination_collection_id,
                            new_owner: destination_account,
                        },
                    )
                },
                _ => r matches Err(failure) && failure == Failure::BadOrigin,
            },
    {
        match ensure_signed(origin) {
            Ok(_) => Ok(
                Request::new(
                    destination_para,
                    Change::CollectionOwner {
                        collection_id: destination_collection_id,
                        new_owner: destination_account,
                    },
                ),
            ),
            Err(failure) => Err(failure),
        }
    }

    /// Changes the owner of an item on another chain.
    pub fn nft_x_change_owner<'a>(
        origin: Origin,
        destination_collection_id: CollectionId,
        destination_asset_id: ItemId,
        destination_para: ParachainID,
        destination_account: Address<'a>,
    ) -> (r: Result<Request<'a>, Failure>)
        ensures
            match origin {
                Origin::Signed(who) => {
                    &&& r matches Ok(request)
                    &&& request.asks(
                        destination_para,
                        Change::NftOwner {
                            collection_id: destination_collection_id,
                            asset_id: destination_asset_id,
                            new_owner: destination_account,
                            owner: who,
                        },
                    )
                },
                _ => r matches Err(failure) && failure == Failure::BadOrigin,
            },
    {
        match ensure_signed(origin) {
            Ok(who) => Ok(
                Request::new(
                    destination_para,
                    Change::NftOwner {
                        collection_id: destination_collection_id,
                        asset_id: destination_asset_id,
                        new_owner: destination_account,
                        owner: who,
                    },
                ),
            ),
            Err(failure) => Err(failure),
        }
    }
}

} // verus!
