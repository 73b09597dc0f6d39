//! Carrying out what other chains ask for.
use pallet_nfts::DestroyWitness;
use sp_runtime::DispatchError;
use vstd::prelude::*;

use crate::message::{Caller, Dispatch, NftsCall};
use crate::pallet::Pallet;
use crate::types::{
    AccountId, Address, CollectionConfigFor, CollectionId, DestroyError, Error, Event, Failure,
    ItemId,
};

verus! {

/// A call of the NFT pallet whose failure is told in an event.
#[derive(Clone, Copy, PartialEq, Debug)]
pub enum Attempt<'a> {
    SetCollectionMetadata { collection: CollectionId, owner: Address<'a> },
    TransferCollection { collection: CollectionId, owner: Address<'a> },
    Mint { collection: CollectionId, item: ItemId, owner: Address<'a> },
    Burn { collection: CollectionId, item: ItemId, owner: Address<'a> },
    SetMetadata { collection: CollectionId, item: ItemId, owner: Address<'a> },
    Transfer { collection: CollectionId, item: ItemId, owner: Address<'a> },
}

impl<'a> Attempt<'a> {
    /// The event that tells that this failed.
    pub open spec fn failed_event(self, error: DispatchError) -> Event<'a> {
        match self {
            Attempt::SetCollectionMetadata { collection, owner } =>
                Event::CollectionMetadataSetFailed { error, collection_id: collection, owner },
            Attempt::TransferCollection { collection, owner } =>
                Event::CollectionOwnershipTransferFailed { error, collection_id: collection, owner },
            Attempt::Mint { collection, item, owner } => Event::NFTMintFailed {
                error,
                collection_id: collection,
                asset_id: item,
                owner,
            },
            Attempt::Burn { collection, item, owner } => Event::NFTBurnFailed {
                error,
                collection_id: collection,
                asset_id: item,
                owner,
            },
            Attempt::SetMetadata { collection, item, owner } => Event::NFTMetadataSetFailed {
                error,
                collection_id: collection,
                asset_id: item,
                owner,
            },
            Attempt::Transfer { collection, item, owner } => Event::NFTOwnershipTransferFailed {
                error,
                collection_id: collection,
                asset_id: item,
                owner,
            },
        }
    }

    /// What is told of the outcome: nothing of a success.
    pub open spec fn report(self, outcome: Result<(), DispatchError>) -> Option<Event<'a>> {
        match outcome {
            Ok(()) => None,
            Err(error) => Some(self.failed_event(error)),
        }
    }

    /// What is told of the outcome of this attempt.
    pub fn finished(self, outcome: Result<(), DispatchError>) -> (r: Option<Event<'a>>)
        ensures
            r == self.report(outcome),
    {
        let error = match outcome {
            Ok(()) => {
                return None;
            },
            Err(error) => error,
        };
        let event = match self {
            Attempt::SetCollectionMetadata { collection, owner } =>
                Event::CollectionMetadataSetFailed { error, collection_id: collection, owner },
            Attempt::TransferCollection { collection, owner } =>
                Event::CollectionOwnershipTransferFailed { error, collection_id: collection, owner },
            Attempt::Mint { collection, item, owner } => Event::NFTMintFailed {
                error,
                collection_id: collection,
                asset_id: item,
                owner,
            },
            Attempt::Burn { collection, item, owner } => Event::NFTBurnFailed {
                error,
                collection_id: collection,
                asset_id: item,
                owner,
            },
            Attempt::SetMetadata { collection, item, owner } => Event::NFTMetadataSetFailed {
                error,
                collection_id: collection,
                asset_id: item,
                owner,
            },
            Attempt::Transfer { collection, item, owner } => Event::NFTOwnershipTransferFailed {
                error,
                collection_id: collection,
                asset_id: item,
                owner,
            },
        };
        Some(event)
    }
}

/// A call that the chain is asked to make, and what it is: the outcome is handed to
/// [`Attempt::finished`].
#[derive(Clone, Copy, PartialEq, Debug)]
pub struct Attempted<'a> {
    pub dispatch: Dispatch<'a>,
    pub attempt: Attempt<'a>,
}

/// What is done for the account to which the chain resolved an address, or the refusal where it
/// could not.
pub open spec fn as_resolved<'a>(
    account: Option<AccountId>,
    call: NftsCall<'a>,
    attempt: Attempt<'a>,
) -> Result<Attempted<'a>, Failure> {
    match account {
        Some(who) => Ok(
            Attempted { dispatch: Dispatch { origin: Caller::Signed(who), call }, attempt },
        ),
        None => Err(Failure::Module(Error::AccountLookupFailed)),
    }
}

fn attempt_as<'a>(account: Option<AccountId>, call: NftsCall<'a>, attempt: Attempt<'a>) -> (r:
    Result<Attempted<'a>, Failure>)
    ensures
        r == as_resolved(account, call, attempt),
{
    match account {
        Some(who) => Ok(
            Attempted { dispatch: Dispatch { origin: Caller::Signed(who), call }, attempt },
        ),
        None => Err(Failure::Module(Error::AccountLookupFailed)),
    }
}

impl Pallet {
    /// Takes a collection without items that another chain sent: it is to be created as whoever
    /// called, and the outcome handed to [`Pallet::parse_collection_empty_created`].
    pub fn parse_collection_empty<'a>(
        receiving_account: Address<'a>,
        config: CollectionConfigFor,
    ) -> (r: Dispatch<'a>)
        ensures
            r == (Dispatch {
                origin: Caller::Caller,
                call: NftsCall::Create { admin: receiving_account, config },
            }),
    {
        Dispatch {
            origin: Caller::Caller,
            call: NftsCall::Create { admin: receiving_account, config },
        }
    }

    /// Tells what became of a collection without items. The collection is told of by the identifier
    /// that it had where it came from.
    pub fn parse_collection_empty_created<'a>(
        origin_collection: CollectionId,
        receiving_account: Address<'a>,
        created: Result<(), DispatchError>,
    ) -> (r: Event<'a>)
        ensures
            r == match created {
                Ok(()) => Event::CollectionReceived {
                    origin_collection_id: origin_collection,
                    received_collection_id: origin_collection,
                    to_address: receiving_account,
                },
                Err(error) => Event::CollectionCreationFailed { error, owner: receiving_account },
            },
    {
        match created {
            Ok(()) => Event::CollectionReceived {
                origin_collection_id: origin_collection,
                received_collection_id: origin_collection,
                to_address: receiving_account,
            },
            Err(error) => Event::CollectionCreationFailed { error, owner: receiving_account },
        }
    }

    /// Burns a collection for its owner on another chain; `account` is the account to which the
    /// chain resolves the owner's address. The outcome is handed to
    /// [`Pallet::parse_collection_burned`].
    pub fn parse_collection_burn(
        collection_to_burn: CollectionId,
        witness_data: DestroyWitness,
        account: Option<AccountId>,
    ) -> (r: Result<Dispatch<'static>, Failure>)
        ensures
            match account {
                Some(who) => {
                    &&& r matches Ok(dispatch)
                    &&& dispatch == (Dispatch {
                        origin: Caller::Signed(who),
                        call: NftsCall::Destroy {
                            collection: collection_to_burn,
                            witness: witness_data,
                        },
                    })
                },
                None => r matches Err(failure) && failure == Failure::Module(
                    Error::AccountLookupFailed,
                ),
            },
    {
        match account {
            Some(who) => Ok(
                Dispatch {
                    origin: Caller::Signed(who),
                    call: NftsCall::Destroy {
                        collection: collection_to_burn,
                        witness: witness_data,
                    },
                },
            ),
            None => Err(Failure::Module(Error::AccountLookupFailed)),
        }
    }

    /// Tells what became of the burning of a collection: nothing of a success.
    pub fn parse_collection_burned<'a>(
        owner: Address<'a>,
        collection_to_burn: CollectionId,
        burned: Result<(), DestroyError>,
    ) -> (r: Option<Event<'a>>)
        ensures
            r == match burned {
                Ok(()) => None,
                Err(error) => Some(
                    Event::CollectionBurnFailed { error, collection_id: collection_to_burn, owner },
                ),
            },
    {
        match burned {
            Ok(()) => None,
            Err(error) => Some(
                Event::CollectionBurnFailed { error, collection_id: collection_to_burn, owner },
            ),
        }
    }

    /// Sets the metadata of a collection for its owner on another chain; `account` is the account
    /// to which the chain resolves the owner's address.
    pub fn parse_collection_metadata<'a>(
        owner: Address<'a>,
        collection: CollectionId,
        data: &'a [u8],
        account: Option<AccountId>,
    ) -> (r: Result<Attempted<'a>, Failure>)
        ensures
            r == as_resolved(
                account,
                NftsCall::SetCollectionMetadata { collection, data },
                Attempt::SetCollectionMetadata { collection, owner },
            ),
    {
        attempt_as(
            account,
            NftsCall::SetCollectionMetadata { collection, data },
            Attempt::SetCollectionMetadata { collection, owner },
        )
    }

    /// Gives a collection to a new owner for its owner on another chain; `account` is the account
    /// to which the chain resolves the owner's address.
    pub fn parse_collection_owner<'a>(
        owner: Address<'a>,
        new_owner: Address<'a>,
        collection: CollectionId,
        account: Option<AccountId>,
    ) -> (r: Result<Attempted<'a>, Failure>)
        ensures
            r == as_resolved(
                account,
                NftsCall::TransferOwnership { collection, new_owner },
                Attempt::TransferCollection { collection, owner },
            ),
    {
        attempt_as(
            account,
            NftsCall::TransferOwnership { collection, new_owner },
            Attempt::TransferCollection { collection, owner },
        )
    }

    /// Burns an item for its owner on another chain; `account` is the account to which the chain
    /// resolves the owner's address.
    pub fn parse_nft_burn<'a>(
        owner: Address<'a>,
        collection: CollectionId,
        item: ItemId,
        account: Option<AccountId>,
    ) -> (r: Result<Attempted<'a>, Failure>)
        ensures
            r == as_resolved(
                account,
                NftsCall::Burn { collection, item },
                Attempt::Burn { collection, item, owner },
            ),
    {
        attempt_as(
            account,
            NftsCall::Burn { collection, item },
            Attempt::Burn { collection, item, owner },
        )
    }

    /// Sets the metadata of an item for its owner on another chain; `account` is the account to
    /// which the chain resolves the owner's address.
    pub fn parse_nft_metadata<'a>(
        owner: Address<'a>,
        collection: CollectionId,
        item: ItemId,
        data: &'a [u8],
        account: Option<AccountId>,
    ) -> (r: Result<Attempted<'a>, Failure>)
        ensures
            r == as_resolved(
                account,
                NftsCall::SetMetadata { collection, item, data },
                Attempt::SetMetadata { collection, item, owner },
            ),
    {
        attempt_as(
            account,
            NftsCall::SetMetadata { collection, item, data },
            Attempt::SetMetadata { collection, item, owner },
        )
    }

    /// Gives an item to a new owner for its owner on another chain; `account` is the account to
    /// which the chain resolves the owner's address.
    pub fn parse_nft_owner<'a>(
        owner: Address<'a>,
        new_owner: Address<'a>,
        collection: CollectionId,
        item: ItemId,
        account: Option<AccountId>,
    ) -> (r: Result<Attempted<'a>, Failure>)
        ensures
            r == as_resolved(
                account,
                NftsCall::Transfer { collection, item, dest: new_owner },
                Attempt::Transfer { collection, item, owner },
            ),
    {
        attempt_as(
            account,
            NftsCall::Transfer { collection, item, dest: new_owner },
            Attempt::Transfer { collection, item, owner },
        )
    }
}

} // verus!
