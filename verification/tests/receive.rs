use frame_support::dispatch::PostDispatchInfo;
use pallet_nfts::DestroyWitness;
use sp_runtime::DispatchError;
use xcnft::message::{Caller, Dispatch, NftsCall};
use xcnft::pallet::Pallet;
use xcnft::receive::Attempted;
use xcnft::types::{
    AccountId, Address, CollectionConfigFor, DestroyError, Error, Event, Failure,
};

const ALICE: AccountId = AccountId { high: 0, low: 1 };
const OWNER: Address<'static> = Address::Encoded(b"alice");
const NEW: Address<'static> = Address::Encoded(b"new");
const ERROR: DispatchError = DispatchError::Other("no");

/// Checks what is done as Alice, and what is told of it.
fn check(
    attempted: Result<Attempted<'static>, Failure>,
    call: NftsCall<'static>,
    failed: Event<'static>,
) {
    let attempted = attempted.unwrap();
    assert_eq!(attempted.dispatch, Dispatch { origin: Caller::Signed(ALICE), call });
    assert_eq!(attempted.attempt.finished(Ok(())), None);
    assert_eq!(attempted.attempt.finished(Err(ERROR)), Some(failed));
}

#[test]
fn empty_collection_is_created_for_the_receiver() {
    let config = CollectionConfigFor::default();
    assert_eq!(
        Pallet::parse_collection_empty(OWNER, config),
        Dispatch {
            origin: Caller::Caller,
            call: NftsCall::Create { admin: OWNER, config },
        }
    );
    assert_eq!(
        Pallet::parse_collection_empty_created(5, OWNER, Ok(())),
        Event::CollectionReceived {
            origin_collection_id: 5,
            received_collection_id: 5,
            to_address: OWNER,
        }
    );
    assert_eq!(
        Pallet::parse_collection_empty_created(5, OWNER, Err(ERROR)),
        Event::CollectionCreationFailed { error: ERROR, owner: OWNER }
    );
}

#[test]
fn collection_is_burned_for_its_owner() {
    let witness = DestroyWitness { item_metadatas: 0, item_configs: 1, attributes: 2 };
    assert_eq!(
        Pallet::parse_collection_burn(5, witness, Some(ALICE)),
        Ok(Dispatch {
            origin: Caller::Signed(ALICE),
            call: NftsCall::Destroy { collection: 5, witness },
        })
    );
    assert_eq!(Pallet::parse_collection_burned(OWNER, 5, Ok(())), None);
    let error = DestroyError { post_info: PostDispatchInfo::default(), error: ERROR };
    assert_eq!(
        Pallet::parse_collection_burned(OWNER, 5, Err(error)),
        Some(Event::CollectionBurnFailed { error, collection_id: 5, owner: OWNER })
    );
}

#[test]
fn collection_metadata_is_set_for_its_owner() {
    check(
        Pallet::parse_collection_metadata(OWNER, 5, b"data", Some(ALICE)),
        NftsCall::SetCollectionMetadata { collection: 5, data: b"data" },
        Event::CollectionMetadataSetFailed { error: ERROR, collection_id: 5, owner: OWNER },
    );
}

#[test]
fn collection_is_given_away_for_its_owner() {
    check(
        Pallet::parse_collection_owner(OWNER, NEW, 5, Some(ALICE)),
        NftsCall::TransferOwnership { collection: 5, new_owner: NEW },
        Event::CollectionOwnershipTransferFailed { error: ERROR, collection_id: 5, owner: OWNER },
    );
}

#[test]
fn item_is_burned_for_its_owner() {
    check(
        Pallet::parse_nft_burn(OWNER, 5, 6, Some(ALICE)),
        NftsCall::Burn { collection: 5, item: 6 },
        Event::NFTBurnFailed { error: ERROR, collection_id: 5, asset_id: 6, owner: OWNER },
    );
}

#[test]
fn item_metadata_is_set_for_its_owner() {
    check(
        Pallet::parse_nft_metadata(OWNER, 5, 6, b"data", Some(ALICE)),
        NftsCall::SetMetadata { collection: 5, item: 6, data: b"data" },
        Event::NFTMetadataSetFailed { error: ERROR, collection_id: 5, asset_id: 6, owner: OWNER },
    );
}

#[test]
fn item_is_given_away_for_its_owner() {
    check(
        Pallet::parse_nft_owner(OWNER, NEW, 5, 6, Some(ALICE)),
        NftsCall::Transfer { collection: 5, item: 6, dest: NEW },
        Event::NFTOwnershipTransferFailed {
            error: ERROR,
            collection_id: 5,
            asset_id: 6,
            owner: OWNER,
        },
    );
}

#[test]
fn unresolvable_owner_changes_nothing() {
    let failure = Failure::Module(Error::AccountLookupFailed);
    let witness = DestroyWitness { item_metadatas: 0, item_configs: 1, attributes: 2 };
    assert_eq!(Pallet::parse_collection_burn(5, witness, None), Err(failure));
    assert_eq!(Pallet::parse_collection_metadata(OWNER, 5, b"", None), Err(failure));
    assert_eq!(Pallet::parse_collection_owner(OWNER, NEW, 5, None), Err(failure));
    assert_eq!(Pallet::parse_nft_burn(OWNER, 5, 6, None), Err(failure));
    assert_eq!(Pallet::parse_nft_metadata(OWNER, 5, 6, b"", None), Err(failure));
    assert_eq!(Pallet::parse_nft_owner(OWNER, NEW, 5, 6, None), Err(failure));
}
