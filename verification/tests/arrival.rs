use sp_runtime::DispatchError;
use xcnft::arrival::{
    ArrivalStep, CollectionArrival, IncomingCollection, IncomingItems, IncomingNft, NftArrival,
};
use xcnft::message::{Caller, Dispatch, NftsCall};
use xcnft::pallet::Pallet;
use xcnft::receive::{Attempt, Attempted};
use xcnft::types::{
    AccountId, Address, AssetKey, CollectionConfigFor, Config, Error, Event, Failure, ReceivedCols,
    ReceivedStruct, SentStruct,
};

const ALICE: AccountId = AccountId { high: 0, low: 1 };
const BOB: AccountId = AccountId { high: 0, low: 2 };
const CHARLIE: AccountId = AccountId { high: 0, low: 3 };
const OWNER: Address<'static> = Address::Encoded(b"alice");
const RECEIVER: Address<'static> = Address::Encoded(b"bob");
const HERE: AssetKey = AssetKey { collection: 15, item: 16 };
const THERE: AssetKey = AssetKey { collection: 5, item: 6 };
const ERROR: DispatchError = DispatchError::Other("no");

fn pallet() -> Pallet {
    Pallet::new(Config { proposal_time_in_blocks: 100, max_owners: 255, parachain_id: 2001 })
}

fn sent_from(chain: u32) -> SentStruct {
    SentStruct {
        origin_para_id: chain,
        origin_collection_id: 15,
        origin_asset_id: 16,
        destination_collection_id: 5,
        destination_asset_id: 6,
    }
}

fn arrive<'a>(
    pallet: &mut Pallet,
    data: &'a [u8],
    collection_owner: Option<AccountId>,
    item_exists: bool,
    account: Option<AccountId>,
) -> Result<NftArrival<'a>, Failure> {
    pallet.parse_nft_transfer(
        OWNER,
        15,
        16,
        data,
        RECEIVER,
        5,
        6,
        2000,
        collection_owner,
        item_exists,
        account,
    )
}

fn incoming(data: &[u8]) -> IncomingNft<'_> {
    IncomingNft {
        owner: OWNER,
        asset: HERE,
        data,
        mint_to: RECEIVER,
        origin: THERE,
        origin_chain: 2000,
    }
}

fn received() -> Event<'static> {
    Event::NFTReceived {
        origin_collection_id: 5,
        origin_asset_id: 6,
        received_collection_id: 15,
        received_asset_id: 16,
        to_address: RECEIVER,
    }
}

fn mint(collection: u32, item: u32, mint_to: Address<'static>) -> Attempted<'static> {
    Attempted {
        dispatch: Dispatch {
            origin: Caller::Signed(ALICE),
            call: NftsCall::Mint { collection, item, mint_to },
        },
        attempt: Attempt::Mint { collection, item, owner: OWNER },
    }
}

fn set_metadata(collection: u32, item: u32, data: &[u8]) -> Attempted<'_> {
    Attempted {
        dispatch: Dispatch {
            origin: Caller::Signed(ALICE),
            call: NftsCall::SetMetadata { collection, item, data },
        },
        attempt: Attempt::SetMetadata { collection, item, owner: OWNER },
    }
}

#[test]
fn item_is_refused() {
    let mut pallet = pallet();
    assert_eq!(
        arrive(&mut pallet, b"", None, false, Some(ALICE)),
        Err(Failure::Module(Error::CollectionDoesNotExist))
    );
    assert_eq!(
        arrive(&mut pallet, b"", Some(ALICE), false, None),
        Err(Failure::CannotLookup)
    );
    assert_eq!(
        arrive(&mut pallet, b"", Some(BOB), false, Some(ALICE)),
        Err(Failure::Module(Error::NotCollectionOwner))
    );
    // The placeholder of an item that is away keeps even the item itself out.
    pallet.sent_assets.insert(HERE, sent_from(2001));
    assert_eq!(
        arrive(&mut pallet, b"", Some(ALICE), true, Some(ALICE)),
        Err(Failure::Module(Error::NFTExists))
    );
    pallet.received_assets.insert(
        HERE,
        ReceivedStruct {
            origin_para_id: 2000,
            origin_collection_id: 5,
            origin_asset_id: 6,
            received_collection_id: 15,
            received_asset_id: 16,
        },
    );
    assert_eq!(
        arrive(&mut pallet, b"", Some(ALICE), false, Some(ALICE)),
        Err(Failure::Module(Error::NFTAlreadyReceived))
    );
}

#[test]
fn item_is_minted_and_remembered() {
    let mut pallet = pallet();
    assert_eq!(
        arrive(&mut pallet, b"x", Some(ALICE), false, Some(ALICE)),
        Ok(NftArrival::New {
            mint: mint(15, 16, RECEIVER),
            set_metadata: Some(set_metadata(15, 16, b"x")),
            incoming: incoming(b"x"),
        })
    );
    assert_eq!(
        pallet.parse_nft_transfer_minted(incoming(b"x"), Ok(()), Ok(()), true),
        Ok(vec![received()])
    );
    assert_eq!(
        pallet.received_assets.get(HERE),
        Some(&ReceivedStruct {
            origin_para_id: 2000,
            origin_collection_id: 5,
            origin_asset_id: 6,
            received_collection_id: 15,
            received_asset_id: 16,
        })
    );
}

#[test]
fn item_without_metadata_gets_none() {
    let mut pallet = pallet();
    assert_eq!(
        arrive(&mut pallet, b"", Some(ALICE), false, Some(ALICE)),
        Ok(NftArrival::New {
            mint: mint(15, 16, RECEIVER),
            set_metadata: None,
            incoming: incoming(b""),
        })
    );
    assert_eq!(
        pallet.parse_nft_transfer_minted(incoming(b""), Ok(()), Err(ERROR), true),
        Ok(vec![received()])
    );
}

#[test]
fn failures_are_told_of_an_item_that_arrives_nonetheless() {
    let mut pallet = pallet();
    assert_eq!(
        pallet.parse_nft_transfer_minted(incoming(b"x"), Err(ERROR), Err(ERROR), true),
        Ok(vec![
            Event::NFTMintFailed {
                error: ERROR,
                collection_id: 15,
                asset_id: 16,
                owner: OWNER,
            },
            Event::NFTMetadataSetFailed {
                error: ERROR,
                collection_id: 15,
                asset_id: 16,
                owner: OWNER,
            },
            received(),
        ])
    );
}

#[test]
fn item_that_was_not_minted_changes_nothing() {
    let mut pallet = pallet();
    pallet.sent_assets.insert(HERE, sent_from(3000));
    assert_eq!(
        pallet.parse_nft_transfer_minted(incoming(b"x"), Err(ERROR), Err(ERROR), false),
        Err(Failure::Module(Error::NFTDoesNotExist))
    );
    assert!(!pallet.received_assets.contains_key(HERE));
    assert_eq!(pallet.sent_assets.get(HERE), Some(&sent_from(3000)));
}

#[test]
fn item_that_passed_through_is_minted_again() {
    let mut pallet = pallet();
    pallet.sent_assets.insert(HERE, sent_from(3000));
    let arrival = arrive(&mut pallet, b"", Some(ALICE), false, Some(ALICE));
    let incoming = match arrival {
        Ok(NftArrival::New { incoming, .. }) => incoming,
        other => panic!("{:?}", other),
    };
    assert!(pallet.sent_assets.contains_key(HERE));
    assert!(pallet.parse_nft_transfer_minted(incoming, Ok(()), Ok(()), true).is_ok());
    assert!(!pallet.sent_assets.contains_key(HERE));
    assert!(pallet.received_assets.contains_key(HERE));
}

#[test]
fn item_made_here_returns() {
    let mut pallet = pallet();
    pallet.sent_assets.insert(HERE, sent_from(2001));
    pallet.sent_assets.insert(THERE, sent_from(2001));
    assert_eq!(
        arrive(&mut pallet, b"", Some(ALICE), false, Some(ALICE)),
        Ok(NftArrival::Returned {
            set_metadata: set_metadata(15, 16, b""),
            incoming: incoming(b""),
        })
    );
    assert!(pallet.sent_assets.contains_key(HERE));
    // Where the receiver cannot be resolved, nothing is forgotten.
    assert_eq!(
        pallet.parse_nft_transfer_returned(incoming(b""), Err(ERROR), None),
        Err(Failure::CannotLookup)
    );
    assert!(pallet.sent_assets.contains_key(THERE));

    let returned = || Event::NFTReturnedToOrigin {
        origin_collection_id: 5,
        origin_asset_id: 6,
        returned_from_collection_id: 15,
        returned_from_asset_id: 16,
        to_address: BOB,
    };
    let failed = Event::NFTMetadataSetFailed {
        error: ERROR,
        collection_id: 15,
        asset_id: 16,
        owner: OWNER,
    };
    assert_eq!(
        pallet.parse_nft_transfer_returned(incoming(b""), Err(ERROR), Some(BOB)),
        Ok(vec![failed, returned()])
    );
    // What is forgotten is what the message names.
    assert!(!pallet.sent_assets.contains_key(THERE));
    assert!(pallet.sent_assets.contains_key(HERE));
    assert_eq!(
        pallet.parse_nft_transfer_returned(incoming(b""), Ok(()), Some(BOB)),
        Ok(vec![returned()])
    );
}

fn incoming_collection<'a>(
    nfts: &'a [(u32, &'a [u8])],
    metadata: &'a [u8],
) -> IncomingCollection<'a> {
    IncomingCollection {
        owner: OWNER,
        collection_metadata: metadata,
        nfts: IncomingItems::SameOwner(nfts),
        origin_para: 2000,
        origin_collection_id: 5,
    }
}

#[test]
fn collection_is_created_for_its_owner() {
    let config = CollectionConfigFor::default();
    let create = Dispatch {
        origin: Caller::Signed(ALICE),
        call: NftsCall::Create { admin: OWNER, config },
    };
    assert_eq!(
        Pallet::parse_collection_same_owner(OWNER, config, Some(ALICE), Some(9)),
        Ok((create, ALICE, 9))
    );
    // The first collection of a chain has the identifier zero.
    assert_eq!(
        Pallet::parse_collection_same_owner(OWNER, config, Some(ALICE), None),
        Ok((create, ALICE, 0))
    );
    assert_eq!(
        Pallet::parse_collection_same_owner(OWNER, config, None, Some(9)),
        Err(Failure::CannotLookup)
    );
}

fn created<'a>(
    owners: &[AccountId],
    next: Option<u32>,
) -> Result<(Option<Attempted<'a>>, CollectionArrival<'a>), Failure> {
    Pallet::parse_collection_created(
        incoming_collection(&[], b""),
        ALICE,
        9,
        Ok(()),
        owners,
        next,
    )
}

#[test]
fn created_collection_is_found() {
    // Owners from collection 9 on, the next identifier, and the collection that is taken.
    let cases = [
        (vec![ALICE], Some(10), 9),
        (vec![BOB, ALICE, ALICE], Some(12), 10),
        (vec![BOB, CHARLIE, ALICE], Some(12), 11),
        (vec![BOB, CHARLIE], Some(11), 9),
        (vec![BOB, ALICE], Some(10), 9),
        (vec![BOB], Some(9), 9),
    ];
    for (owners, next, collection) in cases {
        let (set_metadata, arrival) = created(&owners, next).unwrap();
        assert_eq!(set_metadata, None);
        assert_eq!(arrival.collection, collection);
        assert_eq!(arrival.minted, 0);
        assert_eq!(arrival.who, ALICE);
    }
}

#[test]
fn created_collection_is_not_looked_for_without_an_end() {
    assert_eq!(
        created(&[BOB, ALICE], None),
        Err(Failure::Module(Error::NoNextCollectionId))
    );
    assert_eq!(created(&[ALICE], None).unwrap().1.collection, 9);
}

#[test]
fn collection_that_was_not_created_is_refused() {
    let r = Pallet::parse_collection_created(
        incoming_collection(&[], b""),
        ALICE,
        9,
        Err(ERROR),
        &[],
        None,
    );
    assert_eq!(r, Err(Failure::Nfts(ERROR)));
}

#[test]
fn collection_arrives_with_its_items() {
    let nfts = [(1, &b"one"[..]), (4, &b""[..])];
    let incoming = incoming_collection(&nfts, b"meta");
    let mut pallet = pallet();
    let (metadata, arrival) = Pallet::parse_collection_created(
        incoming,
        ALICE,
        9,
        Ok(()),
        &[ALICE],
        Some(10),
    )
    .unwrap();
    assert_eq!(
        metadata,
        Some(Attempted {
            dispatch: Dispatch {
                origin: Caller::Signed(ALICE),
                call: NftsCall::SetCollectionMetadata { collection: 9, data: b"meta" },
            },
            attempt: Attempt::SetCollectionMetadata { collection: 9, owner: OWNER },
        })
    );

    assert_eq!(
        pallet.parse_collection_next(arrival),
        ArrivalStep::Mint {
            mint: mint(9, 1, OWNER),
            set_metadata: Some(set_metadata(9, 1, b"one")),
        }
    );
    let (reports, arrival) = arrival.item_minted(Ok(()), Err(ERROR), true).unwrap();
    assert_eq!(
        reports,
        vec![Event::NFTMetadataSetFailed {
            error: ERROR,
            collection_id: 9,
            asset_id: 1,
            owner: OWNER,
        }]
    );

    assert_eq!(
        pallet.parse_collection_next(arrival),
        ArrivalStep::Mint { mint: mint(9, 4, OWNER), set_metadata: None }
    );
    assert_eq!(pallet.received_collections.len(), 0);
    let (reports, arrival) = arrival.item_minted(Ok(()), Ok(()), true).unwrap();
    assert_eq!(reports, vec![]);

    assert_eq!(
        pallet.parse_collection_next(arrival),
        ArrivalStep::Done(Event::CollectionWithNftsReceived {
            collection_id: 9,
            items: nfts.to_vec(),
        })
    );
    assert_eq!(
        pallet.received_collections.get(9),
        Some(&ReceivedCols {
            origin_para_id: 2000,
            origin_collection_id: 5,
            received_collection_id: 9,
        })
    );
}

#[test]
fn collection_is_refused_for_an_item_that_was_not_minted() {
    let nfts = [(1, &b"one"[..])];
    let incoming = incoming_collection(&nfts, b"");
    let (_, arrival) = Pallet::parse_collection_created(
        incoming,
        ALICE,
        9,
        Ok(()),
        &[ALICE],
        Some(10),
    )
    .unwrap();
    assert_eq!(
        arrival.item_minted(Err(ERROR), Ok(()), false),
        Err(Failure::Module(Error::NFTDoesNotExist))
    );
    // A mint that failed is no reason to refuse an item that exists.
    let (reports, _) = arrival.item_minted(Err(ERROR), Ok(()), true).unwrap();
    assert_eq!(
        reports,
        vec![Event::NFTMintFailed { error: ERROR, collection_id: 9, asset_id: 1, owner: OWNER }]
    );
}

#[test]
fn collection_is_created_for_several_owners() {
    let config = CollectionConfigFor::default();
    let create = Dispatch {
        origin: Caller::Signed(ALICE),
        call: NftsCall::Create { admin: OWNER, config },
    };
    assert_eq!(
        Pallet::parse_collection_multiple_owners(OWNER, config, Some(ALICE), Some(9)),
        Ok((create, ALICE, 9))
    );
    assert_eq!(
        Pallet::parse_collection_multiple_owners(OWNER, config, Some(ALICE), None),
        Ok((create, ALICE, 0))
    );
    assert_eq!(
        Pallet::parse_collection_multiple_owners(OWNER, config, None, Some(9)),
        Err(Failure::CannotLookup)
    );
}

#[test]
fn items_of_several_owners_go_to_their_owners() {
    let nfts =
        [(1, Address::Account(BOB), &b"one"[..]), (4, Address::Account(CHARLIE), &b""[..])];
    let incoming = IncomingCollection {
        owner: OWNER,
        collection_metadata: b"",
        nfts: IncomingItems::MultipleOwners(&nfts),
        origin_para: 2000,
        origin_collection_id: 5,
    };
    let mut pallet = pallet();
    let (metadata, mut arrival) =
        Pallet::parse_collection_created(incoming, ALICE, 9, Ok(()), &[ALICE], Some(10)).unwrap();
    assert_eq!(metadata, None);
    assert_eq!(
        pallet.parse_collection_next(arrival),
        ArrivalStep::Mint {
            mint: mint(9, 1, Address::Account(BOB)),
            set_metadata: Some(set_metadata(9, 1, b"one")),
        }
    );
    arrival = arrival.item_minted(Ok(()), Ok(()), true).unwrap().1;
    assert_eq!(
        pallet.parse_collection_next(arrival),
        ArrivalStep::Mint { mint: mint(9, 4, Address::Account(CHARLIE)), set_metadata: None }
    );
    arrival = arrival.item_minted(Ok(()), Ok(()), true).unwrap().1;
    assert_eq!(
        pallet.parse_collection_next(arrival),
        ArrivalStep::Done(Event::CollectionWithNftsReceived {
            collection_id: 9,
            items: vec![(1, &b"one"[..]), (4, &b""[..])],
        })
    );
    assert_eq!(
        pallet.received_collections.get(9),
        Some(&ReceivedCols {
            origin_para_id: 2000,
            origin_collection_id: 5,
            received_collection_id: 9,
        })
    );
}
