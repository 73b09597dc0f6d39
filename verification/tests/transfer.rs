use staging_xcm::latest::SendError;
use xcnft::message::{
    Call, Caller, Dispatch, Effect, NftsCall, OriginKind, RemoteCall, WeightLimit,
};
use xcnft::pallet::Pallet;
use xcnft::transfer::{CollectionDelivery, CollectionTransfer};
use xcnft::types::{
    AccountId, Address, CollectionConfigFor, CollectionState, Config, Error, Event, Failure,
    ItemState, Origin, ReceivedCols,
};

const ALICE: AccountId = AccountId { high: 0, low: 1 };
const BOB: AccountId = AccountId { high: 0, low: 2 };
const CHARLIE: AccountId = AccountId { high: 7, low: 3 };

fn pallet() -> Pallet {
    Pallet::new(Config { proposal_time_in_blocks: 100, max_owners: 255, parachain_id: 2000 })
}

fn settings() -> CollectionConfigFor {
    CollectionConfigFor::default()
}

fn item(id: u32, owner: AccountId, metadata: Option<&[u8]>) -> ItemState<'_> {
    ItemState { id, owner, metadata, depositor: None, deposit: None }
}

fn transfer<'a>(
    pallet: &mut Pallet,
    origin: Origin,
    collection: Option<CollectionState<'a>>,
    destination: Option<AccountId>,
    block: u64,
) -> Result<CollectionTransfer<'a>, Failure> {
    pallet.collection_x_transfer(
        origin,
        5,
        2001,
        Address::Account(BOB),
        settings(),
        collection,
        destination,
        block,
    )
}

#[test]
fn a_new_pallet_is_empty() {
    let pallet = pallet();
    assert_eq!(pallet.next_proposal_id, 0);
    assert_eq!(pallet.cross_chain_proposals.len(), 0);
    assert_eq!(pallet.sent_assets.len(), 0);
    assert_eq!(pallet.received_assets.len(), 0);
    assert_eq!(pallet.received_collections.len(), 0);
}

#[test]
fn only_signed_accounts_transfer() {
    for origin in [Origin::Root, Origin::Other] {
        let r = transfer(&mut pallet(), origin, None, None, 1);
        assert_eq!(r, Err(Failure::BadOrigin));
    }
}

#[test]
fn unknown_collection_is_not_transferred() {
    let r = transfer(&mut pallet(), Origin::Signed(ALICE), None, None, 1);
    assert_eq!(r, Err(Failure::Module(Error::CollectionDoesNotExist)));
}

#[test]
fn only_the_owner_transfers() {
    let state = CollectionState { owner: BOB, metadata: None, items: &[] };
    let r = transfer(&mut pallet(), Origin::Signed(ALICE), Some(state), Some(BOB), 1);
    assert_eq!(r, Err(Failure::Module(Error::NotCollectionOwner)));
}

#[test]
fn empty_collection_goes_to_the_sibling() {
    let state = CollectionState { owner: ALICE, metadata: None, items: &[] };
    // The address need not be resolvable here.
    let r = transfer(&mut pallet(), Origin::Signed(ALICE), Some(state), None, 1);
    let (message, pending) = match r {
        Ok(CollectionTransfer::Send { message, pending }) => (message, pending),
        other => panic!("{:?}", other),
    };
    assert_eq!(message.parents, 1);
    assert_eq!(message.parachain, 2001);
    assert_eq!(message.unpaid_execution.weight_limit, WeightLimit::Unlimited);
    assert_eq!(message.unpaid_execution.check_origin, None);
    assert_eq!(message.transact.origin_kind, OriginKind::SovereignAccount);
    assert_eq!(message.transact.require_ref_time_at_most, 1_000_000_000);
    assert_eq!(message.transact.require_proof_size_at_most, 64 * 1024);
    assert_eq!(
        message.transact.call,
        RemoteCall::XcNft(Call::ParseCollectionEmpty {
            origin_collection: 5,
            receiving_account: Address::Account(BOB),
            config: settings(),
            origin_para: 2000,
        })
    );
    assert!(pending.items.is_empty());

    let (effects, event) = Pallet::collection_x_transfer_burned(pending, Some(9));
    assert_eq!(
        effects,
        vec![
            Effect::Unreserve { who: ALICE, amount: 9 },
            Effect::RemoveCollection { collection: 5 },
            Effect::RemoveCollectionMetadata { collection: 5 },
            Effect::RemoveCollectionConfig { collection: 5 },
            Effect::RemoveCollectionRole { collection: 5, who: ALICE },
            Effect::RemoveCollectionAccount { who: ALICE, collection: 5 },
        ]
    );
    assert_eq!(
        event,
        Event::CollectionTransferred {
            origin_collection_id: 5,
            destination_para_id: 2001,
            to_address: Address::Account(BOB),
        }
    );
}

#[test]
fn collection_goes_with_the_items_of_its_owner() {
    let items = [item(1, ALICE, Some(b"one")), item(4, ALICE, None)];
    let state = CollectionState { owner: ALICE, metadata: Some(b"meta"), items: &items };
    let mut pallet = pallet();
    pallet.received_collections.insert(
        5,
        ReceivedCols { origin_para_id: 1, origin_collection_id: 2, received_collection_id: 5 },
    );
    let r = transfer(&mut pallet, Origin::Signed(ALICE), Some(state), None, 1);
    let (message, pending) = match r {
        Ok(CollectionTransfer::Send { message, pending }) => (message, pending),
        other => panic!("{:?}", other),
    };
    assert_eq!(
        message.transact.call,
        RemoteCall::XcNft(Call::ParseCollectionSameOwner {
            owner: Address::Account(BOB),
            config: settings(),
            collection_metadata: b"meta",
            nfts: vec![(1, &b"one"[..]), (4, &b""[..])],
            origin_para: 2000,
            origin_collection_id: 5,
        })
    );
    assert!(pallet.received_collections.contains_key(5));

    let (burns, pending) = match pallet.collection_x_transfer_sent(pending, Ok(())) {
        CollectionDelivery::Delivered { burns, pending } => (burns, pending),
        other => panic!("{:?}", other),
    };
    assert!(!pallet.received_collections.contains_key(5));
    let burn = |item: u32| {
        Effect::Dispatch(Dispatch {
            origin: Caller::Caller,
            call: NftsCall::Burn { collection: 5, item },
        })
    };
    assert_eq!(burns, vec![burn(1), burn(4)]);

    let (effects, event) = Pallet::collection_x_transfer_burned(pending, None);
    assert_eq!(effects.len(), 5);
    assert_eq!(effects[0], Effect::RemoveCollection { collection: 5 });
    assert_eq!(
        event,
        Event::CollectionAndNFTsTransferred {
            origin_collection_id: 5,
            nft_ids: vec![1, 4],
            destination_para_id: 2001,
            to_address: Address::Account(BOB),
        }
    );
}

#[test]
fn collection_stays_when_the_message_does_not_go_out() {
    let state = CollectionState { owner: ALICE, metadata: None, items: &[] };
    let mut pallet = pallet();
    pallet.received_collections.insert(
        5,
        ReceivedCols { origin_para_id: 1, origin_collection_id: 2, received_collection_id: 5 },
    );
    let r = transfer(&mut pallet, Origin::Signed(ALICE), Some(state), None, 1);
    let pending = match r {
        Ok(CollectionTransfer::Send { pending, .. }) => pending,
        other => panic!("{:?}", other),
    };
    let delivery = pallet.collection_x_transfer_sent(pending, Err(SendError::NotApplicable));
    assert_eq!(
        delivery,
        CollectionDelivery::Failed(Event::CollectionFailedToXCM {
            e: SendError::NotApplicable,
            collection_id: 5,
            owner: ALICE,
            destination: 2001,
        })
    );
    assert!(pallet.received_collections.contains_key(5));
}

#[test]
fn items_of_others_lead_to_a_proposal() {
    let items = [
        item(1, ALICE, None),
        item(2, BOB, None),
        item(3, CHARLIE, None),
        item(4, BOB, None),
    ];
    let state = CollectionState { owner: ALICE, metadata: None, items: &items };
    let mut pallet = pallet();
    let r = transfer(&mut pallet, Origin::Signed(ALICE), Some(state), Some(CHARLIE), 7);
    assert_eq!(
        r,
        Ok(CollectionTransfer::Proposed(Event::CollectionTransferProposalCreated {
            proposal_id: 0,
            collection_id: 5,
            proposer: ALICE,
            proposed_collection_owner: Address::Account(BOB),
            destination: 2001,
        }))
    );
    assert_eq!(pallet.next_proposal_id, 1);
    let proposal = pallet.cross_chain_proposals.get(0).unwrap();
    assert_eq!(proposal.proposal_id, 0);
    assert_eq!(proposal.collection_id, 5);
    assert_eq!(proposal.proposed_collection_owner, CHARLIE);
    assert_eq!(proposal.proposed_destination_para, 2001);
    assert_eq!(proposal.owners.to_vec(), vec![BOB, CHARLIE, ALICE]);
    assert_eq!(proposal.number_of_votes.aye.len(), 0);
    assert_eq!(proposal.number_of_votes.nay.len(), 0);
    assert_eq!(proposal.end_time, 107);

    // There is one proposal for a collection at a time.
    let r = transfer(&mut pallet, Origin::Signed(ALICE), Some(state), Some(CHARLIE), 8);
    assert_eq!(r, Err(Failure::Module(Error::ProposalAlreadyExists)));
    assert_eq!(pallet.next_proposal_id, 1);
    assert_eq!(pallet.cross_chain_proposals.len(), 1);
}

#[test]
fn unresolvable_receiver_changes_nothing() {
    let items = [item(2, BOB, None)];
    let state = CollectionState { owner: ALICE, metadata: None, items: &items };
    let mut pallet = pallet();
    let r = transfer(&mut pallet, Origin::Signed(ALICE), Some(state), None, 7);
    assert_eq!(r, Err(Failure::CannotLookup));
    assert_eq!(pallet.next_proposal_id, 0);
    assert_eq!(pallet.cross_chain_proposals.len(), 0);
}

#[test]
fn proposal_identifiers_begin_anew_at_one() {
    let items = [item(2, BOB, None)];
    let state = CollectionState { owner: ALICE, metadata: None, items: &items };
    let mut pallet = pallet();
    pallet.next_proposal_id = u64::MAX;
    let r = transfer(&mut pallet, Origin::Signed(ALICE), Some(state), Some(BOB), 7);
    assert!(matches!(r, Ok(CollectionTransfer::Proposed(_))));
    assert_eq!(pallet.next_proposal_id, 1);
    assert_eq!(pallet.cross_chain_proposals.get(u64::MAX).unwrap().proposal_id, u64::MAX);
}

#[test]
fn a_list_of_voters_has_its_bound() {
    let mut items = Vec::new();
    for n in 0..300u32 {
        items.push(item(n, AccountId { high: 1, low: u128::from(n) }, None));
    }
    let state = CollectionState { owner: ALICE, metadata: None, items: &items };
    let mut pallet = pallet();
    let r = transfer(&mut pallet, Origin::Signed(ALICE), Some(state), Some(BOB), 7);
    assert!(matches!(r, Ok(CollectionTransfer::Proposed(_))));
    let owners = &pallet.cross_chain_proposals.get(0).unwrap().owners;
    assert_eq!(owners.len(), 255);
    assert_eq!(owners[254], AccountId { high: 1, low: 254 });
    assert!(!owners.contains(&ALICE));
}

#[test]
fn the_bound_is_the_one_that_the_chain_sets() {
    let items = [item(1, BOB, None), item(2, CHARLIE, None)];
    let state = CollectionState { owner: ALICE, metadata: None, items: &items };
    for (max_owners, voters) in
        [(0, vec![]), (1, vec![BOB]), (2, vec![BOB, CHARLIE]), (3, vec![BOB, CHARLIE, ALICE])]
    {
        let mut pallet =
            Pallet::new(Config { proposal_time_in_blocks: 100, max_owners, parachain_id: 2000 });
        let r = transfer(&mut pallet, Origin::Signed(ALICE), Some(state), Some(BOB), 7);
        assert!(matches!(r, Ok(CollectionTransfer::Proposed(_))));
        assert_eq!(pallet.cross_chain_proposals.get(0).unwrap().owners.to_vec(), voters);
    }
}

#[test]
fn only_items_of_others_make_a_proposal() {
    let mut pallet = pallet();
    let theirs = [item(1, BOB, None)];
    let mine = [item(1, ALICE, None)];
    let shared = CollectionState { owner: ALICE, metadata: None, items: &theirs };
    let own = CollectionState { owner: ALICE, metadata: None, items: &mine };
    let signed = Origin::Signed(ALICE);
    assert!(pallet.makes_proposal(signed, 5, Some(shared), Some(BOB)));
    assert!(!pallet.makes_proposal(signed, 5, Some(own), Some(BOB)));
    assert!(!pallet.makes_proposal(signed, 5, Some(shared), None));
    assert!(!pallet.makes_proposal(signed, 5, None, Some(BOB)));
    assert!(!pallet.makes_proposal(Origin::Signed(BOB), 5, Some(shared), Some(BOB)));
    assert!(!pallet.makes_proposal(Origin::Root, 5, Some(shared), Some(BOB)));
    assert!(transfer(&mut pallet, signed, Some(shared), Some(BOB), 7).is_ok());
    assert!(!pallet.makes_proposal(signed, 5, Some(shared), Some(BOB)));
    assert!(pallet.makes_proposal(signed, 6, Some(shared), Some(BOB)));
}
