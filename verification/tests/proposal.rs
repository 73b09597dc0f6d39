use staging_xcm::latest::SendError;
use xcnft::message::{Call, Effect, RemoteCall};
use xcnft::pallet::Pallet;
use xcnft::proposal::Initiation;
use xcnft::transfer::CollectionTransfer;
use xcnft::types::{
    AccountId, Address, CollectionConfigFor, CollectionState, Config, Error, Event, Failure,
    ItemState, Origin, ReceivedCols, Vote,
};

const ALICE: AccountId = AccountId { high: 0, low: 1 };
const BOB: AccountId = AccountId { high: 0, low: 2 };
const CHARLIE: AccountId = AccountId { high: 0, low: 3 };
const DAVE: AccountId = AccountId { high: 0, low: 4 };

fn item(id: u32, owner: AccountId) -> ItemState<'static> {
    ItemState { id, owner, metadata: None, depositor: Some(owner), deposit: Some(u128::from(id)) }
}

fn items() -> [ItemState<'static>; 3] {
    [item(1, ALICE), item(2, BOB), item(3, CHARLIE)]
}

/// A pallet with one proposal, made at block 7, on which may be voted until block 107.
fn pallet_with_proposal() -> Pallet {
    let mut pallet = Pallet::new(Config { proposal_time_in_blocks: 100, max_owners: 255, parachain_id: 2000 });
    let items = items();
    let state = CollectionState { owner: ALICE, metadata: None, items: &items };
    let r = pallet.collection_x_transfer(
        Origin::Signed(ALICE),
        5,
        2001,
        Address::Encoded(b"dave"),
        CollectionConfigFor::default(),
        Some(state),
        Some(DAVE),
        7,
    );
    assert!(matches!(r, Ok(CollectionTransfer::Proposed(_))));
    pallet
}

fn vote(pallet: &mut Pallet, who: AccountId, vote: Vote) -> Result<Event<'static>, Failure> {
    pallet.collection_x_transfer_vote(Origin::Signed(who), 0, vote, 50)
}

fn votes(pallet: &Pallet) -> (Vec<AccountId>, Vec<AccountId>) {
    let votes = &pallet.cross_chain_proposals.get(0).unwrap().number_of_votes;
    (votes.aye.to_vec(), votes.nay.to_vec())
}

fn initiate(pallet: &mut Pallet, block: u64) -> Option<Failure> {
    let items = items();
    let state = CollectionState { owner: ALICE, metadata: None, items: &items };
    pallet.collection_x_transfer_initiate(Origin::Signed(ALICE), 0, Some(state), block).err()
}

#[test]
fn owners_vote() {
    let mut pallet = pallet_with_proposal();
    assert_eq!(
        vote(&mut pallet, BOB, Vote::Aye),
        Ok(Event::CrossChainPropoposalVoteRegistered {
            proposal_id: 0,
            voter: BOB,
            vote: Vote::Aye,
        })
    );
    assert!(vote(&mut pallet, CHARLIE, Vote::Nay).is_ok());
    assert!(vote(&mut pallet, ALICE, Vote::Aye).is_ok());
    assert_eq!(votes(&pallet), (vec![BOB, ALICE], vec![CHARLIE]));
}

#[test]
fn the_last_vote_counts() {
    let mut pallet = pallet_with_proposal();
    assert!(vote(&mut pallet, BOB, Vote::Aye).is_ok());
    assert!(vote(&mut pallet, ALICE, Vote::Aye).is_ok());
    assert!(vote(&mut pallet, BOB, Vote::Nay).is_ok());
    assert_eq!(votes(&pallet), (vec![ALICE], vec![BOB]));
    assert!(vote(&mut pallet, BOB, Vote::Aye).is_ok());
    assert_eq!(votes(&pallet), (vec![ALICE, BOB], vec![]));
}

#[test]
fn nobody_votes_the_same_twice() {
    let mut pallet = pallet_with_proposal();
    for v in [Vote::Aye, Vote::Nay] {
        assert!(vote(&mut pallet, BOB, v).is_ok());
        let before = votes(&pallet);
        assert_eq!(
            vote(&mut pallet, BOB, v),
            Err(Failure::Module(Error::AlreadyVotedThis))
        );
        assert_eq!(votes(&pallet), before);
    }
}

#[test]
fn strangers_do_not_vote() {
    let mut pallet = pallet_with_proposal();
    assert_eq!(
        vote(&mut pallet, DAVE, Vote::Aye),
        Err(Failure::Module(Error::NotNFTOwner))
    );
    assert_eq!(
        pallet.collection_x_transfer_vote(Origin::Root, 0, Vote::Aye, 50),
        Err(Failure::BadOrigin)
    );
    assert_eq!(
        pallet.collection_x_transfer_vote(Origin::Signed(BOB), 1, Vote::Aye, 50),
        Err(Failure::Module(Error::ProposalDoesNotExist))
    );
    assert_eq!(votes(&pallet), (vec![], vec![]));
}

#[test]
fn voting_ends_with_the_last_block() {
    let mut pallet = pallet_with_proposal();
    assert!(pallet.collection_x_transfer_vote(Origin::Signed(BOB), 0, Vote::Aye, 107).is_ok());
    assert_eq!(
        pallet.collection_x_transfer_vote(Origin::Signed(ALICE), 0, Vote::Aye, 108),
        Err(Failure::Module(Error::ProposalExpired))
    );
}

#[test]
fn initiation_begins_with_the_last_block() {
    let mut pallet = pallet_with_proposal();
    assert!(vote(&mut pallet, BOB, Vote::Aye).is_ok());
    assert_eq!(
        initiate(&mut pallet, 106),
        Some(Failure::Module(Error::ProposalStillActive))
    );
    assert_eq!(initiate(&mut pallet, 107), None);
}

#[test]
fn proposal_without_votes_does_not_pass() {
    let mut pallet = pallet_with_proposal();
    assert_eq!(
        initiate(&mut pallet, 200),
        Some(Failure::Module(Error::ProposalDidNotPass))
    );
}

#[test]
fn at_least_half_of_the_votes_carry() {
    // Ayes, nays, and whether they carry.
    for (ayes, nays, carried) in
        [(1, 0, true), (1, 1, true), (2, 1, true), (0, 1, false), (1, 2, false), (0, 3, false)]
    {
        let mut pallet = pallet_with_proposal();
        for (n, who) in [ALICE, BOB, CHARLIE].into_iter().enumerate() {
            if n < ayes {
                assert!(vote(&mut pallet, who, Vote::Aye).is_ok());
            } else if n < ayes + nays {
                assert!(vote(&mut pallet, who, Vote::Nay).is_ok());
            }
        }
        let expected =
            if carried { None } else { Some(Failure::Module(Error::ProposalDidNotPass)) };
        assert_eq!(initiate(&mut pallet, 200), expected);
    }
}

#[test]
fn initiation_is_refused() {
    let mut pallet = pallet_with_proposal();
    assert!(vote(&mut pallet, BOB, Vote::Aye).is_ok());
    let items = items();
    let state = CollectionState { owner: ALICE, metadata: None, items: &items };
    assert_eq!(
        pallet.collection_x_transfer_initiate(Origin::Other, 0, Some(state), 200),
        Err(Failure::BadOrigin)
    );
    assert_eq!(
        pallet.collection_x_transfer_initiate(Origin::Signed(ALICE), 3, Some(state), 200),
        Err(Failure::Module(Error::ProposalDoesNotExist))
    );
    assert_eq!(
        pallet.collection_x_transfer_initiate(Origin::Signed(ALICE), 0, None, 200),
        Err(Failure::Module(Error::CollectionDoesNotExist))
    );
    assert_eq!(
        pallet.collection_x_transfer_initiate(Origin::Signed(BOB), 0, Some(state), 200),
        Err(Failure::Module(Error::NotCollectionOwner))
    );
    assert_eq!(pallet.cross_chain_proposals.len(), 1);
}

#[test]
fn carrying_out_removes_the_collection_and_its_items() {
    let mut pallet = pallet_with_proposal();
    assert!(vote(&mut pallet, BOB, Vote::Aye).is_ok());
    pallet.received_collections.insert(
        5,
        ReceivedCols { origin_para_id: 1, origin_collection_id: 2, received_collection_id: 5 },
    );
    let mut items = items();
    items[1].deposit = None;
    items[2].metadata = Some(b"three");
    let state = CollectionState { owner: ALICE, metadata: Some(b"meta"), items: &items };
    let initiation =
        pallet.collection_x_transfer_initiate(Origin::Signed(ALICE), 0, Some(state), 107);
    let (message, pending) = match initiation {
        Ok(Initiation::Send { message, pending }) => (message, pending),
        other => panic!("{:?}", other),
    };
    assert_eq!(message.parachain, 2001);
    assert_eq!(
        message.transact.call,
        RemoteCall::XcNft(Call::ParseCollectionMultipleOwners {
            owner: Address::Account(DAVE),
            config: CollectionConfigFor::default(),
            collection_metadata: b"meta",
            nfts: vec![
                (1, Address::Account(ALICE), &b""[..]),
                (2, Address::Account(BOB), &b""[..]),
                (3, Address::Account(CHARLIE), &b"three"[..]),
            ],
            origin_para: 2000,
            origin_collection_id: 5,
        })
    );
    assert_eq!(pallet.cross_chain_proposals.len(), 1);

    let (effects, event) =
        pallet.collection_x_transfer_initiate_sent(pending, Ok(()), Some(77));
    // Two items with deposits, one without, and the collection with its deposit.
    assert_eq!(effects.len(), 8 + 7 + 8 + 6);
    assert_eq!(effects[0], Effect::Unreserve { who: ALICE, amount: 1 });
    assert_eq!(effects[1], Effect::RemoveAccount { owner: ALICE, collection: 5, item: 1 });
    assert_eq!(effects[2], Effect::RemoveItem { collection: 5, item: 1 });
    assert_eq!(effects[3], Effect::RemovePendingSwap { collection: 5, item: 1 });
    assert_eq!(effects[4], Effect::RemoveItemMetadata { collection: 5, item: 1 });
    assert_eq!(effects[5], Effect::RemoveItemAttributesApprovals { collection: 5, item: 1 });
    assert_eq!(effects[6], Effect::RemoveItemPrice { collection: 5, item: 1 });
    assert_eq!(effects[7], Effect::RemoveItemConfig { collection: 5, item: 1 });
    assert_eq!(effects[8], Effect::RemoveAccount { owner: BOB, collection: 5, item: 2 });
    assert_eq!(effects[15], Effect::Unreserve { who: CHARLIE, amount: 3 });
    assert_eq!(effects[23], Effect::Unreserve { who: ALICE, amount: 77 });
    assert_eq!(effects[28], Effect::RemoveCollectionAccount { who: ALICE, collection: 5 });
    assert_eq!(
        event,
        Event::CollectionAndNFTsTransferred {
            origin_collection_id: 5,
            nft_ids: vec![1, 2, 3],
            destination_para_id: 2001,
            to_address: Address::Account(DAVE),
        }
    );
    assert_eq!(pallet.cross_chain_proposals.len(), 0);
    assert_eq!(pallet.received_collections.len(), 0);
}

#[test]
fn proposal_stays_when_the_message_does_not_go_out() {
    let mut pallet = pallet_with_proposal();
    assert!(vote(&mut pallet, BOB, Vote::Aye).is_ok());
    let items = items();
    let state = CollectionState { owner: ALICE, metadata: None, items: &items };
    let initiation =
        pallet.collection_x_transfer_initiate(Origin::Signed(ALICE), 0, Some(state), 107);
    let pending = match initiation {
        Ok(Initiation::Send { pending, .. }) => pending,
        other => panic!("{:?}", other),
    };
    let (effects, event) = pallet.collection_x_transfer_initiate_sent(
        pending,
        Err(SendError::ExceedsMaxMessageSize),
        Some(77),
    );
    assert_eq!(effects, vec![]);
    assert_eq!(
        event,
        Event::CollectionFailedToXCM {
            e: SendError::ExceedsMaxMessageSize,
            collection_id: 5,
            owner: ALICE,
            destination: 2001,
        }
    );
    assert_eq!(pallet.cross_chain_proposals.len(), 1);
}

#[test]
fn collection_that_became_empty_is_just_sent_as_such() {
    let mut pallet = pallet_with_proposal();
    assert!(vote(&mut pallet, BOB, Vote::Aye).is_ok());
    let state = CollectionState { owner: ALICE, metadata: None, items: &[] };
    let initiation =
        pallet.collection_x_transfer_initiate(Origin::Signed(ALICE), 0, Some(state), 107);
    let (message, pending) = match initiation {
        Ok(Initiation::Regular { message, pending }) => (message, pending),
        other => panic!("{:?}", other),
    };
    assert_eq!(pallet.cross_chain_proposals.len(), 0);
    assert_eq!(
        message.transact.call,
        RemoteCall::XcNft(Call::ParseCollectionEmpty {
            origin_collection: 5,
            receiving_account: Address::Account(DAVE),
            config: CollectionConfigFor::default(),
            origin_para: 2000,
        })
    );
    assert_eq!(pending.collection, 5);
    assert_eq!(pending.who, ALICE);
    assert_eq!(pending.destination_para, 2001);
    assert_eq!(pending.destination_account, Address::Account(DAVE));
}

#[test]
fn full_list_of_votes_takes_no_more() {
    let mut pallet = pallet_with_proposal();
    let mut proposal = pallet.cross_chain_proposals.remove(0).unwrap();
    for n in 0..255u128 {
        proposal.number_of_votes.aye.try_push(AccountId { high: 9, low: n }).unwrap();
    }
    proposal.number_of_votes.nay.try_push(BOB).unwrap();
    pallet.cross_chain_proposals.insert(0, proposal);
    assert_eq!(
        vote(&mut pallet, BOB, Vote::Aye),
        Err(Failure::Module(Error::MaxOwnersReached))
    );
    let (aye, nay) = votes(&pallet);
    assert_eq!(aye.len(), 255);
    assert_eq!(nay, vec![BOB]);
}
