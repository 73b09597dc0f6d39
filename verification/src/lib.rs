//! Moving collections and items of non-fungible tokens between sibling chains.
//!
//! A pallet on each chain sends collections and single items to the others, takes what they send,
//! and asks them to change what lives there. [`pallet::Pallet`] holds what it remembers. Each of its
//! calls is a function from that and from what the chain stores ([`types::CollectionState`],
//! [`types::ItemState`]) to a message, to calls of the NFT pallet or to an event. Where the outcome
//! of a message or of a call matters, a second function takes it and ends what the first has begun.
//!
//! - [`transfer`] sends collections, [`proposal`] lets the owners of the items vote on it,
//! - [`nft`] sends single items, and claims them into a collection that followed,
//! - [`remote`] changes what lives on another chain, [`receive`] makes such changes,
//! - [`arrival`] takes items and collections,
//! - [`calls`] and [`intake`] state what each of these calls promises, [`refusals`] who may make it,
//!   [`listing`] who may vote, [`outcomes`] and [`receipts`] what comes of it,
//! - [`laws`] and [`crossing`] state what holds over many calls, and between two chains,
//! - [`sync`] and [`strategy`] switch between the ways to bring a node up to the chain it follows, and
//!   [`routing`] states what each call of the strategy promises.
//!
//! [`outside`] holds all that is taken from other crates without proof.

pub mod arrival;
pub mod calls;
pub mod crossing;
pub mod intake;
pub mod laws;
pub mod listing;
pub mod message;
pub mod nft;
pub mod outcomes;
pub mod outside;
pub mod pallet;
pub mod proposal;
pub mod receipts;
pub mod receive;
pub mod refusals;
pub mod remote;
pub mod routing;
pub mod strategy;
pub mod sync;
pub mod table;
pub mod transfer;
pub mod types;
