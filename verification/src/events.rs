//! The events that reach the node's core, and what the core asks for in
//! return.

use crate::model::NodeId;
use bitcoin::{BlockHash, BlockHeader, Script, Transaction};
use vstd::prelude::*;

verus! {

/// `bitcoin::BlockHash`, carried through and never looked into.
#[verifier::external_type_specification]
#[verifier::external_body]
pub struct ExBlockHash(BlockHash);

/// `bitcoin::BlockHeader`, carried through and never looked into.
#[verifier::external_type_specification]
#[verifier::external_body]
pub struct ExBlockHeader(BlockHeader);

/// `bitcoin::Script`, carried through and never looked into.
#[verifier::external_type_specification]
#[verifier::external_body]
pub struct ExScript(Script);

/// `bitcoin::Transaction`, carried through and never looked into.
#[verifier::external_type_specification]
#[verifier::external_body]
pub struct ExTransaction(Transaction);

/// A fact that the chain follower reports.
#[derive(Debug, PartialEq, Eq)]
pub enum OnChainEvent {
    /// The chain has a new tip.
    NewBestBlock { hash: BlockHash, height: u32 },
    /// A transaction was confirmed at `index` of the block with `header`.
    ConfirmedTransaction { tx: Transaction, index: u32, header: BlockHeader, height: u32 },
    /// A transaction left the chain again.
    UnconfirmedTransaction { txid: [u8; 32] },
    /// A transaction was given up.
    DiscardedTransaction { txid: [u8; 32] },
    /// A transaction is to be broadcast.
    SendRawTransaction { tx: Transaction },
}

/// What travels on the stream that the chain synchronisation reads. Only
/// the on-chain kind concerns it; the payloads of the others are not looked
/// into.
#[derive(Debug, PartialEq, Eq)]
pub enum Event<L, I> {
    Lightning(L),
    OnChain(OnChainEvent),
    Inventory(I),
}

/// A request that an outside caller makes by method name. The parameters
/// and the answer are JSON text.
#[derive(Debug, Clone, PartialEq, Eq)]
pub struct Request {
    pub method: String,
    pub params: String,
}

/// The node-wide envelope. `P` and `I` are the payloads for the peer and the
/// inventory manager, `C` is the channel on which an outside caller waits for
/// its answer.
#[derive(Debug, PartialEq, Eq)]
pub enum LampoEvent<P, I, C> {
    LNEvent,
    OnChainEvent,
    PeerEvent(P),
    InventoryEvent(I),
    ExternalEvent(Request, C),
}

/// What the caller does for an envelope that was routed.
#[derive(Debug, PartialEq, Eq)]
pub enum Reaction<P, I, C> {
    /// Hand the payload to the peer manager and wait until it is done.
    ToPeerManager(P),
    /// Hand the payload to the inventory manager; its error is the result.
    ToInventoryManager(I),
    /// Send the response on the channel of the request.
    Reply { channel: C, response: String },
}

/// A transaction output.
#[derive(Debug, Clone, Copy, PartialEq, Eq)]
pub struct OutPoint {
    pub txid: [u8; 32],
    pub vout: u32,
}

/// The callbacks of the channel engine that the node acts on. `channel_type`
/// holds the features of the channel as they are encoded on the wire.
#[derive(Debug, PartialEq, Eq)]
pub enum ProtocolEvent {
    OpenChannelRequest {
        temporary_channel_id: [u8; 32],
        counterparty_node_id: NodeId,
        funding_satoshis: u64,
        push_msat: u64,
        channel_type: Vec<u8>,
    },
    ChannelReady {
        channel_id: [u8; 32],
        user_channel_id: u128,
        counterparty_node_id: NodeId,
        channel_type: Vec<u8>,
    },
    ChannelClosed { channel_id: [u8; 32], user_channel_id: u128, reason: String },
    FundingGenerationReady {
        temporary_channel_id: [u8; 32],
        counterparty_node_id: NodeId,
        channel_value_satoshis: u64,
        output_script: Script,
        user_channel_id: u128,
    },
    ChannelPending {
        channel_id: [u8; 32],
        user_channel_id: u128,
        counterparty_node_id: NodeId,
        funding_txo: OutPoint,
    },
}

/// The states of a channel that the node keeps track of.
#[derive(Debug, Clone, Copy, PartialEq, Eq)]
pub enum ChannelState {
    Opening,
    Ready,
}

/// A change of state of one channel, for the channel manager to apply.
#[derive(Debug, Clone, PartialEq, Eq)]
pub struct ChangeStateChannelEvent {
    pub channel_id: [u8; 32],
    pub node_id: NodeId,
    pub channel_type: Vec<u8>,
    pub state: ChannelState,
}

} // verus!
