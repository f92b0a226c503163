//! The plain values that the node's core reads and hands out.

use crate::hex::{bytes_to_hex, hex_text, parse_public_key, parsed_public_key};
use vstd::prelude::*;

verus! {

/// The chain that the node follows.
#[derive(Debug, Clone, Copy, PartialEq, Eq)]
pub enum Network {
    Bitcoin,
    Testnet,
    Signet,
    Regtest,
}

/// What the node was configured with: the chain and the root of its storage.
#[derive(Debug, Clone, PartialEq, Eq)]
pub struct LampoConf {
    pub network: Network,
    pub path: String,
}

/// A node of the network, as the compressed serialisation of its public key.
#[derive(Debug, Clone, Copy, PartialEq, Eq)]
pub struct NodeId {
    pub bytes: [u8; 33],
}

impl NodeId {
    /// The identifier in hexadecimal, as peers are named to users.
    pub fn to_hex(&self) -> (text: String)
        ensures
            text@ == hex_text(self.bytes@),
    {
        bytes_to_hex(self.bytes.as_slice())
    }

    /// Reads an identifier from hexadecimal text.
    pub fn from_hex(text: &str) -> (id: Option<NodeId>)
        ensures
            id is Some <==> parsed_public_key(text@) is Some,
            id matches Some(node) ==> parsed_public_key(text@) == Some(node.bytes@),
    {
        match parse_public_key(text) {
            Some(bytes) => Some(NodeId { bytes }),
            None => None,
        }
    }
}

/// What the channel engine reports of one channel.
#[derive(Debug, Clone, Copy, PartialEq, Eq)]
pub struct ChannelDetails {
    pub short_channel_id: Option<u64>,
    pub counterparty: NodeId,
    pub is_channel_ready: bool,
    pub channel_value_satoshis: u64,
    pub balance_msat: u64,
    pub is_public: bool,
    pub outbound_capacity_msat: u64,
    pub inbound_capacity_msat: u64,
}

/// A channel as it is shown to users: a snapshot, stored nowhere.
#[derive(Debug, Clone, PartialEq, Eq)]
pub struct Channel {
    pub short_channel_id: Option<u64>,
    pub peer_id: String,
    pub peer_alias: Option<String>,
    pub ready: bool,
    pub amount_satoshis: u64,
    pub amount_msat: u64,
    pub public: bool,
    pub available_balance_for_send_msat: u64,
    pub available_balance_for_recv_msat: u64,
}

/// Whether `channel` is what users are shown of `details`.
pub open spec fn shows(channel: Channel, details: ChannelDetails) -> bool {
    &&& channel.short_channel_id == details.short_channel_id
    &&& channel.peer_id@ == hex_text(details.counterparty.bytes@)
    &&& channel.peer_alias is None
    &&& channel.ready == details.is_channel_ready
    &&& channel.amount_satoshis == details.channel_value_satoshis
    &&& channel.amount_msat == details.balance_msat
    &&& channel.public == details.is_public
    &&& channel.available_balance_for_send_msat == details.outbound_capacity_msat
    &&& channel.available_balance_for_recv_msat == details.inbound_capacity_msat
}

impl Channel {
    /// The user's view of one channel of the engine.
    pub fn of(details: &ChannelDetails) -> (channel: Channel)
        ensures
            shows(channel, *details),
    {
        Channel {
            short_channel_id: details.short_channel_id,
            peer_id: details.counterparty.to_hex(),
            peer_alias: None,
            ready: details.is_channel_ready,
            amount_satoshis: details.channel_value_satoshis,
            amount_msat: details.balance_msat,
            public: details.is_public,
            available_balance_for_send_msat: details.outbound_capacity_msat,
            available_balance_for_recv_msat: details.inbound_capacity_msat,
        }
    }
}

/// A request to open a channel with a peer.
#[derive(Debug, Clone, PartialEq, Eq)]
pub struct OpenChannel {
    pub node_id: String,
    pub amount: u64,
    pub public: bool,
}

/// The answer to a request that opened a channel.
#[derive(Debug, Clone, PartialEq, Eq)]
pub struct OpenChannelResponse {
    pub node_id: String,
    pub amount: u64,
    pub public: bool,
    pub push_msat: u64,
    pub to_self_delay: u64,
}

/// The policy under which a channel is negotiated.
#[derive(Debug, Clone, Copy, PartialEq, Eq)]
pub struct ChannelPolicy {
    /// The longest delay the peer may impose on our own funds.
    pub their_to_self_delay: u16,
    /// Whether the channel is announced to the network.
    pub announced_channel: bool,
}

/// What the channel engine is asked to do to open a channel.
#[derive(Debug, Clone, Copy, PartialEq, Eq)]
pub struct NewChannel {
    pub counterparty: NodeId,
    pub channel_value_satoshis: u64,
    pub push_msat: u64,
    pub user_channel_id: u128,
    pub policy: ChannelPolicy,
}

} // verus!
