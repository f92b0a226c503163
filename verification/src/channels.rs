//! What the channel manager does with the channels of the engine: listing
//! them, opening one, and loading their persisted monitors.

use crate::channel_manager::LampoChannelManager;
use crate::error::Error;
use crate::hex::parsed_public_key;
use crate::model::{
    Channel, ChannelDetails, ChannelPolicy, NewChannel, NodeId, OpenChannel, OpenChannelResponse,
    shows,
};
use bitcoin::BlockHash;
use vstd::prelude::*;

verus! {

/// The longest delay that a peer may impose on our funds: the maximum of a
/// common implementation, so that channels with it can be opened.
pub const TO_SELF_DELAY: u16 = 2016;

/// What is pushed to the peer when a channel is opened: nothing.
pub const PUSH_MSAT: u64 = 0;

/// A persisted channel monitor that was read, and what is done with it. Its
/// watched outputs are registered with the chain backend in any case; where
/// `watch` is set it is also handed to the chain monitor.
#[derive(Debug, PartialEq, Eq)]
pub struct MonitorLoad<T> {
    pub monitor: T,
    pub watch: bool,
}

/// Whether `order` is what the engine is asked for on `request`, for the
/// peer `node`: the requested amount, nothing pushed, no channel id of the
/// user's, the fixed delay, and announced if the request is public.
pub open spec fn orders(order: NewChannel, request: OpenChannel, node: NodeId) -> bool {
    order == (NewChannel {
        counterparty: node,
        channel_value_satoshis: request.amount,
        push_msat: PUSH_MSAT,
        user_channel_id: 0,
        policy: ChannelPolicy {
            their_to_self_delay: TO_SELF_DELAY,
            announced_channel: request.public,
        },
    })
}

/// Whether `response` is the answer to the `request` that opened a channel:
/// the request's own values, nothing pushed, and the fixed delay.
pub open spec fn answers(response: OpenChannelResponse, request: OpenChannel) -> bool {
    &&& response.node_id == request.node_id
    &&& response.amount == request.amount
    &&& response.public == request.public
    &&& response.push_msat == PUSH_MSAT
    &&& response.to_self_delay == TO_SELF_DELAY
}

/// What the engine is asked for on a request whose peer was read as `node`.
/// A peer that could not be read fails the request.
pub fn channel_order(request: &OpenChannel, node: Option<NodeId>) -> (order: Result<
    NewChannel,
    Error,
>)
    ensures
        match node {
            Some(id) => order matches Ok(new) && orders(new, *request, id),
            None => order matches Err(Error::InvalidNodeId { node_id }) && node_id@
                == request.node_id@,
        },
{
    match node {
        Some(id) => Ok(
            NewChannel {
                counterparty: id,
                channel_value_satoshis: request.amount,
                push_msat: PUSH_MSAT,
                user_channel_id: 0,
                policy: ChannelPolicy {
                    their_to_self_delay: TO_SELF_DELAY,
                    announced_channel: request.public,
                },
            },
        ),
        None => Err(Error::InvalidNodeId { node_id: request.node_id.clone() }),
    }
}

/// The answer to a request, once the engine has said whether it created the
/// channel. Where it did not, the request fails with the engine's reason.
pub fn channel_opened(request: OpenChannel, created: Result<(), String>) -> (answer: Result<
    OpenChannelResponse,
    Error,
>)
    ensures
        match created {
            Ok(_) => answer matches Ok(response) && answers(response, request),
            Err(reason) => answer == Err::<OpenChannelResponse, Error>(
                Error::ChannelOpen { node_id: request.node_id, reason },
            ),
        },
        answer matches Ok(response) ==> response.to_self_delay == 2016 && response.push_msat == 0,
{
    match created {
        Ok(_) => Ok(
            OpenChannelResponse {
                node_id: request.node_id,
                amount: request.amount,
                public: request.public,
                push_msat: PUSH_MSAT,
                to_self_delay: TO_SELF_DELAY as u64,
            },
        ),
        Err(reason) => Err(Error::ChannelOpen { node_id: request.node_id, reason }),
    }
}

/// The monitors of the records that were read, without the block hashes
/// that they were stored with.
pub open spec fn monitors_of<T>(records: Seq<(BlockHash, T)>) -> Seq<T> {
    records.map_values(|record: (BlockHash, T)| record.1)
}

/// Takes the monitors out of the records, in their order.
fn strip_hashes<T>(records: Vec<(BlockHash, T)>) -> (monitors: Vec<T>)
    ensures
        monitors@ == monitors_of(records@),
{
    let mut monitors: Vec<T> = Vec::new();
    for record in iter: records
        invariant
            monitors@.len() == iter.index(),
            forall|i: int| 0 <= i < monitors@.len() ==> monitors@[i] == iter.seq()[i].1,
    {
        monitors.push(record.1);
    }
    assert(monitors@ =~= monitors_of(records@));
    monitors
}

impl<M, G, S, R, C, H> LampoChannelManager<M, G, S, R, C, H> {
    /// The channels of the engine as users are shown them, in the order in
    /// which the engine reported them.
    pub fn list_channel(&self, details: &Vec<ChannelDetails>) -> (channels: Vec<Channel>)
        requires
            self@.channeld is Some,
        ensures
            channels@.len() == details@.len(),
            forall|i: int| 0 <= i < details@.len() ==> shows(#[trigger] channels@[i], details@[i]),
    {
        let mut channels: Vec<Channel> = Vec::new();
        let mut i: usize = 0;
        while i < details.len()
            invariant
                i <= details@.len(),
                channels@.len() == i,
                forall|j: int| 0 <= j < i ==> shows(#[trigger] channels@[j], details@[j]),
            decreases details@.len() - i,
        {
            channels.push(Channel::of(&details[i]));
            i = i + 1;
        }
        channels
    }

    /// What the engine is asked for on a request to open a channel. The
    /// peer is read from the request; a request whose peer is no node
    /// identifier fails.
    pub fn open_channel(&self, request: &OpenChannel) -> (order: Result<NewChannel, Error>)
        requires
            self@.channeld is Some,
        ensures
            match parsed_public_key(request.node_id@) {
                Some(key) => order matches Ok(new) && new.counterparty.bytes@ == key && orders(
                    new,
                    *request,
                    new.counterparty,
                ),
                None => order matches Err(Error::InvalidNodeId { node_id }) && node_id@
                    == request.node_id@,
            },
    {
        channel_order(request, NodeId::from_hex(request.node_id.as_str()))
    }

    /// The persisted channel monitors that were read, each with what is done
    /// with it: a monitor is handed to the chain monitor only if `watch` is
    /// set and there is a chain monitor. A read that failed fails the load.
    pub fn load_channel_monitors<T>(
        &self,
        watch: bool,
        read: Result<Vec<(BlockHash, T)>, String>,
    ) -> (loads: Result<Vec<MonitorLoad<T>>, Error>)
        ensures
            match read {
                Ok(records) => loads matches Ok(loaded) && loaded@ == monitors_of(
                    records@,
                ).map_values(
                    |monitor: T| MonitorLoad { monitor, watch: watch && self@.monitor is Some },
                ),
                Err(reason) => loads == Err::<Vec<MonitorLoad<T>>, Error>(
                    Error::MonitorStore { reason },
                ),
            },
    {
        match read {
            Ok(records) => {
                let watched = watch && self.readiness().monitor;
                let mut loaded: Vec<MonitorLoad<T>> = Vec::new();
                for record in iter: records
                    invariant
                        watched == (watch && self@.monitor is Some),
                        loaded@.len() == iter.index(),
                        forall|i: int|
                            0 <= i < loaded@.len() ==> loaded@[i] == (MonitorLoad {
                                monitor: iter.seq()[i].1,
                                watch: watched,
                            }),
                {
                    loaded.push(MonitorLoad { monitor: record.1, watch: watched });
                }
                assert(loaded@ =~= monitors_of(records@).map_values(
                    |monitor: T| MonitorLoad { monitor, watch: watch && self@.monitor is Some },
                ));
                Ok(loaded)
            },
            Err(reason) => Err(Error::MonitorStore { reason }),
        }
    }

    /// The persisted channel monitors that were read, without their block
    /// hashes. A read that failed fails with its reason.
    pub fn get_channel_monitors<T>(&self, read: Result<Vec<(BlockHash, T)>, String>) -> (monitors:
        Result<Vec<T>, Error>)
        ensures
            match read {
                Ok(records) => monitors matches Ok(found) && found@ == monitors_of(records@),
                Err(reason) => monitors == Err::<Vec<T>, Error>(Error::MonitorStore { reason }),
            },
    {
        match read {
            Ok(records) => Ok(strip_hashes(records)),
            Err(reason) => Err(Error::MonitorStore { reason }),
        }
    }
}

/// Wherever the engine reports the same short channel id, capacity and
/// readiness for its channels, in the same order, the two listings show the
/// same short channel id, capacity and readiness, in that order. What an
/// engine reports after it was restored from a snapshot is the engine's own
/// business.
pub proof fn lemma_listing_follows_the_engine(
    before: Seq<ChannelDetails>,
    after: Seq<ChannelDetails>,
    listed_before: Seq<Channel>,
    listed_after: Seq<Channel>,
)
    requires
        before.len() == after.len(),
        forall|i: int|
            0 <= i < before.len() ==> {
                &&& (#[trigger] before[i]).short_channel_id == after[i].short_channel_id
                &&& before[i].channel_value_satoshis == after[i].channel_value_satoshis
                &&& before[i].is_channel_ready == after[i].is_channel_ready
            },
        listed_before.len() == before.len(),
        forall|i: int| 0 <= i < before.len() ==> shows(#[trigger] listed_before[i], before[i]),
        listed_after.len() == after.len(),
        forall|i: int| 0 <= i < after.len() ==> shows(#[trigger] listed_after[i], after[i]),
    ensures
        listed_before.len() == listed_after.len(),
        forall|i: int|
            0 <= i < listed_before.len() ==> {
                &&& (#[trigger] listed_before[i]).short_channel_id
                    == listed_after[i].short_channel_id
                &&& listed_before[i].amount_satoshis == listed_after[i].amount_satoshis
                &&& listed_before[i].ready == listed_after[i].ready
            },
{
    assert forall|i: int| 0 <= i < listed_before.len() implies {
        &&& (#[trigger] listed_before[i]).short_channel_id == listed_after[i].short_channel_id
        &&& listed_before[i].amount_satoshis == listed_after[i].amount_satoshis
        &&& listed_before[i].ready == listed_after[i].ready
    } by {
        assert(shows(listed_after[i], after[i]));
        assert(before[i].short_channel_id == after[i].short_channel_id);
    }
}

} // verus!
