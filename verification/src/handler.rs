//! The event handler: the one entry for every event of the node, and the
//! owner of the chain of external handlers.

use crate::error::Error;
use crate::events::{
    ChangeStateChannelEvent, ChannelState, LampoEvent, ProtocolEvent, Reaction, Request,
};
use crate::funding::{FundingFlow, FundingOrder, FUNDING_CONFIRMATION_TARGET};
use std::sync::Arc;
use vstd::pervasive::unreached;
use vstd::prelude::*;

verus! {

/// A pluggable answerer of outside requests. For a request it has no opinion
/// (`Ok(None)`: the next handler is tried), an answer (`Ok(Some(..))`: the
/// request is done) or fails (`Err(..)`: the request fails with that error).
pub trait ExternalHandler {
    /// The answers that this handler can give to the request. A handler that
    /// says nothing of itself can give any.
    open spec fn may_answer(
        &self,
        request: &Request,
        answer: Result<Option<String>, Error>,
    ) -> bool {
        true
    }

    fn handle(&self, request: &Request) -> (answer: Result<Option<String>, Error>)
        ensures
            self.may_answer(request, answer),
    ;
}

/// A shared handler answers as the handler that it shares.
impl<T: ExternalHandler + ?Sized> ExternalHandler for Arc<T> {
    open spec fn may_answer(
        &self,
        request: &Request,
        answer: Result<Option<String>, Error>,
    ) -> bool {
        (**self).may_answer(request, answer)
    }

    fn handle(&self, request: &Request) -> (answer: Result<Option<String>, Error>) {
        (**self).handle(request)
    }
}

/// Whether each of the first `upto` handlers can have had no opinion.
pub open spec fn all_declined<H: ExternalHandler>(
    chain: Seq<H>,
    request: Request,
    upto: int,
) -> bool {
    forall|i: int| 0 <= i < upto ==> #[trigger] chain[i].may_answer(&request, Ok(None))
}

/// Whether a handler can only ever have no opinion on the request.
pub open spec fn never_claims<H: ExternalHandler>(handler: H, request: Request) -> bool {
    forall|answer: Result<Option<String>, Error>|
        #[trigger] handler.may_answer(&request, answer) ==> answer == Ok::<
            Option<String>,
            Error,
        >(None)
}

/// Whether a handler can only ever give this one response to the request.
pub open spec fn always_answers<H: ExternalHandler>(
    handler: H,
    request: Request,
    response: String,
) -> bool {
    forall|answer: Result<Option<String>, Error>|
        #[trigger] handler.may_answer(&request, answer) ==> answer == Ok::<
            Option<String>,
            Error,
        >(Some(response))
}

/// Whether the walk can have ended at the last of the first `consulted`
/// handlers: all before it had no opinion, and it gave the response or
/// failed with the error.
pub open spec fn decided<H: ExternalHandler>(
    chain: Seq<H>,
    request: Request,
    outcome: Result<String, Error>,
    consulted: int,
) -> bool {
    &&& 1 <= consulted <= chain.len()
    &&& all_declined(chain, request, consulted - 1)
    &&& match outcome {
        Ok(response) => chain[consulted - 1].may_answer(&request, Ok(Some(response))),
        Err(error) => chain[consulted - 1].may_answer(&request, Err(error)),
    }
}

/// Whether the walk can have run off the end of the chain: every handler
/// was consulted, none had an opinion, and the method is reported as not
/// found.
pub open spec fn unclaimed<H: ExternalHandler>(
    chain: Seq<H>,
    request: Request,
    outcome: Result<String, Error>,
    consulted: int,
) -> bool {
    &&& consulted == chain.len()
    &&& all_declined(chain, request, consulted)
    &&& outcome matches Err(Error::MethodNotFound { method })
    &&& method@ == request.method@
}

/// What a walk along the chain can end in, having consulted the first
/// `consulted` handlers and no other.
pub open spec fn dispatched<H: ExternalHandler>(
    chain: Seq<H>,
    request: Request,
    outcome: Result<String, Error>,
    consulted: int,
) -> bool {
    decided(chain, request, outcome, consulted) || unclaimed(chain, request, outcome, consulted)
}

/// Whether `result` is a right answer to the envelope: a peer or inventory
/// payload goes on to its manager untouched, and an outside request is
/// walked along the chain, its response bound for the channel it came with.
pub open spec fn reacted<H: ExternalHandler, P, I, C>(
    chain: Seq<H>,
    event: LampoEvent<P, I, C>,
    result: Result<Reaction<P, I, C>, Error>,
) -> bool {
    match event {
        LampoEvent::PeerEvent(payload) => result == Ok::<Reaction<P, I, C>, Error>(
            Reaction::ToPeerManager(payload),
        ),
        LampoEvent::InventoryEvent(payload) => result == Ok::<Reaction<P, I, C>, Error>(
            Reaction::ToInventoryManager(payload),
        ),
        LampoEvent::ExternalEvent(request, channel) => match result {
            Ok(Reaction::Reply { channel: replied_on, response }) => {
                &&& replied_on == channel
                &&& exists|consulted: int| #[trigger]
                    dispatched(chain, request, Ok(response), consulted)
            },
            Ok(_) => false,
            Err(error) => exists|consulted: int| #[trigger]
                dispatched(chain, request, Err(error), consulted),
        },
        LampoEvent::LNEvent => true,
        LampoEvent::OnChainEvent => true,
    }
}

/// What the node does on a callback of the channel engine.
#[derive(Debug, PartialEq, Eq)]
pub enum ProtocolAction {
    /// Apply the change of state to the channel manager.
    ChangeState(ChangeStateChannelEvent),
    /// Fund the channel: the flow, and its first order.
    Fund { flow: FundingFlow, order: FundingOrder },
    /// The callback is taken note of and changes nothing.
    Nothing,
}

/// Whether `action` is what a callback calls for. A channel that is ready
/// has its state changed to ready; a request for funding begins the funding
/// flow; a channel that closed or is pending changes nothing here.
pub open spec fn handled(event: ProtocolEvent, action: ProtocolAction) -> bool {
    match event {
        ProtocolEvent::ChannelReady { channel_id, counterparty_node_id, channel_type, .. } => action
            == ProtocolAction::ChangeState(
            ChangeStateChannelEvent {
                channel_id,
                node_id: counterparty_node_id,
                channel_type,
                state: ChannelState::Ready,
            },
        ),
        ProtocolEvent::ChannelClosed { .. } => action == ProtocolAction::Nothing,
        ProtocolEvent::ChannelPending { .. } => action == ProtocolAction::Nothing,
        ProtocolEvent::FundingGenerationReady {
            temporary_channel_id,
            counterparty_node_id,
            channel_value_satoshis,
            output_script,
            ..
        } => action == (ProtocolAction::Fund {
            flow: FundingFlow::AwaitingFee {
                temporary_channel_id,
                counterparty_node_id,
                channel_value_satoshis,
                output_script,
            },
            order: FundingOrder::EstimateFee { confirmation_target: FUNDING_CONFIRMATION_TARGET },
        }),
        ProtocolEvent::OpenChannelRequest { .. } => true,
    }
}

/// The event handler of the node. It holds the external handlers in the
/// order in which they were registered; none is ever removed.
pub struct LampoHandler<H: ExternalHandler> {
    external_handlers: Vec<H>,
}

impl<H: ExternalHandler> View for LampoHandler<H> {
    type V = Seq<H>;

    /// The chain of external handlers, first registered first.
    closed spec fn view(&self) -> Seq<H> {
        self.external_handlers@
    }
}

impl<H: ExternalHandler> LampoHandler<H> {
    /// A handler with an empty chain.
    pub fn new() -> (handler: Self)
        ensures
            handler@ == Seq::<H>::empty(),
    {
        LampoHandler { external_handlers: Vec::new() }
    }

    /// Registers a handler behind those that are registered already.
    pub fn add_external_handler(&mut self, handler: H) -> (done: Result<(), Error>)
        ensures
            done is Ok,
            final(self)@ == old(self)@.push(handler),
    {
        self.external_handlers.push(handler);
        Ok(())
    }

    /// How many handlers are registered.
    pub fn external_handlers_len(&self) -> (len: usize)
        ensures
            len == self@.len(),
    {
        self.external_handlers.len()
    }

    /// Walks the request along the chain in registration order, up to the
    /// first handler that answers or fails. Says how it ended and how many
    /// handlers were consulted.
    pub fn dispatch(&self, request: &Request) -> (walk: (Result<String, Error>, usize))
        ensures
            dispatched(self@, *request, walk.0, walk.1 as int),
    {
        let mut i: usize = 0;
        while i < self.external_handlers.len()
            invariant
                i <= self.external_handlers.len(),
                all_declined(self.external_handlers@, *request, i as int),
            decreases self.external_handlers.len() - i,
        {
            let answer = self.external_handlers[i].handle(request);
            match answer {
                Ok(Some(response)) => {
                    return (Ok(response), i + 1);
                },
                Ok(None) => {},
                Err(error) => {
                    return (Err(error), i + 1);
                },
            }
            i = i + 1;
        }
        (Err(Error::MethodNotFound { method: request.method.clone() }), i)
    }

    /// Routes an envelope to its owner. The two kinds that are reserved for
    /// later are not taken.
    pub fn react<P, I, C>(&self, event: LampoEvent<P, I, C>) -> (result: Result<
        Reaction<P, I, C>,
        Error,
    >)
        requires
            !(event is LNEvent),
            !(event is OnChainEvent),
        ensures
            reacted(self@, event, result),
    {
        match event {
            LampoEvent::PeerEvent(payload) => Ok(Reaction::ToPeerManager(payload)),
            LampoEvent::InventoryEvent(payload) => Ok(Reaction::ToInventoryManager(payload)),
            LampoEvent::ExternalEvent(request, channel) => {
                let walk = self.dispatch(&request);
                let ghost consulted = walk.1 as int;
                match walk.0 {
                    Ok(response) => {
                        let result = Ok(Reaction::Reply { channel, response });
                        assert(dispatched(self@, request, Ok(response), consulted));
                        assert(result matches Ok(Reaction::Reply { channel: c, response: r }) && c
                            == channel && r == response);
                        result
                    },
                    Err(error) => {
                        let result = Err(error);
                        assert(dispatched(self@, request, Err(error), consulted));
                        result
                    },
                }
            },
            LampoEvent::LNEvent => unreached(),
            LampoEvent::OnChainEvent => unreached(),
        }
    }

    /// Decides what a callback of the channel engine calls for. What is done
    /// on a request of a peer to open a channel is not decided yet: such a
    /// callback is not taken.
    pub fn handle(&self, event: ProtocolEvent) -> (action: ProtocolAction)
        requires
            !(event is OpenChannelRequest),
        ensures
            handled(event, action),
    {
        match event {
            ProtocolEvent::ChannelReady { channel_id, counterparty_node_id, channel_type, .. } => {
                ProtocolAction::ChangeState(
                    ChangeStateChannelEvent {
                        channel_id,
                        node_id: counterparty_node_id,
                        channel_type,
                        state: ChannelState::Ready,
                    },
                )
            },
            ProtocolEvent::FundingGenerationReady {
                temporary_channel_id,
                counterparty_node_id,
                channel_value_satoshis,
                output_script,
                ..
            } => {
                let started = FundingFlow::begin(
                    temporary_channel_id,
                    counterparty_node_id,
                    channel_value_satoshis,
                    output_script,
                );
                ProtocolAction::Fund { flow: started.0, order: started.1 }
            },
            ProtocolEvent::ChannelClosed { .. } => ProtocolAction::Nothing,
            ProtocolEvent::ChannelPending { .. } => ProtocolAction::Nothing,
            ProtocolEvent::OpenChannelRequest { .. } => unreached(),
        }
    }
}

/// Where every handler before the one at `winner` never claims the request
/// and that one always gives the same response, the walk ends in that
/// response, and no handler behind the winner is consulted.
pub proof fn lemma_first_claim_wins<H: ExternalHandler>(
    chain: Seq<H>,
    request: Request,
    winner: int,
    response: String,
    outcome: Result<String, Error>,
    consulted: int,
)
    requires
        0 <= winner < chain.len(),
        forall|i: int| 0 <= i < winner ==> never_claims(#[trigger] chain[i], request),
        always_answers(chain[winner], request, response),
        dispatched(chain, request, outcome, consulted),
    ensures
        outcome == Ok::<String, Error>(response),
        consulted == winner + 1,
{
    if decided(chain, request, outcome, consulted) {
        let last = consulted - 1;
        if last > winner {
            assert(chain[winner].may_answer(&request, Ok(None)));
        } else if last < winner {
            assert(never_claims(chain[last], request));
        }
    } else {
        assert(unclaimed(chain, request, outcome, consulted));
        assert(chain[winner].may_answer(&request, Ok(None)));
    }
}

/// Where no handler of the chain ever claims the request, the walk consults
/// every handler and fails with the method reported as not found.
pub proof fn lemma_unclaimed_is_not_found<H: ExternalHandler>(
    chain: Seq<H>,
    request: Request,
    outcome: Result<String, Error>,
    consulted: int,
)
    requires
        forall|i: int| 0 <= i < chain.len() ==> never_claims(#[trigger] chain[i], request),
        dispatched(chain, request, outcome, consulted),
    ensures
        outcome matches Err(Error::MethodNotFound { method }) && method@ == request.method@,
        consulted == chain.len(),
{
    if decided(chain, request, outcome, consulted) {
        assert(never_claims(chain[consulted - 1], request));
    }
}

} // verus!
