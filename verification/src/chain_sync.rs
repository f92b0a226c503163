//! The chain synchronisation: every fact of the chain reaches the chain
//! monitor first and the channel engine second, with the same arguments.

use crate::channel_manager::LampoChannelManager;
use crate::events::{Event, OnChainEvent};
use bitcoin::{BlockHash, BlockHeader, Transaction};
use vstd::prelude::*;

verus! {

/// Who is told of a fact of the chain.
#[derive(Debug, Clone, Copy, PartialEq, Eq)]
pub enum Target {
    ChainMonitor,
    ChannelManager,
}

/// A fact of the chain as its two listeners take it.
#[derive(Debug, PartialEq, Eq)]
pub enum ChainFact<'a> {
    /// The best block changed.
    BestBlockUpdated { hash: &'a BlockHash, height: u32 },
    /// One transaction was confirmed, at `index` of the block with `header`.
    TransactionConfirmed {
        header: &'a BlockHeader,
        index: usize,
        tx: &'a Transaction,
        height: u32,
    },
}

/// One call that the caller makes: the fact, told to the target.
#[derive(Debug, PartialEq, Eq)]
pub struct ChainCall<'a> {
    pub target: Target,
    pub fact: ChainFact<'a>,
}

/// The fact that an item of the stream brings, if it brings one. A new best
/// block and a confirmed transaction do; every other event, and a receive
/// that failed, does not.
pub open spec fn chain_fact<'a, L, I, E>(received: &'a Result<Event<L, I>, E>) -> Option<
    ChainFact<'a>,
> {
    match received {
        Ok(Event::OnChain(OnChainEvent::NewBestBlock { hash, height })) => Some(
            ChainFact::BestBlockUpdated { hash, height: *height },
        ),
        Ok(
            Event::OnChain(OnChainEvent::ConfirmedTransaction { tx, index, header, height }),
        ) => Some(
            ChainFact::TransactionConfirmed { header, index: *index as usize, tx, height: *height },
        ),
        _ => None,
    }
}

/// The calls that an item of the stream leads to: none, or the fact told to
/// the chain monitor and then to the channel engine.
pub open spec fn chain_calls<'a, L, I, E>(received: &'a Result<Event<L, I>, E>) -> Seq<
    ChainCall<'a>,
> {
    match chain_fact(received) {
        Some(fact) => seq![
            ChainCall { target: Target::ChainMonitor, fact },
            ChainCall { target: Target::ChannelManager, fact },
        ],
        None => Seq::empty(),
    }
}

/// Whether an item of the stream brings a fact of the chain.
pub fn brings_fact<L, I, E>(received: &Result<Event<L, I>, E>) -> (brings: bool)
    ensures
        brings == chain_fact(received) is Some,
{
    match received {
        Ok(Event::OnChain(OnChainEvent::NewBestBlock { .. })) => true,
        Ok(Event::OnChain(OnChainEvent::ConfirmedTransaction { .. })) => true,
        _ => false,
    }
}

impl<M, G, S, R, C, H> LampoChannelManager<M, G, S, R, C, H> {
    /// Takes one item off the stream of events and says which calls it
    /// leads to, in the order in which they are to be made. The listener
    /// needs the event handler, whose stream it reads, and for a fact of the
    /// chain the two that are told of it.
    pub fn listen<'a, L, I, E>(&self, received: &'a Result<Event<L, I>, E>) -> (calls: Vec<
        ChainCall<'a>,
    >)
        requires
            self@.handler is Some,
            chain_fact(received) is Some ==> self@.monitor is Some && self@.channeld is Some,
        ensures
            calls@ == chain_calls(received),
    {
        let mut calls: Vec<ChainCall<'a>> = Vec::new();
        match received {
            Ok(Event::OnChain(OnChainEvent::NewBestBlock { hash, height })) => {
                calls.push(
                    ChainCall {
                        target: Target::ChainMonitor,
                        fact: ChainFact::BestBlockUpdated { hash, height: *height },
                    },
                );
                calls.push(
                    ChainCall {
                        target: Target::ChannelManager,
                        fact: ChainFact::BestBlockUpdated { hash, height: *height },
                    },
                );
            },
            Ok(
                Event::OnChain(OnChainEvent::ConfirmedTransaction { tx, index, header, height }),
            ) => {
                calls.push(
                    ChainCall {
                        target: Target::ChainMonitor,
                        fact: ChainFact::TransactionConfirmed {
                            header,
                            index: *index as usize,
                            tx,
                            height: *height,
                        },
                    },
                );
                calls.push(
                    ChainCall {
                        target: Target::ChannelManager,
                        fact: ChainFact::TransactionConfirmed {
                            header,
                            index: *index as usize,
                            tx,
                            height: *height,
                        },
                    },
                );
            },
            _ => {},
        }
        assert(calls@ =~= chain_calls(received));
        calls
    }
}

/// The facts that a stream brings, in the order of arrival.
pub open spec fn chain_facts<L, I, E>(stream: Seq<Result<Event<L, I>, E>>) -> Seq<
    ChainFact<'static>,
>
    decreases stream.len(),
{
    if stream.len() == 0 {
        Seq::empty()
    } else {
        match chain_fact(&stream.last()) {
            Some(fact) => chain_facts(stream.drop_last()).push(fact),
            None => chain_facts(stream.drop_last()),
        }
    }
}

/// All calls that a stream leads to, item after item.
pub open spec fn sync_trace<L, I, E>(stream: Seq<Result<Event<L, I>, E>>) -> Seq<
    ChainCall<'static>,
>
    decreases stream.len(),
{
    if stream.len() == 0 {
        Seq::empty()
    } else {
        sync_trace(stream.drop_last()) + chain_calls(&stream.last())
    }
}

/// Whatever the stream holds, the calls it leads to are the facts it brings,
/// in the order of arrival, each told exactly twice: to the chain monitor,
/// and directly after that to the channel engine.
pub proof fn lemma_monitor_hears_first<L, I, E>(stream: Seq<Result<Event<L, I>, E>>)
    ensures
        sync_trace(stream).len() == 2 * chain_facts(stream).len(),
        forall|k: int|
            0 <= k < chain_facts(stream).len() ==> {
                &&& sync_trace(stream)[2 * k] == (ChainCall {
                    target: Target::ChainMonitor,
                    fact: #[trigger] chain_facts(stream)[k],
                })
                &&& sync_trace(stream)[2 * k + 1] == (ChainCall {
                    target: Target::ChannelManager,
                    fact: chain_facts(stream)[k],
                })
            },
    decreases stream.len(),
{
    if stream.len() > 0 {
        lemma_monitor_hears_first(stream.drop_last());
    }
}

/// What one of the two has been told, call after call.
pub open spec fn heard(trace: Seq<ChainCall<'static>>, target: Target) -> Seq<ChainFact<'static>>
    decreases trace.len(),
{
    if trace.len() == 0 {
        Seq::empty()
    } else if trace.last().target == target {
        heard(trace.drop_last(), target).push(trace.last().fact)
    } else {
        heard(trace.drop_last(), target)
    }
}

/// What was heard over two stretches of calls is what was heard over the
/// first and then over the second.
proof fn lemma_heard_in_stretches(
    first: Seq<ChainCall<'static>>,
    second: Seq<ChainCall<'static>>,
    target: Target,
)
    ensures
        heard(first + second, target) == heard(first, target) + heard(second, target),
    decreases second.len(),
{
    if second.len() == 0 {
        assert(first + second =~= first);
        assert(heard(first, target) + heard(second, target) =~= heard(first, target));
    } else {
        let all = first + second;
        assert(all.last() == second.last());
        assert(all.drop_last() =~= first + second.drop_last());
        lemma_heard_in_stretches(first, second.drop_last(), target);
        if second.last().target == target {
            assert(heard(first, target) + heard(second.drop_last(), target).push(second.last().fact)
                =~= (heard(first, target) + heard(second.drop_last(), target)).push(
                second.last().fact,
            ));
        }
    }
}

/// Whatever the stream holds, the chain monitor and the channel engine are
/// each told every fact that the stream brings, once, in the order of
/// arrival, and nothing else.
pub proof fn lemma_both_hear_every_fact_once<L, I, E>(stream: Seq<Result<Event<L, I>, E>>)
    ensures
        heard(sync_trace(stream), Target::ChainMonitor) == chain_facts(stream),
        heard(sync_trace(stream), Target::ChannelManager) == chain_facts(stream),
    decreases stream.len(),
{
    if stream.len() > 0 {
        let before = sync_trace(stream.drop_last());
        let calls = chain_calls(&stream.last());
        lemma_both_hear_every_fact_once(stream.drop_last());
        lemma_heard_in_stretches(before, calls, Target::ChainMonitor);
        lemma_heard_in_stretches(before, calls, Target::ChannelManager);
        match chain_fact(&stream.last()) {
            Some(fact) => {
                reveal_with_fuel(heard, 3);
                assert(heard(calls, Target::ChainMonitor) =~= seq![fact]);
                assert(heard(calls, Target::ChannelManager) =~= seq![fact]);
                assert(chain_facts(stream.drop_last()).push(fact) =~= chain_facts(
                    stream.drop_last(),
                ) + seq![fact]);
            },
            None => {
                assert(chain_facts(stream.drop_last()) + Seq::<ChainFact<'static>>::empty()
                    =~= chain_facts(stream.drop_last()));
            },
        }
    }
}

} // verus!
