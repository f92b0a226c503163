//! The funding of a channel that the node opens, as a sequence of orders.
//!
//! The channel engine asks for a funding transaction. The node has a fee
//! estimated, has the wallet build the transaction, and hands the
//! transaction back to the engine. Each of the three is somebody else's
//! work: the flow says what is asked next and ends at the first failure.

use crate::error::Error;
use crate::model::NodeId;
use bitcoin::{Script, Transaction};
use vstd::prelude::*;

verus! {

/// Within how many blocks the funding transaction is meant to confirm.
pub const FUNDING_CONFIRMATION_TARGET: u32 = 6;

/// Where the funding of one channel stands.
#[derive(Debug, PartialEq, Eq)]
pub enum FundingFlow {
    /// A fee estimate was asked for.
    AwaitingFee {
        temporary_channel_id: [u8; 32],
        counterparty_node_id: NodeId,
        channel_value_satoshis: u64,
        output_script: Script,
    },
    /// The wallet was asked for the transaction.
    AwaitingTransaction { temporary_channel_id: [u8; 32], counterparty_node_id: NodeId },
    /// The engine was handed the transaction.
    AwaitingCompletion { temporary_channel_id: [u8; 32] },
    /// Nothing is outstanding: the channel is funded, or the attempt failed.
    Finished,
}

/// What came of the order that was outstanding; a failure carries its reason.
#[derive(Debug, PartialEq, Eq)]
pub enum FundingReport {
    Fee(Result<u32, String>),
    Transaction(Result<Transaction, String>),
    Completion(Result<(), String>),
}

/// What the caller is to do next.
#[derive(Debug, PartialEq, Eq)]
pub enum FundingOrder {
    /// Ask the chain backend for a fee rate.
    EstimateFee { confirmation_target: u32 },
    /// Ask the wallet for a signed transaction that pays `amount` to the script.
    CreateTransaction { output_script: Script, amount: u64, fee_rate: u32 },
    /// Hand the transaction to the channel engine.
    CompleteFunding {
        temporary_channel_id: [u8; 32],
        counterparty_node_id: NodeId,
        transaction: Transaction,
    },
    /// The channel is funded.
    Done,
}

/// The flow after a report, and the next order or the failure of the attempt.
/// A report that answers no outstanding order changes nothing.
pub open spec fn funding_step(flow: FundingFlow, report: FundingReport) -> (
    FundingFlow,
    Result<FundingOrder, Error>,
) {
    match (flow, report) {
        (
            FundingFlow::AwaitingFee {
                temporary_channel_id,
                counterparty_node_id,
                channel_value_satoshis,
                output_script,
            },
            FundingReport::Fee(Ok(fee_rate)),
        ) => (
            FundingFlow::AwaitingTransaction { temporary_channel_id, counterparty_node_id },
            Ok(
                FundingOrder::CreateTransaction {
                    output_script,
                    amount: channel_value_satoshis,
                    fee_rate,
                },
            ),
        ),
        (
            FundingFlow::AwaitingFee { temporary_channel_id, .. },
            FundingReport::Fee(Err(reason)),
        ) => (
            FundingFlow::Finished,
            Err(Error::FeeEstimation { channel_id: temporary_channel_id, reason }),
        ),
        (
            FundingFlow::AwaitingTransaction { temporary_channel_id, counterparty_node_id },
            FundingReport::Transaction(Ok(transaction)),
        ) => (
            FundingFlow::AwaitingCompletion { temporary_channel_id },
            Ok(
                FundingOrder::CompleteFunding {
                    temporary_channel_id,
                    counterparty_node_id,
                    transaction,
                },
            ),
        ),
        (
            FundingFlow::AwaitingTransaction { temporary_channel_id, .. },
            FundingReport::Transaction(Err(reason)),
        ) => (
            FundingFlow::Finished,
            Err(Error::FundingTransaction { channel_id: temporary_channel_id, reason }),
        ),
        (FundingFlow::AwaitingCompletion { .. }, FundingReport::Completion(Ok(_))) => (
            FundingFlow::Finished,
            Ok(FundingOrder::Done),
        ),
        (
            FundingFlow::AwaitingCompletion { temporary_channel_id },
            FundingReport::Completion(Err(reason)),
        ) => (
            FundingFlow::Finished,
            Err(Error::FundingCompletion { channel_id: temporary_channel_id, reason }),
        ),
        (flow, _) => (flow, Err(Error::OutOfTurn)),
    }
}

impl FundingFlow {
    /// Begins the funding of a channel: the first order is a fee estimate
    /// for the fixed confirmation target.
    pub fn begin(
        temporary_channel_id: [u8; 32],
        counterparty_node_id: NodeId,
        channel_value_satoshis: u64,
        output_script: Script,
    ) -> (started: (FundingFlow, FundingOrder))
        ensures
            started.0 == (FundingFlow::AwaitingFee {
                temporary_channel_id,
                counterparty_node_id,
                channel_value_satoshis,
                output_script,
            }),
            started.1 == (FundingOrder::EstimateFee {
                confirmation_target: FUNDING_CONFIRMATION_TARGET,
            }),
    {
        (
            FundingFlow::AwaitingFee {
                temporary_channel_id,
                counterparty_node_id,
                channel_value_satoshis,
                output_script,
            },
            FundingOrder::EstimateFee { confirmation_target: FUNDING_CONFIRMATION_TARGET },
        )
    }

    /// Takes the report of the outstanding order and says what comes next.
    pub fn resume(self, report: FundingReport) -> (next: (FundingFlow, Result<FundingOrder, Error>))
        ensures
            next == funding_step(self, report),
    {
        match self {
            FundingFlow::AwaitingFee {
                temporary_channel_id,
                counterparty_node_id,
                channel_value_satoshis,
                output_script,
            } => match report {
                FundingReport::Fee(Ok(fee_rate)) => (
                    FundingFlow::AwaitingTransaction { temporary_channel_id, counterparty_node_id },
                    Ok(
                        FundingOrder::CreateTransaction {
                            output_script,
                            amount: channel_value_satoshis,
                            fee_rate,
                        },
                    ),
                ),
                FundingReport::Fee(Err(reason)) => (
                    FundingFlow::Finished,
                    Err(Error::FeeEstimation { channel_id: temporary_channel_id, reason }),
                ),
                _ => (
                    FundingFlow::AwaitingFee {
                        temporary_channel_id,
                        counterparty_node_id,
                        channel_value_satoshis,
                        output_script,
                    },
                    Err(Error::OutOfTurn),
                ),
            },
            FundingFlow::AwaitingTransaction { temporary_channel_id, counterparty_node_id } => {
                match report {
                    FundingReport::Transaction(Ok(transaction)) => (
                        FundingFlow::AwaitingCompletion { temporary_channel_id },
                        Ok(
                            FundingOrder::CompleteFunding {
                                temporary_channel_id,
                                counterparty_node_id,
                                transaction,
                            },
                        ),
                    ),
                    FundingReport::Transaction(Err(reason)) => (
                        FundingFlow::Finished,
                        Err(Error::FundingTransaction { channel_id: temporary_channel_id, reason }),
                    ),
                    _ => (
                        FundingFlow::AwaitingTransaction {
                            temporary_channel_id,
                            counterparty_node_id,
                        },
                        Err(Error::OutOfTurn),
                    ),
                }
            },
            FundingFlow::AwaitingCompletion { temporary_channel_id } => match report {
                FundingReport::Completion(Ok(_)) => (FundingFlow::Finished, Ok(FundingOrder::Done)),
                FundingReport::Completion(Err(reason)) => (
                    FundingFlow::Finished,
                    Err(Error::FundingCompletion { channel_id: temporary_channel_id, reason }),
                ),
                _ => (
                    FundingFlow::AwaitingCompletion { temporary_channel_id },
                    Err(Error::OutOfTurn),
                ),
            },
            FundingFlow::Finished => (FundingFlow::Finished, Err(Error::OutOfTurn)),
        }
    }
}

/// A funding in which nothing fails asks for the fee, then for the
/// transaction that pays the channel's value to the channel's script at
/// that fee, then hands that transaction to the engine for that channel and
/// peer, and is finished.
pub proof fn lemma_funding_runs_in_order(
    temporary_channel_id: [u8; 32],
    counterparty_node_id: NodeId,
    channel_value_satoshis: u64,
    output_script: Script,
    fee_rate: u32,
    transaction: Transaction,
)
    ensures
        ({
            let asked = FundingFlow::AwaitingFee {
                temporary_channel_id,
                counterparty_node_id,
                channel_value_satoshis,
                output_script,
            };
            let priced = funding_step(asked, FundingReport::Fee(Ok(fee_rate)));
            let built = funding_step(priced.0, FundingReport::Transaction(Ok(transaction)));
            let funded = funding_step(built.0, FundingReport::Completion(Ok(())));
            &&& priced.1 == Ok::<FundingOrder, Error>(
                FundingOrder::CreateTransaction {
                    output_script,
                    amount: channel_value_satoshis,
                    fee_rate,
                },
            )
            &&& built.1 == Ok::<FundingOrder, Error>(
                FundingOrder::CompleteFunding {
                    temporary_channel_id,
                    counterparty_node_id,
                    transaction,
                },
            )
            &&& funded == (FundingFlow::Finished, Ok::<FundingOrder, Error>(FundingOrder::Done))
        }),
{
}

/// A failure ends the attempt: after it every report is out of turn, and the
/// flow stays finished.
pub proof fn lemma_funding_failure_is_final(
    flow: FundingFlow,
    report: FundingReport,
    later: FundingReport,
)
    requires
        funding_step(flow, report).1 is Err,
        !(funding_step(flow, report).1 matches Err(Error::OutOfTurn)),
    ensures
        funding_step(flow, report).0 == FundingFlow::Finished,
        funding_step(FundingFlow::Finished, later) == (
            FundingFlow::Finished,
            Err::<FundingOrder, Error>(Error::OutOfTurn),
        ),
{
}

} // verus!
