use bitcoin::{PackedLockTime, Script, Transaction};
use lampod::error::Error;
use lampod::events::{ChangeStateChannelEvent, ChannelState, OutPoint, ProtocolEvent};
use lampod::funding::{FundingFlow, FundingOrder, FundingReport, FUNDING_CONFIRMATION_TARGET};
use lampod::handler::{ExternalHandler, LampoHandler, ProtocolAction};
use lampod::model::NodeId;
use std::sync::Arc;

fn peer() -> NodeId {
    NodeId { bytes: [3u8; 33] }
}

fn script() -> Script {
    Script::from(vec![0x00, 0x20, 0xaa, 0xbb])
}

fn transaction() -> Transaction {
    Transaction { version: 2, lock_time: PackedLockTime(0), input: vec![], output: vec![] }
}

fn handler() -> LampoHandler<Arc<dyn ExternalHandler>> {
    LampoHandler::new()
}

fn asked() -> FundingFlow {
    FundingFlow::AwaitingFee {
        temporary_channel_id: [8u8; 32],
        counterparty_node_id: peer(),
        channel_value_satoshis: 40_000,
        output_script: script(),
    }
}

#[test]
fn funding_request_asks_for_a_fee_within_six_blocks() {
    assert_eq!(FUNDING_CONFIRMATION_TARGET, 6);
    let action = handler().handle(ProtocolEvent::FundingGenerationReady {
        temporary_channel_id: [8u8; 32],
        counterparty_node_id: peer(),
        channel_value_satoshis: 40_000,
        output_script: script(),
        user_channel_id: 11,
    });
    assert_eq!(
        action,
        ProtocolAction::Fund {
            flow: asked(),
            order: FundingOrder::EstimateFee { confirmation_target: 6 },
        }
    );
}

#[test]
fn funding_runs_fee_transaction_completion() {
    let (flow, order) = FundingFlow::begin([8u8; 32], peer(), 40_000, script());
    assert_eq!(order, FundingOrder::EstimateFee { confirmation_target: 6 });

    let (flow, order) = flow.resume(FundingReport::Fee(Ok(253)));
    assert_eq!(
        order,
        Ok(FundingOrder::CreateTransaction {
            output_script: script(),
            amount: 40_000,
            fee_rate: 253,
        })
    );
    assert_eq!(
        flow,
        FundingFlow::AwaitingTransaction {
            temporary_channel_id: [8u8; 32],
            counterparty_node_id: peer(),
        }
    );

    let (flow, order) = flow.resume(FundingReport::Transaction(Ok(transaction())));
    assert_eq!(
        order,
        Ok(FundingOrder::CompleteFunding {
            temporary_channel_id: [8u8; 32],
            counterparty_node_id: peer(),
            transaction: transaction(),
        })
    );
    assert_eq!(flow, FundingFlow::AwaitingCompletion { temporary_channel_id: [8u8; 32] });

    let (flow, order) = flow.resume(FundingReport::Completion(Ok(())));
    assert_eq!(order, Ok(FundingOrder::Done));
    assert_eq!(flow, FundingFlow::Finished);
}

#[test]
fn fee_estimation_failure_ends_the_attempt() {
    let (flow, order) = asked().resume(FundingReport::Fee(Err("backend down".to_string())));
    assert_eq!(
        order,
        Err(Error::FeeEstimation { channel_id: [8u8; 32], reason: "backend down".to_string() })
    );
    assert_eq!(flow, FundingFlow::Finished);
    assert_eq!(
        order.unwrap_err().message(),
        format!("channel `{}`: no fee estimated: backend down", "08".repeat(32))
    );
}

#[test]
fn wallet_failure_ends_the_attempt() {
    let (flow, _) = asked().resume(FundingReport::Fee(Ok(1_000)));
    let (flow, order) = flow.resume(FundingReport::Transaction(Err("no funds".to_string())));
    assert_eq!(
        order,
        Err(Error::FundingTransaction { channel_id: [8u8; 32], reason: "no funds".to_string() })
    );
    assert_eq!(flow, FundingFlow::Finished);
    assert_eq!(
        order.unwrap_err().message(),
        format!("channel `{}`: funding transaction not built: no funds", "08".repeat(32))
    );
}

#[test]
fn completion_failure_ends_the_attempt() {
    let (flow, _) = asked().resume(FundingReport::Fee(Ok(1_000)));
    let (flow, _) = flow.resume(FundingReport::Transaction(Ok(transaction())));
    let (flow, order) =
        flow.resume(FundingReport::Completion(Err("ChannelUnavailable".to_string())));
    assert_eq!(
        order,
        Err(Error::FundingCompletion {
            channel_id: [8u8; 32],
            reason: "ChannelUnavailable".to_string(),
        })
    );
    assert_eq!(flow, FundingFlow::Finished);
    assert_eq!(
        order.unwrap_err().message(),
        format!("channel `{}`: funding not completed: ChannelUnavailable", "08".repeat(32))
    );
}

#[test]
fn funding_report_out_of_turn_changes_nothing() {
    let (flow, order) = asked().resume(FundingReport::Completion(Ok(())));
    assert_eq!(order, Err(Error::OutOfTurn));
    assert_eq!(flow, asked());
    let (flow, order) = flow.resume(FundingReport::Transaction(Ok(transaction())));
    assert_eq!(order, Err(Error::OutOfTurn));
    assert_eq!(flow, asked());

    let (flow, order) = FundingFlow::Finished.resume(FundingReport::Fee(Ok(1)));
    assert_eq!(order, Err(Error::OutOfTurn));
    assert_eq!(flow, FundingFlow::Finished);
    assert_eq!(order.unwrap_err().message(), "report out of turn");
}

#[test]
fn channel_ready_changes_the_state_to_ready() {
    let action = handler().handle(ProtocolEvent::ChannelReady {
        channel_id: [5u8; 32],
        user_channel_id: 77,
        counterparty_node_id: peer(),
        channel_type: vec![0x00, 0x10],
    });
    assert_eq!(
        action,
        ProtocolAction::ChangeState(ChangeStateChannelEvent {
            channel_id: [5u8; 32],
            node_id: peer(),
            channel_type: vec![0x00, 0x10],
            state: ChannelState::Ready,
        })
    );
}

#[test]
fn channel_closed_and_pending_change_nothing() {
    let closed = handler().handle(ProtocolEvent::ChannelClosed {
        channel_id: [5u8; 32],
        user_channel_id: 77,
        reason: "CooperativeClosure".to_string(),
    });
    assert_eq!(closed, ProtocolAction::Nothing);
    let pending = handler().handle(ProtocolEvent::ChannelPending {
        channel_id: [5u8; 32],
        user_channel_id: 77,
        counterparty_node_id: peer(),
        funding_txo: OutPoint { txid: [6u8; 32], vout: 1 },
    });
    assert_eq!(pending, ProtocolAction::Nothing);
}
