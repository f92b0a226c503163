//! The failures that the core reports.

use crate::hex::{bytes_to_hex, hex_text};
use vstd::prelude::*;
use vstd::string::StringExecFns;

verus! {

/// Every failure names what it is about: the method, the peer, the channel
/// or the path.
#[derive(Debug, Clone, PartialEq, Eq)]
pub enum Error {
    /// No handler of the chain claimed the request.
    MethodNotFound { method: String },
    /// A handler of the chain failed outright.
    Handler { reason: String },
    /// The text is no node identifier.
    InvalidNodeId { node_id: String },
    /// The channel engine did not create the channel.
    ChannelOpen { node_id: String, reason: String },
    /// No fee could be estimated for the funding of a channel.
    FeeEstimation { channel_id: [u8; 32], reason: String },
    /// The wallet did not build the funding transaction of a channel.
    FundingTransaction { channel_id: [u8; 32], reason: String },
    /// The channel engine did not take the funding transaction of a channel.
    FundingCompletion { channel_id: [u8; 32], reason: String },
    /// A part could not be built for want of something it depends on.
    Unavailable { reason: String },
    /// The persisted channel monitors could not be read.
    MonitorStore { reason: String },
    /// No manager snapshot could be opened at the path.
    SnapshotMissing { path: String, reason: String },
    /// The manager snapshot at the path could not be decoded.
    SnapshotCorrupt { path: String, reason: String },
    /// The handler slot was written before.
    HandlerAlreadySet,
    /// A report that answers no order that is outstanding.
    OutOfTurn,
}

/// An error with its texts as sequences of characters.
pub enum ErrorView {
    MethodNotFound { method: Seq<char> },
    Handler { reason: Seq<char> },
    InvalidNodeId { node_id: Seq<char> },
    ChannelOpen { node_id: Seq<char>, reason: Seq<char> },
    FeeEstimation { channel_id: Seq<u8>, reason: Seq<char> },
    FundingTransaction { channel_id: Seq<u8>, reason: Seq<char> },
    FundingCompletion { channel_id: Seq<u8>, reason: Seq<char> },
    Unavailable { reason: Seq<char> },
    MonitorStore { reason: Seq<char> },
    SnapshotMissing { path: Seq<char>, reason: Seq<char> },
    SnapshotCorrupt { path: Seq<char>, reason: Seq<char> },
    HandlerAlreadySet,
    OutOfTurn,
}

impl View for Error {
    type V = ErrorView;

    open spec fn view(&self) -> ErrorView {
        match *self {
            Error::MethodNotFound { method } => ErrorView::MethodNotFound { method: method@ },
            Error::Handler { reason } => ErrorView::Handler { reason: reason@ },
            Error::InvalidNodeId { node_id } => ErrorView::InvalidNodeId { node_id: node_id@ },
            Error::ChannelOpen { node_id, reason } => ErrorView::ChannelOpen {
                node_id: node_id@,
                reason: reason@,
            },
            Error::FeeEstimation { channel_id, reason } => ErrorView::FeeEstimation {
                channel_id: channel_id@,
                reason: reason@,
            },
            Error::FundingTransaction { channel_id, reason } => ErrorView::FundingTransaction {
                channel_id: channel_id@,
                reason: reason@,
            },
            Error::FundingCompletion { channel_id, reason } => ErrorView::FundingCompletion {
                channel_id: channel_id@,
                reason: reason@,
            },
            Error::Unavailable { reason } => ErrorView::Unavailable { reason: reason@ },
            Error::MonitorStore { reason } => ErrorView::MonitorStore { reason: reason@ },
            Error::SnapshotMissing { path, reason } => ErrorView::SnapshotMissing {
                path: path@,
                reason: reason@,
            },
            Error::SnapshotCorrupt { path, reason } => ErrorView::SnapshotCorrupt {
                path: path@,
                reason: reason@,
            },
            Error::HandlerAlreadySet => ErrorView::HandlerAlreadySet,
            Error::OutOfTurn => ErrorView::OutOfTurn,
        }
    }
}

/// A result with its error taken by its view.
pub open spec fn outcome_view<T>(result: Result<T, Error>) -> Result<T, ErrorView> {
    match result {
        Ok(value) => Ok(value),
        Err(error) => Err(error@),
    }
}

/// A message of three parts.
pub open spec fn text3(a: Seq<char>, b: Seq<char>, c: Seq<char>) -> Seq<char> {
    a + b + c
}

/// A message of four parts.
pub open spec fn text4(a: Seq<char>, b: Seq<char>, c: Seq<char>, d: Seq<char>) -> Seq<char> {
    a + b + c + d
}

/// What a user is told of an error.
pub open spec fn message_text(error: ErrorView) -> Seq<char> {
    match error {
        ErrorView::MethodNotFound { method } => text3("method `"@, method, "` not found"@),
        ErrorView::Handler { reason } => reason,
        ErrorView::InvalidNodeId { node_id } => text3("node id `"@, node_id, "` is not valid"@),
        ErrorView::ChannelOpen { node_id, reason } => text4(
            "channel with `"@,
            node_id,
            "` not opened: "@,
            reason,
        ),
        ErrorView::FeeEstimation { channel_id, reason } => text4(
            "channel `"@,
            hex_text(channel_id),
            "`: no fee estimated: "@,
            reason,
        ),
        ErrorView::FundingTransaction { channel_id, reason } => text4(
            "channel `"@,
            hex_text(channel_id),
            "`: funding transaction not built: "@,
            reason,
        ),
        ErrorView::FundingCompletion { channel_id, reason } => text4(
            "channel `"@,
            hex_text(channel_id),
            "`: funding not completed: "@,
            reason,
        ),
        ErrorView::Unavailable { reason } => "not available: "@ + reason,
        ErrorView::MonitorStore { reason } => "channel monitors not read: "@ + reason,
        ErrorView::SnapshotMissing { path, reason } => text4(
            "manager snapshot `"@,
            path,
            "` not opened: "@,
            reason,
        ),
        ErrorView::SnapshotCorrupt { path, reason } => text4(
            "manager snapshot `"@,
            path,
            "` not decoded: "@,
            reason,
        ),
        ErrorView::HandlerAlreadySet => "handler already set"@,
        ErrorView::OutOfTurn => "report out of turn"@,
    }
}

/// Joins four texts.
fn join4(a: &str, b: &str, c: &str, d: &str) -> (text: String)
    ensures
        text@ == text4(a@, b@, c@, d@),
{
    String::from_str(a).concat(b).concat(c).concat(d)
}

impl Error {
    /// What a user is told of this error.
    pub fn message(&self) -> (text: String)
        ensures
            text@ == message_text(self@),
    {
        match self {
            Error::MethodNotFound { method } => String::from_str("method `").concat(
                method.as_str(),
            ).concat("` not found"),
            Error::Handler { reason } => reason.clone(),
            Error::InvalidNodeId { node_id } => String::from_str("node id `").concat(
                node_id.as_str(),
            ).concat("` is not valid"),
            Error::ChannelOpen { node_id, reason } => join4(
                "channel with `",
                node_id.as_str(),
                "` not opened: ",
                reason.as_str(),
            ),
            Error::FeeEstimation { channel_id, reason } => join4(
                "channel `",
                bytes_to_hex(channel_id.as_slice()).as_str(),
                "`: no fee estimated: ",
                reason.as_str(),
            ),
            Error::FundingTransaction { channel_id, reason } => join4(
                "channel `",
                bytes_to_hex(channel_id.as_slice()).as_str(),
                "`: funding transaction not built: ",
                reason.as_str(),
            ),
            Error::FundingCompletion { channel_id, reason } => join4(
                "channel `",
                bytes_to_hex(channel_id.as_slice()).as_str(),
                "`: funding not completed: ",
                reason.as_str(),
            ),
            Error::Unavailable { reason } => String::from_str("not available: ").concat(
                reason.as_str(),
            ),
            Error::MonitorStore { reason } => String::from_str(
                "channel monitors not read: ",
            ).concat(reason.as_str()),
            Error::SnapshotMissing { path, reason } => join4(
                "manager snapshot `",
                path.as_str(),
                "` not opened: ",
                reason.as_str(),
            ),
            Error::SnapshotCorrupt { path, reason } => join4(
                "manager snapshot `",
                path.as_str(),
                "` not decoded: ",
                reason.as_str(),
            ),
            Error::HandlerAlreadySet => String::from_str("handler already set"),
            Error::OutOfTurn => String::from_str("report out of turn"),
        }
    }
}

} // verus!
