//! The one error model in which the facade reports every failure.

use crate::backend::{Failure, FailureKind, FailureView, Request, RequestView};
use vstd::prelude::*;

verus! {

/// The operations of the facade.
#[derive(Clone, Copy, Debug, PartialEq, Eq)]
pub enum Operation {
    GetTip,
    GetTipHeight,
    GetHeader,
    GetHeaders,
    GetHeaderByHash,
    GetBlockHash,
    GetBlockTxids,
    EstimateFee,
    RelayFee,
    GetHistory,
    ListUnspent,
    GetBalance,
    GetTransactionHex,
    GetTransactionDecoded,
    Broadcast,
    GetRawMempool,
}

/// The classes of failure that a caller of the facade can tell apart.
#[derive(Clone, Copy, Debug, PartialEq, Eq)]
pub enum ErrorKind {
    /// A collaborator could not be reached, or cannot serve requests now.
    BackendUnavailable,
    /// The height, block, transaction or address asked for does not exist as
    /// far as the collaborator knows.
    NotFound,
    /// A reply did not have the shape that the request calls for.
    MalformedReply,
    /// The collaborator refused to change its state as asked.
    Rejected,
    /// The collaborator reported a cancellation or a timeout.
    Cancelled,
}

/// The shapes a reply can have.
#[derive(Clone, Copy, Debug, PartialEq, Eq)]
pub enum Shape {
    /// A number of blocks that is a height: one that fits 32 bits.
    Count,
    Block,
    Text,
    BlockInfo,
    FeeEstimate,
    Json,
    Txid,
    History,
    Unspent,
    Balance,
    /// A document with a numeric member `minrelaytxfee`.
    MinRelayFee,
}

/// Why an operation failed.
#[derive(Clone, Debug, PartialEq, Eq)]
pub enum Cause {
    /// The collaborator reported a failure, kept here as it came.
    Backend(Failure),
    /// The collaborator's reply was not of the expected shape.
    Malformed { expected: Shape },
}

/// A [`Cause`] as a mathematical value.
pub enum CauseView {
    Backend(FailureView),
    Malformed { expected: Shape },
}

impl View for Cause {
    type V = CauseView;

    open spec fn view(&self) -> CauseView {
        match *self {
            Cause::Backend(failure) => CauseView::Backend(failure@),
            Cause::Malformed { expected } => CauseView::Malformed { expected },
        }
    }
}

/// A failed operation: its class, the operation, the request that failed
/// and the cause.
#[derive(Clone, Debug, PartialEq)]
pub struct QueryError {
    pub kind: ErrorKind,
    pub operation: Operation,
    pub request: Request,
    pub cause: Cause,
}

/// A [`QueryError`] as a mathematical value.
pub struct QueryErrorView {
    pub kind: ErrorKind,
    pub operation: Operation,
    pub request: RequestView,
    pub cause: CauseView,
}

impl View for QueryError {
    type V = QueryErrorView;

    open spec fn view(&self) -> QueryErrorView {
        QueryErrorView {
            kind: self.kind,
            operation: self.operation,
            request: self.request@,
            cause: self.cause@,
        }
    }
}

/// The class of a failure that a collaborator reported for `request`.
///
/// A refusal means `Rejected` where the request would have changed the
/// collaborator's state, `NotFound` where it named something to look up, and
/// `BackendUnavailable` where it did neither.
pub open spec fn failure_class(request: RequestView, kind: FailureKind) -> ErrorKind {
    match kind {
        FailureKind::Unreachable => ErrorKind::BackendUnavailable,
        FailureKind::Interrupted => ErrorKind::Cancelled,
        FailureKind::Unreadable => ErrorKind::MalformedReply,
        FailureKind::Refused => if request.changes_state() {
            ErrorKind::Rejected
        } else if request.looks_up() {
            ErrorKind::NotFound
        } else {
            ErrorKind::BackendUnavailable
        },
    }
}

/// The error for a failure that a collaborator reported.
pub open spec fn backend_error(
    operation: Operation,
    request: RequestView,
    failure: FailureView,
) -> QueryErrorView {
    QueryErrorView {
        kind: failure_class(request, failure.kind),
        operation,
        request,
        cause: CauseView::Backend(failure),
    }
}

/// The error for a reply of another shape than `expected`.
pub open spec fn malformed_error(
    operation: Operation,
    request: RequestView,
    expected: Shape,
) -> QueryErrorView {
    QueryErrorView {
        kind: ErrorKind::MalformedReply,
        operation,
        request,
        cause: CauseView::Malformed { expected },
    }
}

impl QueryError {
    /// Wraps a collaborator's failure with the operation and the request
    /// during which it occurred. The failure itself is kept unchanged.
    pub fn from_backend(
        operation: Operation,
        request: Request,
        failure: Failure,
    ) -> (error: QueryError)
        ensures
            error@ == backend_error(operation, request@, failure@),
    {
        let kind = match failure.kind {
            FailureKind::Unreachable => ErrorKind::BackendUnavailable,
            FailureKind::Interrupted => ErrorKind::Cancelled,
            FailureKind::Unreadable => ErrorKind::MalformedReply,
            FailureKind::Refused => match request {
                Request::SendRawTransaction { .. } => ErrorKind::Rejected,
                Request::BlockHash { .. }
                | Request::BlockHeader { .. }
                | Request::BlockInfo { .. }
                | Request::RawTransaction { .. }
                | Request::History { .. }
                | Request::Unspent { .. }
                | Request::Balance { .. } => ErrorKind::NotFound,
                _ => ErrorKind::BackendUnavailable,
            },
        };
        QueryError { kind, operation, request, cause: Cause::Backend(failure) }
    }

    /// The error for a reply that is not of the shape `expected`.
    pub fn malformed(
        operation: Operation,
        request: Request,
        expected: Shape,
    ) -> (error: QueryError)
        ensures
            error@ == malformed_error(operation, request@, expected),
    {
        QueryError {
            kind: ErrorKind::MalformedReply,
            operation,
            request,
            cause: Cause::Malformed { expected },
        }
    }
}

} // verus!
