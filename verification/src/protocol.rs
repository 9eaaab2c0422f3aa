//! Shared vocabulary of the callback protocol: error taxonomy, diagnostic
//! records, deferred calls, and the handler's immediate-or-deferred response.

use vstd::prelude::*;

verus! {

/// Execution allowance reserved for the handler's own base work.
pub const BASE_GAS: u64 = 5_000_000_000_000;

/// Execution allowance reserved for dispatching one deferred call.
pub const PROMISE_CALL: u64 = 5_000_000_000_000;

/// Total allowance held back before the remainder is forwarded to the
/// deferred continuation.
pub const GAS_FOR_NFT_ON_APPROVE: u64 = BASE_GAS + PROMISE_CALL;

/// Deferred calls issued by this service never transfer value.
pub const NO_DEPOSIT: u128 = 0;

/// Why an operation of the service was refused.
#[derive(Clone, Copy, Debug, PartialEq, Eq, Structural)]
pub enum Error {
    /// The immediate caller is not the configured expected caller.
    UnauthorizedCaller,
    /// The remaining allowance cannot cover the reserved deferred-call
    /// overhead.
    InsufficientResources,
    /// The service was asked to initialize a second time.
    DoubleInitialization,
    /// The handler was invoked before the service was initialized.
    UninitializedUse,
}

/// Structured diagnostic record emitted by the approval handler.
pub struct LogRecord {
    pub token_id: String,
    pub owner_id: String,
    pub approval_id: u64,
    pub msg: String,
}

/// Mathematical image of a [`LogRecord`].
pub struct LogRecordView {
    pub token_id: Seq<char>,
    pub owner_id: Seq<char>,
    pub approval_id: u64,
    pub msg: Seq<char>,
}

impl View for LogRecord {
    type V = LogRecordView;

    open spec fn view(&self) -> LogRecordView {
        LogRecordView {
            token_id: self.token_id@,
            owner_id: self.owner_id@,
            approval_id: self.approval_id,
            msg: self.msg@,
        }
    }
}

/// Diagnostic record emitted by the echo continuation.
pub struct EchoRecord {
    pub msg: String,
}

/// A scheduled invocation of the echo continuation on `target`: the argument
/// to hand over, the transferred value (always zero here), and the execution
/// allowance forwarded to it.
pub struct DeferredCall {
    pub target: String,
    pub msg: String,
    pub attached_deposit: u128,
    pub gas: u64,
}

/// Mathematical image of a [`DeferredCall`].
pub struct DeferredCallView {
    pub target: Seq<char>,
    pub msg: Seq<char>,
    pub attached_deposit: u128,
    pub gas: u64,
}

impl View for DeferredCall {
    type V = DeferredCallView;

    open spec fn view(&self) -> DeferredCallView {
        DeferredCallView {
            target: self.target@,
            msg: self.msg@,
            attached_deposit: self.attached_deposit,
            gas: self.gas,
        }
    }
}

/// What the approval handler hands back: an immediate value, or a deferred
/// call whose eventual result becomes the overall result.
pub enum Response {
    Value(String),
    Call(DeferredCall),
}

/// Mathematical image of a [`Response`].
pub enum ResponseView {
    Value(Seq<char>),
    Call(DeferredCallView),
}

impl View for Response {
    type V = ResponseView;

    open spec fn view(&self) -> ResponseView {
        match self {
            Response::Value(s) => ResponseView::Value(s@),
            Response::Call(c) => ResponseView::Call(c@),
        }
    }
}

} // verus!
