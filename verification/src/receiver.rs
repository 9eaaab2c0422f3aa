//! The approval receiver: caller validation and the immediate-or-deferred
//! branching on the notification's message.

use vstd::prelude::*;

use crate::protocol::{
    DeferredCall, DeferredCallView, EchoRecord, Error, LogRecord, LogRecordView, Response,
    ResponseView, GAS_FOR_NFT_ON_APPROVE, NO_DEPOSIT,
};

verus! {

/// The result an approval notification is answered with: the diagnostic
/// record the handler emits, and its immediate-or-deferred response — or the
/// error it was refused with.
pub open spec fn spec_nft_on_approve(
    expected: Seq<char>,
    caller: Seq<char>,
    prepaid_gas: u64,
    current_account: Seq<char>,
    token_id: Seq<char>,
    owner_id: Seq<char>,
    approval_id: u64,
    msg: Seq<char>,
) -> Result<(LogRecordView, ResponseView), Error> {
    if caller != expected {
        Err(Error::UnauthorizedCaller)
    } else if msg == "return-now"@ {
        Ok((
            LogRecordView { token_id, owner_id, approval_id, msg },
            ResponseView::Value("cool"@),
        ))
    } else if prepaid_gas < GAS_FOR_NFT_ON_APPROVE {
        Err(Error::InsufficientResources)
    } else {
        Ok((
            LogRecordView { token_id, owner_id, approval_id, msg },
            ResponseView::Call(DeferredCallView {
                target: current_account,
                msg,
                attached_deposit: NO_DEPOSIT,
                gas: (prepaid_gas - GAS_FOR_NFT_ON_APPROVE) as u64,
            }),
        ))
    }
}

/// The mathematical image of a handler outcome.
pub open spec fn outcome_view(
    r: Result<(LogRecord, Response), Error>,
) -> Result<(LogRecordView, ResponseView), Error> {
    match r {
        Ok(p) => Ok((p.0@, p.1@)),
        Err(e) => Err(e),
    }
}

/// Receiver of approval notifications, configured once with the only account
/// that is authorized to deliver them.
pub struct ApprovalReceiver {
    pub non_fungible_token_account_id: String,
}

impl ApprovalReceiver {
    /// The configured expected caller, as a sequence of characters.
    pub open spec fn expected_caller(&self) -> Seq<char> {
        self.non_fungible_token_account_id@
    }

    /// Configures the receiver with the account expected to call it.
    pub fn new(non_fungible_token_account_id: String) -> (r: Self)
        ensures
            r.expected_caller() == non_fungible_token_account_id@,
    {
        ApprovalReceiver { non_fungible_token_account_id }
    }

    /// Handles one approval notification. The caller's identity, the remaining
    /// execution allowance, and the service's own account are handed in by the
    /// surrounding platform; the result is exactly what
    /// [`spec_nft_on_approve`] states: refusal of a foreign caller before any
    /// side effect, an immediate `"cool"` on the `"return-now"` directive, and
    /// otherwise a deferred echo call carrying the message, no transferred
    /// value, and the allowance that remains after the reserved overhead.
    pub fn nft_on_approve(
        &self,
        caller_id: String,
        prepaid_gas: u64,
        current_account_id: String,
        token_id: String,
        owner_id: String,
        approval_id: u64,
        msg: String,
    ) -> (r: Result<(LogRecord, Response), Error>)
        ensures
            outcome_view(r) == spec_nft_on_approve(
                self.expected_caller(),
                caller_id@,
                prepaid_gas,
                current_account_id@,
                token_id@,
                owner_id@,
                approval_id,
                msg@,
            ),
    {
        if !(caller_id == self.non_fungible_token_account_id) {
            return Err(Error::UnauthorizedCaller);
        }
        let return_now: String = "return-now".to_owned();
        if msg == return_now {
            let log = LogRecord { token_id, owner_id, approval_id, msg };
            Ok((log, Response::Value("cool".to_owned())))
        } else if prepaid_gas < GAS_FOR_NFT_ON_APPROVE {
            Err(Error::InsufficientResources)
        } else {
            let call = DeferredCall {
                target: current_account_id,
                msg: msg.clone(),
                attached_deposit: NO_DEPOSIT,
                gas: prepaid_gas - GAS_FOR_NFT_ON_APPROVE,
            };
            let log = LogRecord { token_id, owner_id, approval_id, msg };
            Ok((log, Response::Call(call)))
        }
    }
}

/// Continuation entry point on the same service: hands a previously received
/// value back unchanged. Intentionally open to any caller — a test
/// convenience, not a security boundary.
pub trait ValueReturnTrait {
    /// Echoes `msg` unchanged, together with its diagnostic record.
    fn ok_go(&self, msg: String) -> (r: (EchoRecord, Response))
        ensures
            r.0.msg@ == msg@,
            r.1@ == ResponseView::Value(msg@),
    ;
}

impl ValueReturnTrait for ApprovalReceiver {
    fn ok_go(&self, msg: String) -> (r: (EchoRecord, Response)) {
        let record = EchoRecord { msg: msg.clone() };
        (record, Response::Value(msg))
    }
}

/// The string a response eventually resolves to: an immediate value as it
/// stands; a deferred call by what the echo continuation returns, which is
/// its argument unchanged.
pub open spec fn spec_eventual_result(r: ResponseView) -> Seq<char> {
    match r {
        ResponseView::Value(s) => s,
        ResponseView::Call(c) => c.msg,
    }
}

/// The platform's result-binding step: an immediate value is final as it is;
/// a deferred call is completed by invoking the continuation and taking what
/// it returns. Hands back the echo's diagnostic record exactly when a
/// deferred call was completed.
pub fn resolve_response<T: ValueReturnTrait>(target: &T, response: Response) -> (r: (
    Option<EchoRecord>,
    String,
))
    ensures
        r.1@ == spec_eventual_result(response@),
        (r.0 is Some) <==> (response@ is Call),
        response@ matches ResponseView::Call(c) ==> r.0 matches Some(rec) && rec.msg@ == c.msg,
{
    match response {
        Response::Value(s) => (None, s),
        Response::Call(c) => {
            let (record, echoed) = target.ok_go(c.msg);
            match echoed {
                Response::Value(s) => (Some(record), s),
                Response::Call(_) => {
                    proof {
                        assert(false);
                    }
                    (None, String::new())
                },
            }
        },
    }
}

} // verus!
