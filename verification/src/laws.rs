//! Laws of the callback protocol, stated over the handler's specification and
//! proved once for all inputs.

use vstd::prelude::*;

use crate::protocol::{Error, LogRecordView, ResponseView, GAS_FOR_NFT_ON_APPROVE};
use crate::receiver::{spec_eventual_result, spec_nft_on_approve};

verus! {

/// Round trip through the deferred continuation is value-preserving: for any
/// message other than the immediate directive, an authorized notification
/// with a sufficient allowance is answered by a deferred echo call carrying
/// exactly that message and no transferred value, and the call's eventual
/// result is exactly that message.
pub proof fn lemma_deferred_round_trip(
    expected: Seq<char>,
    prepaid_gas: u64,
    current_account: Seq<char>,
    token_id: Seq<char>,
    owner_id: Seq<char>,
    approval_id: u64,
    msg: Seq<char>,
)
    requires
        msg != "return-now"@,
        prepaid_gas >= GAS_FOR_NFT_ON_APPROVE,
    ensures
        ({
            let r = spec_nft_on_approve(
                expected,
                expected,
                prepaid_gas,
                current_account,
                token_id,
                owner_id,
                approval_id,
                msg,
            );
            &&& r matches Ok(p)
            &&& p.1 matches ResponseView::Call(c)
            &&& c.msg == msg
            &&& c.target == current_account
            &&& c.attached_deposit == 0
            &&& spec_eventual_result(p.1) == msg
        }),
{
}

/// The immediate directive is answered at once: an authorized notification
/// whose message is `"return-now"` yields the literal `"cool"` and issues no
/// deferred call, whatever the remaining allowance.
pub proof fn lemma_immediate_return(
    expected: Seq<char>,
    prepaid_gas: u64,
    current_account: Seq<char>,
    token_id: Seq<char>,
    owner_id: Seq<char>,
    approval_id: u64,
    msg: Seq<char>,
)
    requires
        msg == "return-now"@,
    ensures
        spec_nft_on_approve(
            expected,
            expected,
            prepaid_gas,
            current_account,
            token_id,
            owner_id,
            approval_id,
            msg,
        ) == Ok::<(LogRecordView, ResponseView), Error>((
            LogRecordView { token_id, owner_id, approval_id, msg },
            ResponseView::Value("cool"@),
        )),
{
}

/// A foreign caller is always refused: whatever the message, the allowance,
/// and the other inputs, a notification whose caller is not the configured
/// expected caller fails with `UnauthorizedCaller`, carrying no diagnostic
/// record and issuing no deferred call.
pub proof fn lemma_unauthorized(
    expected: Seq<char>,
    caller: Seq<char>,
    prepaid_gas: u64,
    current_account: Seq<char>,
    token_id: Seq<char>,
    owner_id: Seq<char>,
    approval_id: u64,
    msg: Seq<char>,
)
    requires
        caller != expected,
    ensures
        spec_nft_on_approve(
            expected,
            caller,
            prepaid_gas,
            current_account,
            token_id,
            owner_id,
            approval_id,
            msg,
        ) == Err::<(LogRecordView, ResponseView), Error>(Error::UnauthorizedCaller),
{
}

/// A notification that is authorized but cannot cover the reserved
/// deferred-call overhead fails with `InsufficientResources` and issues no
/// deferred call — unless the immediate directive made the allowance moot.
pub proof fn lemma_insufficient_resources(
    expected: Seq<char>,
    prepaid_gas: u64,
    current_account: Seq<char>,
    token_id: Seq<char>,
    owner_id: Seq<char>,
    approval_id: u64,
    msg: Seq<char>,
)
    requires
        msg != "return-now"@,
        prepaid_gas < GAS_FOR_NFT_ON_APPROVE,
    ensures
        spec_nft_on_approve(
            expected,
            expected,
            prepaid_gas,
            current_account,
            token_id,
            owner_id,
            approval_id,
            msg,
        ) == Err::<(LogRecordView, ResponseView), Error>(Error::InsufficientResources),
{
}

} // verus!
