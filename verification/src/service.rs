//! Initialize-exactly-once lifecycle around the approval receiver.

use vstd::prelude::*;

use crate::protocol::{Error, LogRecord, Response};
use crate::receiver::{outcome_view, spec_nft_on_approve, ApprovalReceiver};

verus! {

/// The approval callback service: an approval receiver together with its
/// initialization state. It must be initialized exactly once before the
/// handler is used.
pub struct ApprovalCallbackService {
    pub receiver: Option<ApprovalReceiver>,
}

impl ApprovalCallbackService {
    /// Whether the service has been initialized.
    pub open spec fn is_initialized(&self) -> bool {
        self.receiver is Some
    }

    /// The configured expected caller (meaningful once initialized).
    pub open spec fn expected_caller(&self) -> Seq<char> {
        self.receiver->Some_0.expected_caller()
    }

    /// A service that has not been initialized yet.
    pub fn new() -> (r: Self)
        ensures
            !r.is_initialized(),
    {
        ApprovalCallbackService { receiver: None }
    }

    /// Stores the expected caller. Succeeds exactly once: a second call is
    /// refused with `DoubleInitialization` and leaves the service unchanged.
    pub fn initialize(&mut self, expected_caller_id: String) -> (r: Result<(), Error>)
        ensures
            old(self).is_initialized() ==> r == Err::<(), Error>(Error::DoubleInitialization)
                && *final(self) == *old(self),
            !old(self).is_initialized() ==> r == Ok::<(), Error>(())
                && final(self).is_initialized()
                && final(self).expected_caller() == expected_caller_id@,
    {
        if self.receiver.is_some() {
            Err(Error::DoubleInitialization)
        } else {
            self.receiver = Some(ApprovalReceiver::new(expected_caller_id));
            Ok(())
        }
    }

    /// Handles one approval notification, refusing with `UninitializedUse`
    /// when the service was never initialized, and otherwise answering
    /// exactly as [`spec_nft_on_approve`] states for the configured expected
    /// caller.
    pub fn handle_approval_notification(
        &self,
        caller_id: String,
        prepaid_gas: u64,
        current_account_id: String,
        token_id: String,
        owner_id: String,
        approval_id: u64,
        msg: String,
    ) -> (r: Result<(LogRecord, Response), Error>)
        ensures
            !self.is_initialized() ==> r == Err::<(LogRecord, Response), Error>(
                Error::UninitializedUse,
            ),
            self.is_initialized() ==> outcome_view(r) == spec_nft_on_approve(
                self.expected_caller(),
                caller_id@,
                prepaid_gas,
                current_account_id@,
                token_id@,
                owner_id@,
                approval_id,
                msg@,
            ),
    {
        match &self.receiver {
            None => Err(Error::UninitializedUse),
            Some(receiver) => receiver.nft_on_approve(
                caller_id,
                prepaid_gas,
                current_account_id,
                token_id,
                owner_id,
                approval_id,
                msg,
            ),
        }
    }
}

} // verus!
