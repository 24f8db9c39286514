//! The instruction processor: decode, bind accounts, authorize, delegate.
//!
//! The processor is one linear check-then-act sequence. Everything up to the
//! transfer itself is a pure decision over the payload bytes and the supplied
//! account handles, captured by [`spec_validate`]; the transfer is delegated
//! to an injected [`TransferService`] capability, whose accounting rules
//! (fees, minimum balances, account existence) this crate does not encode.

use crate::error::PaymentError;
use crate::payment::OfflinePayment;
use crate::payment::PAYLOAD_LEN;
use crate::payment::decodes_to;
use vstd::bytes::spec_u64_from_le_bytes;
use vstd::prelude::*;

verus! {

/// An account lent by the host for one invocation, reduced to what the
/// processor reads of it: the public key and the host-asserted signer flag.
///
/// The signer flag means the holder of the account's key cryptographically
/// authorized the current invocation; it is asserted and verified entirely
/// by the host before the processor runs.
#[derive(Clone, Copy, Debug)]
pub struct AccountHandle {
    pub key: [u8; 32],
    pub is_signer: bool,
}

/// One fully authorized transfer: move `amount` native units from the
/// account keyed `from` to the account keyed `to`.
#[derive(Clone, Copy, Debug, PartialEq, Eq)]
pub struct TransferRequest {
    pub from: [u8; 32],
    pub to: [u8; 32],
    pub amount: u64,
}

/// The host's native transfer primitive, injected as a capability so the
/// processor can run against any implementation. An `Err` carries the
/// host's error code; nothing is assumed about which requests succeed.
pub trait TransferService {
    /// Requests one atomic move of `amount` units from `from` to `to`.
    fn transfer(&mut self, from: &[u8; 32], to: &[u8; 32], amount: u64) -> Result<(), u64>;
}

/// The decision the processor takes before any transfer is attempted, as a
/// function of the supplied accounts and the payload alone: either the one
/// transfer request it will issue, or the error that aborts the invocation.
///
/// The order of the checks is part of the contract: a malformed payload is
/// reported before the account count, and the account count before the
/// signer flag. Accounts beyond the first three are ignored.
pub open spec fn spec_validate(accounts: Seq<AccountHandle>, payload: Seq<u8>) -> Result<
    TransferRequest,
    PaymentError,
> {
    if payload.len() != PAYLOAD_LEN {
        Err(PaymentError::DecodeFailure)
    } else if accounts.len() < 3 {
        Err(PaymentError::MissingAccount)
    } else if !accounts[0].is_signer {
        Err(PaymentError::Unauthorized)
    } else {
        Ok(
            TransferRequest {
                from: accounts[0].key,
                to: accounts[1].key,
                amount: spec_u64_from_le_bytes(payload.subrange(64, 72)),
            },
        )
    }
}

/// Decodes the payload, binds the sender, recipient and transfer-service
/// accounts positionally, and checks the sender's signer flag.
///
/// Returns exactly the decision of [`spec_validate`]; in particular it
/// touches nothing and owes nothing beyond that decision.
pub fn validate(accounts: &[AccountHandle], instruction_data: &[u8]) -> (r: Result<
    TransferRequest,
    PaymentError,
>)
    ensures
        r == spec_validate(accounts@, instruction_data@),
{
    let payment = match OfflinePayment::try_from_slice(instruction_data) {
        Ok(p) => p,
        Err(e) => {
            return Err(e);
        },
    };
    if accounts.len() < 3 {
        return Err(PaymentError::MissingAccount);
    }
    let sender_account = accounts[0];
    let recipient_account = accounts[1];
    if !sender_account.is_signer {
        return Err(PaymentError::Unauthorized);
    }
    Ok(
        TransferRequest {
            from: sender_account.key,
            to: recipient_account.key,
            amount: payment.amount,
        },
    )
}

/// Maps the transfer service's verdict onto the processor's result: success
/// passes through, and a rejection becomes `TransferFailure` carrying the
/// host's error code unchanged.
pub fn complete_transfer(transfer_result: Result<(), u64>) -> (r: Result<(), PaymentError>)
    ensures
        transfer_result is Ok ==> r == Ok::<(), PaymentError>(()),
        transfer_result is Err ==> r == Err::<(), PaymentError>(
            PaymentError::TransferFailure(transfer_result->Err_0),
        ),
{
    match transfer_result {
        Ok(_) => Ok(()),
        Err(code) => Err(PaymentError::TransferFailure(code)),
    }
}

/// Processes one payment instruction: decode the payload, bind the three
/// accounts, check the sender's signer flag, and delegate a single transfer
/// to `service`.
///
/// On any failing check the exact error of [`spec_validate`] comes back and
/// `service` stays untouched. On a valid invocation the result follows the
/// service: success, or `TransferFailure` carrying the service's error code.
/// The embedded signature and nonce play no part in the decision.
#[allow(unused_variables)]
pub fn process_instruction<S: TransferService>(
    program_id: &[u8; 32],
    accounts: &[AccountHandle],
    instruction_data: &[u8],
    service: &mut S,
) -> (r: Result<(), PaymentError>)
    ensures
        spec_validate(accounts@, instruction_data@) is Err ==> {
            &&& r is Err
            &&& r->Err_0 == spec_validate(accounts@, instruction_data@)->Err_0
            &&& *final(service) == *old(service)
        },
        spec_validate(accounts@, instruction_data@) is Ok ==> (r is Ok || (r is Err
            && r->Err_0 is TransferFailure)),
{
    let request = match validate(accounts, instruction_data) {
        Ok(request) => request,
        Err(e) => {
            return Err(e);
        },
    };
    let outcome = service.transfer(&request.from, &request.to, request.amount);
    complete_transfer(outcome)
}

/// A payload that is not exactly 176 bytes is rejected as `DecodeFailure`,
/// whatever the accounts hold, and no transfer request is formed.
pub proof fn lemma_malformed_payload_rejected(accounts: Seq<AccountHandle>, payload: Seq<u8>)
    requires
        payload.len() != PAYLOAD_LEN,
    ensures
        spec_validate(accounts, payload) == Err::<TransferRequest, PaymentError>(
            PaymentError::DecodeFailure,
        ),
{
}

/// With a well-formed payload but fewer than three accounts the invocation
/// fails as `MissingAccount`, before the signer flag is consulted.
pub proof fn lemma_missing_account_rejected(accounts: Seq<AccountHandle>, payload: Seq<u8>)
    requires
        payload.len() == PAYLOAD_LEN,
        accounts.len() < 3,
    ensures
        spec_validate(accounts, payload) == Err::<TransferRequest, PaymentError>(
            PaymentError::MissingAccount,
        ),
{
}

/// With a well-formed payload and three accounts, a sender account whose
/// signer flag is false fails as `Unauthorized`.
pub proof fn lemma_unsigned_sender_rejected(accounts: Seq<AccountHandle>, payload: Seq<u8>)
    requires
        payload.len() == PAYLOAD_LEN,
        accounts.len() >= 3,
        !accounts[0].is_signer,
    ensures
        spec_validate(accounts, payload) == Err::<TransferRequest, PaymentError>(
            PaymentError::Unauthorized,
        ),
{
}

/// On a fully valid invocation the processor forms exactly one transfer
/// request: from the first account's key to the second account's key, for
/// the amount carried by the decoded record.
pub proof fn lemma_valid_invocation_accepted(
    accounts: Seq<AccountHandle>,
    payload: Seq<u8>,
    p: OfflinePayment,
)
    requires
        decodes_to(payload, p),
        accounts.len() >= 3,
        accounts[0].is_signer,
    ensures
        spec_validate(accounts, payload) is Ok,
        spec_validate(accounts, payload)->Ok_0.from == accounts[0].key,
        spec_validate(accounts, payload)->Ok_0.to == accounts[1].key,
        spec_validate(accounts, payload)->Ok_0.amount == p.amount,
{
}

} // verus!
