//! Tests of the instruction processor against stub transfer services.

use payment_program::process_instruction;
use payment_program::processor::complete_transfer;
use payment_program::processor::validate;
use payment_program::AccountHandle;
use payment_program::OfflinePayment;
use payment_program::PaymentError;

/// A transfer service that records every request and answers with a fixed
/// verdict.
struct StubService {
    calls: Vec<([u8; 32], [u8; 32], u64)>,
    verdict: Result<(), u64>,
}

impl StubService {
    fn succeeding() -> StubService {
        StubService { calls: Vec::new(), verdict: Ok(()) }
    }

    fn failing(code: u64) -> StubService {
        StubService { calls: Vec::new(), verdict: Err(code) }
    }
}

impl payment_program::TransferService for StubService {
    fn transfer(&mut self, from: &[u8; 32], to: &[u8; 32], amount: u64) -> Result<(), u64> {
        self.calls.push((*from, *to, amount));
        self.verdict
    }
}

fn program_id() -> [u8; 32] {
    [9u8; 32]
}

fn sender_key() -> [u8; 32] {
    [0x11u8; 32]
}

fn recipient_key() -> [u8; 32] {
    [0x22u8; 32]
}

fn service_key() -> [u8; 32] {
    [0x33u8; 32]
}

fn account(key: [u8; 32], is_signer: bool) -> AccountHandle {
    AccountHandle { key, is_signer }
}

fn three_accounts(sender_signs: bool) -> Vec<AccountHandle> {
    vec![
        account(sender_key(), sender_signs),
        account(recipient_key(), false),
        account(service_key(), false),
    ]
}

fn valid_payload(amount: u64) -> Vec<u8> {
    let record = OfflinePayment {
        sender: sender_key(),
        recipient: recipient_key(),
        amount,
        timestamp: 1_700_000_000,
        nonce: [7; 32],
        signature: [8; 64],
    };
    record.to_bytes()
}

#[test]
fn process_succeeds_and_issues_one_transfer() {
    let accounts = three_accounts(true);
    let payload = valid_payload(7_777);
    let mut service = StubService::succeeding();
    let result = process_instruction(&program_id(), &accounts, &payload, &mut service);
    assert_eq!(result, Ok(()));
    assert_eq!(service.calls, vec![(sender_key(), recipient_key(), 7_777)]);
}

#[test]
fn process_reports_transfer_failure_with_host_code() {
    let accounts = three_accounts(true);
    let payload = valid_payload(7_777);
    let mut service = StubService::failing(42);
    let result = process_instruction(&program_id(), &accounts, &payload, &mut service);
    assert_eq!(result, Err(PaymentError::TransferFailure(42)));
    // the request was issued exactly once, then the rejection surfaced
    assert_eq!(service.calls, vec![(sender_key(), recipient_key(), 7_777)]);
}

#[test]
fn process_rejects_malformed_payload_without_transfer() {
    let accounts = three_accounts(true);
    let mut service = StubService::failing(99);
    for len in [0, 175, 177] {
        let payload = vec![0u8; len];
        let result = process_instruction(&program_id(), &accounts, &payload, &mut service);
        assert_eq!(result, Err(PaymentError::DecodeFailure));
    }
    assert!(service.calls.is_empty());
}

#[test]
fn malformed_payload_is_reported_before_missing_accounts() {
    let payload = vec![0u8; 17];
    let mut service = StubService::succeeding();
    let result = process_instruction(&program_id(), &[], &payload, &mut service);
    assert_eq!(result, Err(PaymentError::DecodeFailure));
    assert!(service.calls.is_empty());
}

#[test]
fn process_rejects_short_account_list() {
    let payload = valid_payload(5);
    let mut service = StubService::succeeding();
    let all_accounts = three_accounts(true);
    for count in 0..3 {
        let accounts = &all_accounts[..count];
        let result = process_instruction(&program_id(), accounts, &payload, &mut service);
        assert_eq!(result, Err(PaymentError::MissingAccount));
    }
    assert!(service.calls.is_empty());
}

#[test]
fn missing_account_is_reported_before_authorization() {
    // the sender does not sign, yet with only two accounts the account
    // count is what fails the call
    let all_accounts = three_accounts(false);
    let accounts = &all_accounts[..2];
    let payload = valid_payload(5);
    let mut service = StubService::succeeding();
    let result = process_instruction(&program_id(), accounts, &payload, &mut service);
    assert_eq!(result, Err(PaymentError::MissingAccount));
    assert!(service.calls.is_empty());
}

#[test]
fn process_rejects_unsigned_sender_without_transfer() {
    let accounts = three_accounts(false);
    let payload = valid_payload(5);
    let mut service = StubService::failing(1);
    let result = process_instruction(&program_id(), &accounts, &payload, &mut service);
    assert_eq!(result, Err(PaymentError::Unauthorized));
    assert!(service.calls.is_empty());
}

#[test]
fn extra_accounts_are_ignored() {
    let mut accounts = three_accounts(true);
    accounts.push(account([0x44; 32], true));
    let payload = valid_payload(123);
    let mut service = StubService::succeeding();
    let result = process_instruction(&program_id(), &accounts, &payload, &mut service);
    assert_eq!(result, Ok(()));
    assert_eq!(service.calls, vec![(sender_key(), recipient_key(), 123)]);
}

#[test]
fn transfer_moves_between_account_keys_not_payload_keys() {
    // the payload's embedded sender and recipient differ from the bound
    // accounts; the transfer follows the accounts, positionally
    let record = OfflinePayment {
        sender: [0xEE; 32],
        recipient: [0xDD; 32],
        amount: 999,
        timestamp: 0,
        nonce: [0; 32],
        signature: [0; 64],
    };
    let accounts = three_accounts(true);
    let mut service = StubService::succeeding();
    let result = process_instruction(&program_id(), &accounts, &record.to_bytes(), &mut service);
    assert_eq!(result, Ok(()));
    assert_eq!(service.calls, vec![(sender_key(), recipient_key(), 999)]);
}

#[test]
fn identical_payload_transfers_twice() {
    // no replay protection: the nonce is carried, not checked
    let accounts = three_accounts(true);
    let payload = valid_payload(50);
    let mut service = StubService::succeeding();
    let first = process_instruction(&program_id(), &accounts, &payload, &mut service);
    let second = process_instruction(&program_id(), &accounts, &payload, &mut service);
    assert_eq!(first, Ok(()));
    assert_eq!(second, Ok(()));
    assert_eq!(
        service.calls,
        vec![(sender_key(), recipient_key(), 50), (sender_key(), recipient_key(), 50)]
    );
}

#[test]
fn validate_forms_request_from_accounts_and_amount() {
    let accounts = three_accounts(true);
    let payload = valid_payload(314);
    let request = validate(&accounts, &payload).unwrap();
    assert_eq!(request.from, sender_key());
    assert_eq!(request.to, recipient_key());
    assert_eq!(request.amount, 314);
}

#[test]
fn complete_transfer_maps_verdicts() {
    assert_eq!(complete_transfer(Ok(())), Ok(()));
    assert_eq!(complete_transfer(Err(5)), Err(PaymentError::TransferFailure(5)));
}
