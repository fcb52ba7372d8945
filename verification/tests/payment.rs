use txaudit::chain::Network;
use txaudit::error::PipelineError;
use txaudit::payment::{broadcast_id, rejection, settle, PaymentRequest, INSUFFICIENT_FUNDS_CODE};
use txaudit::wallet::WalletHandle;

const TXID: &str = "4a5e1e4baab89f3a32518a88c31bc87f618f76673e2cc77ab2127b7afdeda33b";

#[test]
fn request_names_the_address_the_amount_and_the_memo() {
    let trader = WalletHandle::open(&"http://127.0.0.1:18443".to_string(), &"Trader".to_string());
    let text = "bc1qw508d6qejxtdg4y5r3zarvary0c5xw7kv8f3t4".to_string();
    let to = trader.address(text.clone(), Some("Received".to_string()), Network::Main).unwrap();
    let request = PaymentRequest::new(&to, 2_000_000_000, Some("Payment to Trader".to_string()));
    assert_eq!(
        request,
        PaymentRequest {
            destination: text,
            amount: 2_000_000_000,
            memo: Some("Payment to Trader".to_string()),
        }
    );
    assert_eq!(PaymentRequest::new(&to, 1, None).memo, None);
}

#[test]
fn lack_of_funds_is_told_from_other_rejections() {
    assert_eq!(INSUFFICIENT_FUNDS_CODE, -6);
    assert_eq!(rejection(-6), PipelineError::InsufficientFunds);
    assert_eq!(rejection(-26), PipelineError::Broadcast);
    assert_eq!(rejection(-5), PipelineError::Broadcast);
    assert_eq!(rejection(-7), PipelineError::Broadcast);
    assert_eq!(rejection(6), PipelineError::Broadcast);
    assert_eq!(rejection(0), PipelineError::Broadcast);
    assert_eq!(rejection(i32::MIN), PipelineError::Broadcast);
}

#[test]
fn accepted_payment_gives_its_transaction_id() {
    assert_eq!(settle(Ok(TXID.to_string())), Ok(TXID.to_string()));
}

#[test]
fn rejected_payment_gives_the_failure_of_its_code() {
    assert_eq!(settle(Err(-6)), Err(PipelineError::InsufficientFunds));
    assert_eq!(settle(Err(-25)), Err(PipelineError::Broadcast));
}

#[test]
fn raw_send_counts_only_when_complete() {
    assert_eq!(broadcast_id(true, TXID.to_string()), Ok(TXID.to_string()));
    assert_eq!(broadcast_id(false, TXID.to_string()), Err(PipelineError::Broadcast));
}
