use txaudit::audit::audit;
use txaudit::chain::{OutPoint, TxDetails, TxOutput};
use txaudit::config::Config;
use txaudit::confirmation::{confirming_block, in_mempool, mempool_status, MempoolEntry, MempoolStatus};
use txaudit::maturation::{Maturation, Phase};
use txaudit::payment::{settle, PaymentRequest};
use txaudit::wallet::{created, ensure, EnsureStep};

const TXID: &str = "4a5e1e4baab89f3a32518a88c31bc87f618f76673e2cc77ab2127b7afdeda33b";
const COINBASE: &str = "0e3e2357e806b6cdb1f70b54c3a3a17b6714ee1f0e68bebb44a74b1efd512098";
const BLOCK: &str = "000000000019d6689c085ae165831e934ff763ae46a2a6c172b3f1b60a8ce26f";

#[test]
fn whole_run_from_a_fresh_chain() {
    let config = Config::regtest();
    assert!(config.is_sound());
    let mut height: u64 = 0;

    let mut known: Vec<String> = Vec::new();
    let mut handles = Vec::new();
    for name in [&config.payer_wallet, &config.payee_wallet] {
        let handle = match ensure(&config.endpoint, &known, name) {
            EnsureStep::Ready(handle) => handle,
            EnsureStep::Create => {
                known.push(name.clone());
                created(&config.endpoint, name, true).unwrap()
            }
        };
        handles.push(handle);
    }
    assert_eq!(known, vec!["Miner".to_string(), "Trader".to_string()]);

    let miner_script = vec![0x00, 0x14, 0x01, 0x02, 0x03];
    let mut state = Maturation::begin(config.max_attempts);
    while state.must_mine() {
        height += 1;
        let balance = if height > 100 { 5_000_000_000 } else { 0 };
        state = state.observe(balance);
    }
    assert_eq!(state.phase, Phase::Matured);
    assert_eq!(state.outcome(), Some(Ok(101)));
    assert_eq!(height, 101);

    let trader_script = bitcoin::ScriptBuf::from_bytes(vec![
        0x00, 0x14, 0x75, 0x1e, 0x76, 0xe8, 0x19, 0x91, 0x96, 0xd4, 0x54, 0x94, 0x1c, 0x45, 0xd1, 0xb3,
        0xa3, 0x23, 0xf1, 0x43, 0x3b, 0xd6,
    ]);
    let text = bitcoin::Address::from_script(&trader_script, bitcoin::Network::Regtest).unwrap().to_string();
    let to = handles[1].address(text, Some(config.receive_label.clone()), config.network).unwrap();
    let request = PaymentRequest::new(&to, config.amount, Some(config.memo.clone()));
    assert_eq!(request.amount, 2_000_000_000);
    let txid = settle(Ok(TXID.to_string())).unwrap();

    let pool = vec![txid.clone()];
    assert!(in_mempool(&pool, &txid));
    let seen = MempoolEntry { size: 141, fee: 1_410, ancestor_count: 1 };
    assert_eq!(mempool_status(&pool, &txid, Some(seen)), MempoolStatus::Pending(seen));

    height += 1;
    let block = confirming_block(&vec![BLOCK.to_string()]).unwrap();

    let tx = TxDetails {
        txid: txid.clone(),
        inputs: vec![OutPoint { txid: COINBASE.to_string(), vout: 0 }],
        outputs: vec![
            TxOutput { value: 2_999_998_590, script: miner_script.clone() },
            TxOutput { value: request.amount, script: to.script().clone() },
        ],
        block_hash: Some(block.hash.clone()),
    };
    let funding = vec![TxOutput { value: 5_000_000_000, script: miner_script }];
    let record = audit(&tx, &funding, to.script(), Some(height)).unwrap();

    assert_eq!(record.payee_amount, 2_000_000_000);
    assert_eq!(record.block_height, 102);
    assert!(record.fee > 0 && record.fee < 100_000);
    assert_eq!(record.payee_amount + record.change_amount + record.fee, record.input_amount);
    let lines = record.lines();
    assert_eq!(lines[0], TXID);
    assert_eq!(lines[2], "50.00000000");
    assert_eq!(lines[4], "20.00000000");
    assert_eq!(lines[6], "29.99998590");
    assert_eq!(lines[7], "0.00001410");
    assert_eq!(lines[8], "102");
    assert_eq!(lines[9], BLOCK);
}
