use txaudit::audit::{
    assemble, audit, classify, fee, funding_reference, last_output_in_role, resolve_reference, role,
    total_output, trace, MoneyFlow, OutputRole,
};
use txaudit::chain::{OutPoint, TxDetails, TxOutput};
use txaudit::error::PipelineError;
use txaudit::record::AuditRecord;

const PAYEE: [u8; 22] = [
    0x00, 0x14, 0x75, 0x1e, 0x76, 0xe8, 0x19, 0x91, 0x96, 0xd4, 0x54, 0x94, 0x1c, 0x45, 0xd1, 0xb3, 0xa3,
    0x23, 0xf1, 0x43, 0x3b, 0xd6,
];

const PAYER: [u8; 22] = [
    0x00, 0x14, 0x11, 0x22, 0x33, 0x44, 0x55, 0x66, 0x77, 0x88, 0x99, 0xaa, 0xbb, 0xcc, 0xdd, 0xee, 0xff,
    0x00, 0x01, 0x02, 0x03, 0x04,
];

const TXID: &str = "4a5e1e4baab89f3a32518a88c31bc87f618f76673e2cc77ab2127b7afdeda33b";
const FUNDING_TXID: &str = "0e3e2357e806b6cdb1f70b54c3a3a17b6714ee1f0e68bebb44a74b1efd512098";
const BLOCK: &str = "000000000019d6689c085ae165831e934ff763ae46a2a6c172b3f1b60a8ce26f";

fn output(value: u64, script: &[u8]) -> TxOutput {
    TxOutput { value, script: script.to_vec() }
}

fn payment(outputs: Vec<TxOutput>, vout: u32) -> TxDetails {
    TxDetails {
        txid: TXID.to_string(),
        inputs: vec![OutPoint { txid: FUNDING_TXID.to_string(), vout }],
        outputs,
        block_hash: Some(BLOCK.to_string()),
    }
}

fn reward() -> Vec<TxOutput> {
    vec![output(5_000_000_000, &PAYER), output(0, &[0x6a])]
}

#[test]
fn audit_of_a_payment_with_change() {
    let tx = payment(vec![output(2_000_000_000, &PAYEE), output(2_999_998_590, &PAYER)], 0);
    let record = audit(&tx, &reward(), &PAYEE.to_vec(), Some(102)).unwrap();
    assert_eq!(
        record,
        AuditRecord {
            txid: TXID.to_string(),
            input_address: "Script(OP_0 OP_PUSHBYTES_20 112233445566778899aabbccddeeff0001020304)"
                .to_string(),
            input_amount: 5_000_000_000,
            payee_address: "Script(OP_0 OP_PUSHBYTES_20 751e76e8199196d454941c45d1b3a323f1433bd6)"
                .to_string(),
            payee_amount: 2_000_000_000,
            change_address: "Script(OP_0 OP_PUSHBYTES_20 112233445566778899aabbccddeeff0001020304)"
                .to_string(),
            change_amount: 2_999_998_590,
            fee: 1_410,
            block_height: 102,
            block_hash: BLOCK.to_string(),
        }
    );
    assert_eq!(record.payee_amount + record.change_amount + record.fee, record.input_amount);
}

#[test]
fn change_before_payee_is_told_apart_by_script() {
    let tx = payment(vec![output(2_999_998_590, &PAYER), output(2_000_000_000, &PAYEE)], 0);
    let flow = trace(&tx, &reward(), &PAYEE.to_vec()).unwrap();
    assert_eq!(
        flow,
        MoneyFlow {
            input_amount: 5_000_000_000,
            payee: Some(1),
            payee_amount: 2_000_000_000,
            change: Some(0),
            change_amount: 2_999_998_590,
            fee: 1_410,
        }
    );
}

#[test]
fn unconfirmed_transaction_is_rejected() {
    let mut tx = payment(vec![output(2_000_000_000, &PAYEE)], 0);
    tx.block_hash = None;
    assert_eq!(audit(&tx, &reward(), &PAYEE.to_vec(), Some(102)), Err(PipelineError::UnconfirmedTransaction));
    assert_eq!(trace(&tx, &reward(), &PAYEE.to_vec()), Err(PipelineError::UnconfirmedTransaction));
    assert_eq!(funding_reference(&tx), Err(PipelineError::UnconfirmedTransaction));
}

#[test]
fn unconfirmed_comes_before_every_other_failure() {
    let tx = TxDetails { txid: TXID.to_string(), inputs: vec![], outputs: vec![], block_hash: None };
    assert_eq!(audit(&tx, &vec![], &PAYEE.to_vec(), None), Err(PipelineError::UnconfirmedTransaction));
}

#[test]
fn transaction_without_inputs_is_malformed() {
    let mut tx = payment(vec![output(2_000_000_000, &PAYEE)], 0);
    tx.inputs = vec![];
    assert_eq!(audit(&tx, &reward(), &PAYEE.to_vec(), Some(102)), Err(PipelineError::MalformedTransaction));
    assert_eq!(trace(&tx, &reward(), &PAYEE.to_vec()), Err(PipelineError::MalformedTransaction));
    assert_eq!(funding_reference(&tx), Err(PipelineError::MalformedTransaction));
    assert_eq!(audit(&tx, &vec![], &PAYEE.to_vec(), None), Err(PipelineError::MalformedTransaction));
}

#[test]
fn reference_past_the_funding_outputs_is_invalid() {
    let tx = payment(vec![output(2_000_000_000, &PAYEE)], 2);
    assert_eq!(audit(&tx, &reward(), &PAYEE.to_vec(), Some(102)), Err(PipelineError::InvalidReference));
    assert_eq!(audit(&tx, &reward(), &PAYEE.to_vec(), None), Err(PipelineError::InvalidReference));
    assert_eq!(trace(&tx, &vec![], &PAYEE.to_vec()), Err(PipelineError::InvalidReference));
    let far = payment(vec![output(2_000_000_000, &PAYEE)], u32::MAX);
    assert_eq!(trace(&far, &reward(), &PAYEE.to_vec()), Err(PipelineError::InvalidReference));
}

#[test]
fn last_funding_output_can_be_spent() {
    let tx = payment(vec![output(0, &PAYEE)], 1);
    let record = audit(&tx, &reward(), &PAYEE.to_vec(), Some(1)).unwrap();
    assert_eq!(record.input_amount, 0);
    assert_eq!(record.input_address, "Script(OP_RETURN)");
    assert_eq!(record.fee, 0);
}

#[test]
fn unknown_block_is_a_lookup_failure() {
    let tx = payment(vec![output(2_000_000_000, &PAYEE), output(2_999_998_590, &PAYER)], 0);
    assert_eq!(audit(&tx, &reward(), &PAYEE.to_vec(), None), Err(PipelineError::BlockLookup));
}

#[test]
fn funding_reference_is_the_first_input() {
    let mut tx = payment(vec![output(1, &PAYEE)], 7);
    tx.inputs.push(OutPoint { txid: TXID.to_string(), vout: 9 });
    let reference = funding_reference(&tx).unwrap();
    assert_eq!(reference, &OutPoint { txid: FUNDING_TXID.to_string(), vout: 7 });
}

#[test]
fn resolving_a_reference_indexes_the_funding_outputs() {
    let funding = reward();
    assert_eq!(resolve_reference(&funding, 0), Ok(&funding[0]));
    assert_eq!(resolve_reference(&funding, 1), Ok(&funding[1]));
    assert_eq!(resolve_reference(&funding, 2), Err(PipelineError::InvalidReference));
    assert_eq!(resolve_reference(&vec![], 0), Err(PipelineError::InvalidReference));
}

#[test]
fn every_output_gets_exactly_one_role() {
    let outputs = vec![
        output(1, &PAYER),
        output(2, &PAYEE),
        output(3, &[]),
        output(4, &PAYEE),
        output(5, &PAYEE[..21]),
    ];
    let roles = classify(&outputs, &PAYEE.to_vec());
    assert_eq!(
        roles,
        vec![OutputRole::Change, OutputRole::Payee, OutputRole::Change, OutputRole::Payee, OutputRole::Change]
    );
    assert_eq!(classify(&vec![], &PAYEE.to_vec()), vec![]);
}

#[test]
fn role_goes_by_exact_script_bytes() {
    let payee = PAYEE.to_vec();
    assert_eq!(role(&output(1, &PAYEE), &payee), OutputRole::Payee);
    assert_eq!(role(&output(1, &PAYER), &payee), OutputRole::Change);
    let mut longer = PAYEE.to_vec();
    longer.push(0);
    assert_eq!(role(&output(1, &longer), &payee), OutputRole::Change);
    let mut flipped = PAYEE.to_vec();
    flipped[21] ^= 1;
    assert_eq!(role(&output(1, &flipped), &payee), OutputRole::Change);
    assert_eq!(role(&output(1, &[]), &vec![]), OutputRole::Payee);
}

#[test]
fn of_two_outputs_the_one_that_is_not_the_payee_is_change() {
    let payee = PAYEE.to_vec();
    let first = vec![output(20, &PAYEE), output(30, &PAYER)];
    assert_eq!(last_output_in_role(&first, &payee, OutputRole::Payee), Some(0));
    assert_eq!(last_output_in_role(&first, &payee, OutputRole::Change), Some(1));
    let second = vec![output(30, &PAYER), output(20, &PAYEE)];
    assert_eq!(last_output_in_role(&second, &payee, OutputRole::Payee), Some(1));
    assert_eq!(last_output_in_role(&second, &payee, OutputRole::Change), Some(0));
}

#[test]
fn of_several_change_outputs_the_last_is_recorded() {
    let tx = payment(vec![output(20, &PAYEE), output(30, &PAYER), output(40, &[0x51])], 0);
    let record = audit(&tx, &reward(), &PAYEE.to_vec(), Some(5)).unwrap();
    assert_eq!(record.payee_amount, 20);
    assert_eq!(record.change_amount, 40);
    assert_eq!(record.change_address, "Script(OP_PUSHNUM_1)");
    assert_eq!(record.fee, 5_000_000_000 - 90);
    assert_ne!(record.payee_amount + record.change_amount + record.fee, record.input_amount);
}

#[test]
fn of_several_payee_outputs_the_last_is_recorded() {
    let tx = payment(vec![output(20, &PAYEE), output(30, &PAYEE)], 0);
    let flow = trace(&tx, &reward(), &PAYEE.to_vec()).unwrap();
    assert_eq!(flow.payee, Some(1));
    assert_eq!(flow.payee_amount, 30);
    assert_eq!(flow.change, None);
    assert_eq!(flow.change_amount, 0);
}

#[test]
fn payment_without_change_leaves_the_change_fields_empty() {
    let tx = payment(vec![output(4_999_999_000, &PAYEE)], 0);
    let record = audit(&tx, &reward(), &PAYEE.to_vec(), Some(5)).unwrap();
    assert_eq!(record.change_address, "");
    assert_eq!(record.change_amount, 0);
    assert_eq!(record.fee, 1_000);
    assert_eq!(record.payee_amount + record.change_amount + record.fee, record.input_amount);
}

#[test]
fn transaction_without_outputs_pays_everything_as_fee() {
    let tx = payment(vec![], 0);
    let record = audit(&tx, &reward(), &PAYEE.to_vec(), Some(5)).unwrap();
    assert_eq!(record.payee_address, "");
    assert_eq!(record.payee_amount, 0);
    assert_eq!(record.change_address, "");
    assert_eq!(record.change_amount, 0);
    assert_eq!(record.fee, 5_000_000_000);
}

#[test]
fn fee_is_floored_at_zero() {
    let outputs = vec![output(3_000_000_000, &PAYEE), output(3_000_000_000, &PAYER)];
    assert_eq!(fee(5_000_000_000, &outputs), 0);
    assert_eq!(fee(6_000_000_000, &outputs), 0);
    assert_eq!(fee(6_000_000_001, &outputs), 1);
    assert_eq!(fee(0, &vec![]), 0);
    assert_eq!(fee(17, &vec![]), 17);
}

#[test]
fn outputs_beyond_sixty_four_bits_are_summed_exactly() {
    let outputs = vec![output(u64::MAX, &PAYEE), output(u64::MAX, &PAYER), output(2, &PAYER)];
    assert_eq!(total_output(&outputs), 2 * (u64::MAX as u128) + 2);
    assert_eq!(fee(u64::MAX, &outputs), 0);
    assert_eq!(total_output(&vec![]), 0);
}

#[test]
fn assembling_keeps_every_field_in_its_place() {
    let flow = MoneyFlow {
        input_amount: 50,
        payee: Some(0),
        payee_amount: 20,
        change: Some(1),
        change_amount: 29,
        fee: 1,
    };
    let record = assemble(
        &"id".to_string(),
        &flow,
        "from".to_string(),
        "to".to_string(),
        "back".to_string(),
        7,
        &"hash".to_string(),
    );
    assert_eq!(
        record,
        AuditRecord {
            txid: "id".to_string(),
            input_address: "from".to_string(),
            input_amount: 50,
            payee_address: "to".to_string(),
            payee_amount: 20,
            change_address: "back".to_string(),
            change_amount: 29,
            fee: 1,
            block_height: 7,
            block_hash: "hash".to_string(),
        }
    );
}

#[test]
fn broken_scripts_are_still_written() {
    let funding = vec![output(10, &[0x05, 0x01])];
    let tx = payment(
        vec![output(1, &[0x4c]), output(2, &[0x4e, 0xff, 0xff, 0xff, 0xff]), output(3, &[])],
        0,
    );
    let record = audit(&tx, &funding, &vec![0x4c], Some(1)).unwrap();
    assert_eq!(record.input_address, "Script(OP_PUSHBYTES_5 <push past end>)");
    assert_eq!(record.payee_address, "Script(<unexpected end>)");
    assert_eq!(record.change_address, "Script()");
    let tx = payment(vec![output(2, &[0x4e, 0xff, 0xff, 0xff, 0xff])], 0);
    let record = audit(&tx, &funding, &vec![], Some(1)).unwrap();
    assert_eq!(record.change_address, "Script(OP_PUSHDATA4 <push past end>)");
    assert_eq!(record.payee_address, "");
}

#[test]
fn every_single_byte_script_can_be_written() {
    for byte in 0u8..=255 {
        let tx = payment(vec![output(1, &[byte])], 0);
        let record = audit(&tx, &reward(), &vec![byte], Some(1)).unwrap();
        assert!(record.payee_address.starts_with("Script("));
        assert!(record.payee_address.ends_with(')'));
    }
}
