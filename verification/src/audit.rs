//! Reading a confirmed transaction back into the flow of money it made.

use vstd::prelude::*;
use crate::chain::{output_views, OutPoint, OutPointView, TxDetails, TxDetailsView, TxOutput, TxOutputView};
use crate::error::PipelineError;
use crate::record::{AuditRecord, AuditRecordView};
use crate::script::{debug_script, script_repr};
use crate::text::same_bytes;

verus! {

/// What an output of the audited transaction is to the payment.
#[derive(Clone, Copy, Debug, PartialEq, Eq, Structural)]
pub enum OutputRole {
    /// It pays the payee.
    Payee,
    /// It returns what is left to the payer.
    Change,
}

/// The role of an output: it pays the payee where its script is the payee's,
/// byte for byte, and is change otherwise.
pub open spec fn role_of(output: TxOutputView, payee_script: Seq<u8>) -> OutputRole {
    if output.script == payee_script {
        OutputRole::Payee
    } else {
        OutputRole::Change
    }
}

/// The role of each output, in order.
pub open spec fn roles_of(outputs: Seq<TxOutputView>, payee_script: Seq<u8>) -> Seq<OutputRole> {
    outputs.map_values(|o: TxOutputView| role_of(o, payee_script))
}

/// The position of the last output that has the role, if one has it.
pub open spec fn last_in_role(
    outputs: Seq<TxOutputView>,
    payee_script: Seq<u8>,
    role: OutputRole,
) -> Option<int>
    decreases outputs.len(),
{
    if outputs.len() == 0 {
        None
    } else if role_of(outputs.last(), payee_script) == role {
        Some(outputs.len() - 1)
    } else {
        last_in_role(outputs.drop_last(), payee_script, role)
    }
}

/// The amount recorded for a role: that of the last output that has it, and
/// zero where none has.
pub open spec fn amount_in_role(
    outputs: Seq<TxOutputView>,
    payee_script: Seq<u8>,
    role: OutputRole,
) -> u64 {
    match last_in_role(outputs, payee_script, role) {
        Some(i) => outputs[i].value,
        None => 0,
    }
}

/// The sum of the amounts of all outputs.
pub open spec fn total_value(outputs: Seq<TxOutputView>) -> nat
    decreases outputs.len(),
{
    if outputs.len() == 0 {
        0
    } else {
        total_value(outputs.drop_last()) + outputs.last().value as nat
    }
}

/// The fee: what the spent amount exceeds the outputs by, and zero where it
/// does not exceed them.
pub open spec fn fee_of(input_amount: u64, outputs: Seq<TxOutputView>) -> u64 {
    if input_amount >= total_value(outputs) {
        (input_amount - total_value(outputs)) as u64
    } else {
        0
    }
}

/// What `last_in_role` finds is the greatest position at which an output has
/// the role; it finds nothing exactly where no output has it.
pub proof fn lemma_last_in_role(outputs: Seq<TxOutputView>, payee_script: Seq<u8>, role: OutputRole)
    ensures
        match last_in_role(outputs, payee_script, role) {
            Some(i) => {
                &&& 0 <= i < outputs.len()
                &&& role_of(outputs[i], payee_script) == role
                &&& forall|j: int| i < j < outputs.len() ==> role_of(#[trigger] outputs[j], payee_script) != role
            },
            None => forall|j: int|
                0 <= j < outputs.len() ==> role_of(#[trigger] outputs[j], payee_script) != role,
        },
    decreases outputs.len(),
{
    if outputs.len() > 0 && role_of(outputs.last(), payee_script) != role {
        let rest = outputs.drop_last();
        lemma_last_in_role(rest, payee_script, role);
        assert forall|j: int| 0 <= j < rest.len() implies rest[j] == outputs[j] by {}
        match last_in_role(rest, payee_script, role) {
            Some(i) => {
                assert forall|j: int| i < j < outputs.len() implies role_of(
                    #[trigger] outputs[j],
                    payee_script,
                ) != role by {
                    if j < rest.len() {
                        assert(rest[j] == outputs[j]);
                    }
                }
            },
            None => {
                assert forall|j: int| 0 <= j < outputs.len() implies role_of(
                    #[trigger] outputs[j],
                    payee_script,
                ) != role by {
                    if j < rest.len() {
                        assert(rest[j] == outputs[j]);
                    }
                }
            },
        }
    }
}

/// What the outputs hold beyond the two recorded amounts: the amounts of the
/// outputs that a later one in the same role put out of the record.
pub open spec fn overlooked(outputs: Seq<TxOutputView>, payee_script: Seq<u8>) -> int {
    total_value(outputs) - amount_in_role(outputs, payee_script, OutputRole::Payee) - amount_in_role(
        outputs,
        payee_script,
        OutputRole::Change,
    )
}

/// What the outputs come to beyond the spent amount; zero where the spent
/// amount covers them.
pub open spec fn excess(input_amount: u64, outputs: Seq<TxOutputView>) -> int {
    if total_value(outputs) > input_amount {
        total_value(outputs) - input_amount
    } else {
        0
    }
}

/// No two outputs have the same role: there is at most one payee output and
/// at most one change output.
pub open spec fn one_of_each(outputs: Seq<TxOutputView>, payee_script: Seq<u8>) -> bool {
    forall|i: int, j: int|
        0 <= i < j < outputs.len() ==> role_of(#[trigger] outputs[i], payee_script) != role_of(
            #[trigger] outputs[j],
            payee_script,
        )
}

/// Every output has exactly one role, and it is the payee's role exactly
/// where the script is the payee's.
pub proof fn lemma_role_is_total(output: TxOutputView, payee_script: Seq<u8>)
    ensures
        (role_of(output, payee_script) == OutputRole::Payee) != (role_of(output, payee_script)
            == OutputRole::Change),
        role_of(output, payee_script) == OutputRole::Payee <==> output.script == payee_script,
{
}

/// Of two outputs of which exactly one pays the payee, that one is recorded
/// as the payee output and the other as the change output.
pub proof fn lemma_two_outputs(outputs: Seq<TxOutputView>, payee_script: Seq<u8>, i: int)
    requires
        outputs.len() == 2,
        0 <= i < 2,
        outputs[i].script == payee_script,
        outputs[1 - i].script != payee_script,
    ensures
        last_in_role(outputs, payee_script, OutputRole::Payee) == Some(i),
        last_in_role(outputs, payee_script, OutputRole::Change) == Some(1 - i),
        role_of(outputs[1 - i], payee_script) == OutputRole::Change,
{
    lemma_last_in_role(outputs, payee_script, OutputRole::Payee);
    lemma_last_in_role(outputs, payee_script, OutputRole::Change);
    assert(role_of(outputs[i], payee_script) == OutputRole::Payee);
    assert(role_of(outputs[1 - i], payee_script) == OutputRole::Change);
}

/// The two recorded amounts never come to more than all outputs together.
pub proof fn lemma_recorded_within_total(outputs: Seq<TxOutputView>, payee_script: Seq<u8>)
    ensures
        overlooked(outputs, payee_script) >= 0,
        amount_in_role(outputs, payee_script, OutputRole::Payee) <= total_value(outputs),
        amount_in_role(outputs, payee_script, OutputRole::Change) <= total_value(outputs),
    decreases outputs.len(),
{
    if outputs.len() > 0 {
        let rest = outputs.drop_last();
        lemma_recorded_within_total(rest, payee_script);
        lemma_last_in_role(rest, payee_script, OutputRole::Payee);
        lemma_last_in_role(rest, payee_script, OutputRole::Change);
        if role_of(outputs.last(), payee_script) == OutputRole::Payee {
            assert(amount_in_role(outputs, payee_script, OutputRole::Payee) == outputs.last().value);
            assert(last_in_role(outputs, payee_script, OutputRole::Change) == last_in_role(
                rest,
                payee_script,
                OutputRole::Change,
            ));
            if let Some(i) = last_in_role(rest, payee_script, OutputRole::Change) {
                assert(rest[i] == outputs[i]);
            }
        } else {
            assert(amount_in_role(outputs, payee_script, OutputRole::Change) == outputs.last().value);
            assert(last_in_role(outputs, payee_script, OutputRole::Payee) == last_in_role(
                rest,
                payee_script,
                OutputRole::Payee,
            ));
            if let Some(i) = last_in_role(rest, payee_script, OutputRole::Payee) {
                assert(rest[i] == outputs[i]);
            }
        }
    }
}

/// The fee is never negative and never more than what was spent, and with
/// the outputs it comes to what was spent wherever that covers the outputs.
pub proof fn lemma_fee_bounds(input_amount: u64, outputs: Seq<TxOutputView>)
    ensures
        0 <= fee_of(input_amount, outputs) <= input_amount,
        total_value(outputs) <= input_amount ==> total_value(outputs) + fee_of(input_amount, outputs)
            == input_amount,
        total_value(outputs) > input_amount ==> fee_of(input_amount, outputs) == 0,
{
}

/// Conservation of funds: payee amount, change amount and fee come to the
/// spent amount on exactly the transactions where what the record overlooks
/// is what the outputs exceed the spent amount by.
pub proof fn lemma_funds_conserved(input_amount: u64, outputs: Seq<TxOutputView>, payee_script: Seq<u8>)
    ensures
        (amount_in_role(outputs, payee_script, OutputRole::Payee) + amount_in_role(
            outputs,
            payee_script,
            OutputRole::Change,
        ) + fee_of(input_amount, outputs) == input_amount) <==> overlooked(outputs, payee_script)
            == excess(input_amount, outputs),
{
    lemma_recorded_within_total(outputs, payee_script);
}

/// With at most one payee output and at most one change output, nothing is
/// overlooked: the two recorded amounts are all that the outputs hold.
pub proof fn lemma_one_of_each_overlooks_nothing(outputs: Seq<TxOutputView>, payee_script: Seq<u8>)
    requires
        one_of_each(outputs, payee_script),
    ensures
        outputs.len() <= 2,
        overlooked(outputs, payee_script) == 0,
{
    if outputs.len() >= 3 {
        let a = role_of(outputs[0], payee_script);
        let b = role_of(outputs[1], payee_script);
        let c = role_of(outputs[2], payee_script);
        assert(a != b && a != c && b != c);
        assert(false);
    }
    reveal_with_fuel(total_value, 3);
    reveal_with_fuel(last_in_role, 3);
    if outputs.len() == 2 {
        assert(outputs.drop_last().last() == outputs[0]);
        assert(role_of(outputs[0], payee_script) != role_of(outputs[1], payee_script));
    }
}

/// Conservation of funds in the expected case: where the spent amount covers
/// the outputs and no two outputs share a role, payee amount, change amount
/// and fee come to exactly the spent amount.
pub proof fn lemma_funds_conserved_one_of_each(
    input_amount: u64,
    outputs: Seq<TxOutputView>,
    payee_script: Seq<u8>,
)
    requires
        one_of_each(outputs, payee_script),
        total_value(outputs) <= input_amount,
    ensures
        amount_in_role(outputs, payee_script, OutputRole::Payee) + amount_in_role(
            outputs,
            payee_script,
            OutputRole::Change,
        ) + fee_of(input_amount, outputs) == input_amount,
{
    lemma_one_of_each_overlooks_nothing(outputs, payee_script);
    lemma_funds_conserved(input_amount, outputs, payee_script);
}

/// The role of one output.
pub fn role(output: &TxOutput, payee_script: &Vec<u8>) -> (r: OutputRole)
    ensures
        r == role_of(output@, payee_script@),
{
    if same_bytes(&output.script, payee_script) {
        OutputRole::Payee
    } else {
        OutputRole::Change
    }
}

/// Gives every output its role, in order.
pub fn classify(outputs: &Vec<TxOutput>, payee_script: &Vec<u8>) -> (roles: Vec<OutputRole>)
    ensures
        roles@ == roles_of(output_views(outputs@), payee_script@),
{
    let mut roles: Vec<OutputRole> = Vec::new();
    let mut i: usize = 0;
    while i < outputs.len()
        invariant
            i <= outputs.len(),
            roles@.len() == i,
            forall|j: int| 0 <= j < i ==> roles@[j] == role_of(outputs@[j]@, payee_script@),
        decreases outputs.len() - i,
    {
        roles.push(role(&outputs[i], payee_script));
        i += 1;
    }
    assert(roles@ =~= roles_of(output_views(outputs@), payee_script@));
    roles
}

/// The position of the last output that has the role.
pub fn last_output_in_role(
    outputs: &Vec<TxOutput>,
    payee_script: &Vec<u8>,
    wanted: OutputRole,
) -> (found: Option<usize>)
    ensures
        match found {
            Some(i) => i < outputs@.len() && last_in_role(output_views(outputs@), payee_script@, wanted)
                == Some(i as int),
            None => last_in_role(output_views(outputs@), payee_script@, wanted) is None,
        },
{
    let ghost all = output_views(outputs@);
    let mut found: Option<usize> = None;
    let mut i: usize = 0;
    while i < outputs.len()
        invariant
            i <= outputs.len(),
            all == output_views(outputs@),
            match found {
                Some(k) => last_in_role(all.take(i as int), payee_script@, wanted) == Some(k as int),
                None => last_in_role(all.take(i as int), payee_script@, wanted) is None,
            },
        decreases outputs.len() - i,
    {
        assert(all.take(i + 1).drop_last() =~= all.take(i as int));
        assert(all.take(i + 1).last() == outputs@[i as int]@);
        if role(&outputs[i], payee_script) == wanted {
            found = Some(i);
        }
        i += 1;
    }
    assert(all.take(i as int) =~= all);
    proof {
        lemma_last_in_role(all, payee_script@, wanted);
    }
    found
}

/// The sum of the amounts of all outputs.
pub fn total_output(outputs: &Vec<TxOutput>) -> (total: u128)
    ensures
        total == total_value(output_views(outputs@)),
{
    let ghost all = output_views(outputs@);
    let mut total: u128 = 0;
    let mut i: usize = 0;
    while i < outputs.len()
        invariant
            i <= outputs.len(),
            all == output_views(outputs@),
            total == total_value(all.take(i as int)),
            total <= i * u64::MAX,
        decreases outputs.len() - i,
    {
        assert(all.take(i + 1).drop_last() =~= all.take(i as int));
        assert(all.take(i + 1).last() == outputs@[i as int]@);
        total = total + outputs[i].value as u128;
        i += 1;
    }
    assert(all.take(i as int) =~= all);
    total
}

/// The fee that a transaction paid: the spent amount less the sum of its
/// outputs, and zero where the outputs come to more.
pub fn fee(input_amount: u64, outputs: &Vec<TxOutput>) -> (paid: u64)
    ensures
        paid == fee_of(input_amount, output_views(outputs@)),
{
    let total = total_output(outputs);
    if input_amount as u128 >= total {
        (input_amount as u128 - total) as u64
    } else {
        0
    }
}

/// The flow of money through a payment: what was spent, what went to the
/// payee, what came back as change and what was paid as fee, in satoshis.
#[derive(Clone, Copy, Debug, PartialEq, Eq, Structural)]
pub struct MoneyFlow {
    /// The amount of the output that the first input spends.
    pub input_amount: u64,
    /// The position of the payee output, if there is one.
    pub payee: Option<usize>,
    /// The amount of the payee output, zero without one.
    pub payee_amount: u64,
    /// The position of the change output, if there is one.
    pub change: Option<usize>,
    /// The amount of the change output, zero without one.
    pub change_amount: u64,
    /// The fee.
    pub fee: u64,
}

/// A position among the outputs as the flow holds it.
pub open spec fn position(found: Option<int>) -> Option<usize> {
    match found {
        Some(i) => Some(i as usize),
        None => None,
    }
}

/// The first input's reference, or why the transaction cannot be audited:
/// it is in no block, or it is in one and spends nothing.
pub open spec fn reference_of(tx: TxDetailsView) -> Result<OutPointView, PipelineError> {
    if tx.block_hash is None {
        Err(PipelineError::UnconfirmedTransaction)
    } else if tx.inputs.len() == 0 {
        Err(PipelineError::MalformedTransaction)
    } else {
        Ok(tx.inputs[0])
    }
}

/// The output at position `vout` of the funding transaction, or the failure
/// where it has no such output.
pub open spec fn spent_output(funding: Seq<TxOutputView>, vout: u32) -> Result<
    TxOutputView,
    PipelineError,
> {
    if vout < funding.len() {
        Ok(funding[vout as int])
    } else {
        Err(PipelineError::InvalidReference)
    }
}

/// The flow of money through `tx`, given the outputs of the transaction that
/// its first input spends from and the script of the payee.
pub open spec fn flow_of(tx: TxDetailsView, funding: Seq<TxOutputView>, payee_script: Seq<u8>) -> Result<
    MoneyFlow,
    PipelineError,
> {
    match reference_of(tx) {
        Err(e) => Err(e),
        Ok(reference) => match spent_output(funding, reference.vout) {
            Err(e) => Err(e),
            Ok(spent) => Ok(
                MoneyFlow {
                    input_amount: spent.value,
                    payee: position(last_in_role(tx.outputs, payee_script, OutputRole::Payee)),
                    payee_amount: amount_in_role(tx.outputs, payee_script, OutputRole::Payee),
                    change: position(last_in_role(tx.outputs, payee_script, OutputRole::Change)),
                    change_amount: amount_in_role(tx.outputs, payee_script, OutputRole::Change),
                    fee: fee_of(spent.value, tx.outputs),
                },
            ),
        },
    }
}

/// Decides whether a transaction can be audited, and which output has to be
/// looked up for it: the one that its first input spends.
///
/// A transaction in no block is unconfirmed, whatever else holds of it; one
/// in a block that spends nothing is malformed.
pub fn funding_reference(tx: &TxDetails) -> (r: Result<&OutPoint, PipelineError>)
    ensures
        match r {
            Ok(reference) => reference_of(tx@) == Ok::<OutPointView, PipelineError>(reference@),
            Err(e) => reference_of(tx@) == Err::<OutPointView, PipelineError>(e),
        },
{
    if tx.block_hash.is_none() {
        Err(PipelineError::UnconfirmedTransaction)
    } else if tx.inputs.len() == 0 {
        Err(PipelineError::MalformedTransaction)
    } else {
        Ok(&tx.inputs[0])
    }
}

/// Looks up the output at position `vout` among those of the funding
/// transaction.
pub fn resolve_reference(funding: &Vec<TxOutput>, vout: u32) -> (r: Result<&TxOutput, PipelineError>)
    ensures
        match r {
            Ok(spent) => spent_output(output_views(funding@), vout) == Ok::<TxOutputView, PipelineError>(
                spent@,
            ) && (vout as int) < funding@.len() && *spent == funding@[vout as int],
            Err(e) => spent_output(output_views(funding@), vout) == Err::<TxOutputView, PipelineError>(e),
        },
{
    if (vout as usize) < funding.len() {
        Ok(&funding[vout as usize])
    } else {
        Err(PipelineError::InvalidReference)
    }
}

/// Reconstructs the flow of money through a confirmed transaction.
///
/// `funding` holds the outputs of the transaction that the first input of
/// `tx` spends from. Every output of `tx` whose script is `payee_script` pays
/// the payee, every other one is change; of several in one role the last is
/// recorded.
pub fn trace(tx: &TxDetails, funding: &Vec<TxOutput>, payee_script: &Vec<u8>) -> (r: Result<
    MoneyFlow,
    PipelineError,
>)
    ensures
        r == flow_of(tx@, output_views(funding@), payee_script@),
        tx.block_hash is None ==> r == Err::<MoneyFlow, PipelineError>(PipelineError::UnconfirmedTransaction),
        tx.block_hash is Some && tx.inputs@.len() == 0 ==> r == Err::<MoneyFlow, PipelineError>(
            PipelineError::MalformedTransaction,
        ),
{
    let reference = match funding_reference(tx) {
        Ok(reference) => reference,
        Err(e) => {
            return Err(e);
        },
    };
    let spent = match resolve_reference(funding, reference.vout) {
        Ok(spent) => spent,
        Err(e) => {
            return Err(e);
        },
    };
    let payee = last_output_in_role(&tx.outputs, payee_script, OutputRole::Payee);
    let change = last_output_in_role(&tx.outputs, payee_script, OutputRole::Change);
    let payee_amount = match payee {
        Some(i) => tx.outputs[i].value,
        None => 0,
    };
    let change_amount = match change {
        Some(i) => tx.outputs[i].value,
        None => 0,
    };
    Ok(
        MoneyFlow {
            input_amount: spent.value,
            payee,
            payee_amount,
            change,
            change_amount,
            fee: fee(spent.value, &tx.outputs),
        },
    )
}

/// The text recorded for a role: that of the script of the last output that
/// has it, and nothing where none has.
pub open spec fn address_in_role(
    outputs: Seq<TxOutputView>,
    payee_script: Seq<u8>,
    role: OutputRole,
) -> Seq<char> {
    match last_in_role(outputs, payee_script, role) {
        Some(i) => script_repr(outputs[i].script),
        None => Seq::empty(),
    }
}

/// What an audit of `tx` gives: the first failure in the order unconfirmed,
/// malformed, invalid reference, unknown block; else the record.
pub open spec fn audit_of(
    tx: TxDetailsView,
    funding: Seq<TxOutputView>,
    payee_script: Seq<u8>,
    block_height: Option<u64>,
) -> Result<AuditRecordView, PipelineError> {
    match flow_of(tx, funding, payee_script) {
        Err(e) => Err(e),
        Ok(flow) => match block_height {
            None => Err(PipelineError::BlockLookup),
            Some(height) => Ok(
                AuditRecordView {
                    txid: tx.txid,
                    input_address: script_repr(funding[tx.inputs[0].vout as int].script),
                    input_amount: flow.input_amount,
                    payee_address: address_in_role(tx.outputs, payee_script, OutputRole::Payee),
                    payee_amount: flow.payee_amount,
                    change_address: address_in_role(tx.outputs, payee_script, OutputRole::Change),
                    change_amount: flow.change_amount,
                    fee: flow.fee,
                    block_height: height,
                    block_hash: tx.block_hash->0,
                },
            ),
        },
    }
}

/// Puts a record together from the flow and from what is recorded beside it.
pub fn assemble(
    txid: &String,
    flow: &MoneyFlow,
    input_address: String,
    payee_address: String,
    change_address: String,
    block_height: u64,
    block_hash: &String,
) -> (record: AuditRecord)
    ensures
        record@ == (AuditRecordView {
            txid: txid@,
            input_address: input_address@,
            input_amount: flow.input_amount,
            payee_address: payee_address@,
            payee_amount: flow.payee_amount,
            change_address: change_address@,
            change_amount: flow.change_amount,
            fee: flow.fee,
            block_height,
            block_hash: block_hash@,
        }),
{
    AuditRecord {
        txid: txid.clone(),
        input_address,
        input_amount: flow.input_amount,
        payee_address,
        payee_amount: flow.payee_amount,
        change_address,
        change_amount: flow.change_amount,
        fee: flow.fee,
        block_height,
        block_hash: block_hash.clone(),
    }
}

fn address_at(outputs: &Vec<TxOutput>, found: Option<usize>) -> (text: String)
    requires
        found matches Some(i) ==> i < outputs@.len(),
    ensures
        text@ == match found {
            Some(i) => script_repr(outputs@[i as int]@.script),
            None => Seq::empty(),
        },
{
    match found {
        Some(i) => debug_script(&outputs[i].script),
        None => String::new(),
    }
}

/// Audits a transaction: reconstructs where its money came from and went,
/// and in which block it was confirmed.
///
/// `funding` holds the outputs of the transaction that the first input of
/// `tx` spends from, `payee_script` the script of the payee, and
/// `block_height` the height of the block that `tx` names, or nothing where
/// the node does not know that block. Either the whole record comes back or
/// a failure; the failures come in the order unconfirmed, malformed, invalid
/// reference, unknown block.
pub fn audit(
    tx: &TxDetails,
    funding: &Vec<TxOutput>,
    payee_script: &Vec<u8>,
    block_height: Option<u64>,
) -> (r: Result<AuditRecord, PipelineError>)
    ensures
        match r {
            Ok(record) => audit_of(tx@, output_views(funding@), payee_script@, block_height) == Ok::<
                AuditRecordView,
                PipelineError,
            >(record@),
            Err(e) => audit_of(tx@, output_views(funding@), payee_script@, block_height) == Err::<
                AuditRecordView,
                PipelineError,
            >(e),
        },
        tx.block_hash is None ==> r == Err::<AuditRecord, PipelineError>(
            PipelineError::UnconfirmedTransaction,
        ),
        tx.block_hash is Some && tx.inputs@.len() == 0 ==> r == Err::<AuditRecord, PipelineError>(
            PipelineError::MalformedTransaction,
        ),
{
    let flow = match trace(tx, funding, payee_script) {
        Ok(flow) => flow,
        Err(e) => {
            return Err(e);
        },
    };
    let height = match block_height {
        Some(height) => height,
        None => {
            return Err(PipelineError::BlockLookup);
        },
    };
    let block_hash = match &tx.block_hash {
        Some(hash) => hash,
        None => {
            return Err(PipelineError::UnconfirmedTransaction);
        },
    };
    proof {
        lemma_last_in_role(output_views(tx.outputs@), payee_script@, OutputRole::Payee);
        lemma_last_in_role(output_views(tx.outputs@), payee_script@, OutputRole::Change);
    }
    let spent = &funding[tx.inputs[0].vout as usize];
    let input_address = debug_script(&spent.script);
    let payee_address = address_at(&tx.outputs, flow.payee);
    let change_address = address_at(&tx.outputs, flow.change);
    proof {
        let outputs = output_views(tx.outputs@);
        assert(tx@.inputs[0].vout == tx.inputs@[0].vout);
        assert(output_views(funding@)[tx.inputs@[0].vout as int].script == spent.script@);
        assert(input_address@ == script_repr(output_views(funding@)[tx@.inputs[0].vout as int].script));
        assert(outputs.len() == tx.outputs.len());
        assert(payee_address@ == address_in_role(outputs, payee_script@, OutputRole::Payee)) by {
            if let Some(i) = last_in_role(outputs, payee_script@, OutputRole::Payee) {
                assert(flow.payee == Some(i as usize) && i as usize == i);
                assert(outputs[i] == tx.outputs@[i]@);
            }
        }
        assert(change_address@ == address_in_role(outputs, payee_script@, OutputRole::Change)) by {
            if let Some(i) = last_in_role(outputs, payee_script@, OutputRole::Change) {
                assert(flow.change == Some(i as usize) && i as usize == i);
                assert(outputs[i] == tx.outputs@[i]@);
            }
        }
        assert(tx@.block_hash == Some(block_hash@));
    }
    Ok(assemble(&tx.txid, &flow, input_address, payee_address, change_address, height, block_hash))
}

/// Of an audit that gives a record: the fee is what the spent amount exceeds
/// the outputs by, never negative; the record conserves funds on exactly the
/// transactions where what it overlooks is what the outputs exceed the spent
/// amount by; and it does so wherever the spent amount covers the outputs and
/// no two outputs share a role.
pub proof fn lemma_audit_conserves(
    tx: TxDetailsView,
    funding: Seq<TxOutputView>,
    payee_script: Seq<u8>,
    block_height: Option<u64>,
    record: AuditRecordView,
)
    requires
        audit_of(tx, funding, payee_script, block_height) == Ok::<AuditRecordView, PipelineError>(record),
    ensures
        0 <= record.fee <= record.input_amount,
        record.fee == fee_of(record.input_amount, tx.outputs),
        (record.payee_amount + record.change_amount + record.fee == record.input_amount) <==> overlooked(
            tx.outputs,
            payee_script,
        ) == excess(record.input_amount, tx.outputs),
        one_of_each(tx.outputs, payee_script) && total_value(tx.outputs) <= record.input_amount
            ==> record.payee_amount + record.change_amount + record.fee == record.input_amount,
{
    lemma_funds_conserved(record.input_amount, tx.outputs, payee_script);
    if one_of_each(tx.outputs, payee_script) {
        lemma_one_of_each_overlooks_nothing(tx.outputs, payee_script);
    }
}

} // verus!
