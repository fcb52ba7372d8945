//! The audit record and the ten lines it is written as.

use vstd::prelude::*;
use vstd::string::*;
use crate::amount::{amount_text, decimal, format_amount, format_number};
use crate::text::texts;

verus! {

/// What an audit finds of one confirmed payment. Amounts are in satoshis.
#[derive(Clone, Debug, PartialEq, Eq)]
pub struct AuditRecord {
    /// The id of the audited transaction, in hex.
    pub txid: String,
    /// The script that held the spent funds, as text.
    pub input_address: String,
    /// The amount that was spent.
    pub input_amount: u64,
    /// The script of the payee output, as text; empty without such an output.
    pub payee_address: String,
    /// The amount of the payee output.
    pub payee_amount: u64,
    /// The script of the change output, as text; empty without such an output.
    pub change_address: String,
    /// The amount of the change output.
    pub change_amount: u64,
    /// The fee.
    pub fee: u64,
    /// The height of the confirming block.
    pub block_height: u64,
    /// The hash of the confirming block, in hex.
    pub block_hash: String,
}

/// An [`AuditRecord`] as a mathematical value.
pub ghost struct AuditRecordView {
    pub txid: Seq<char>,
    pub input_address: Seq<char>,
    pub input_amount: u64,
    pub payee_address: Seq<char>,
    pub payee_amount: u64,
    pub change_address: Seq<char>,
    pub change_amount: u64,
    pub fee: u64,
    pub block_height: u64,
    pub block_hash: Seq<char>,
}

impl View for AuditRecord {
    type V = AuditRecordView;

    open spec fn view(&self) -> AuditRecordView {
        AuditRecordView {
            txid: self.txid@,
            input_address: self.input_address@,
            input_amount: self.input_amount,
            payee_address: self.payee_address@,
            payee_amount: self.payee_amount,
            change_address: self.change_address@,
            change_amount: self.change_amount,
            fee: self.fee,
            block_height: self.block_height,
            block_hash: self.block_hash@,
        }
    }
}

/// The lines one after the other, each with a line feed behind it.
pub open spec fn terminated(lines: Seq<Seq<char>>) -> Seq<char>
    decreases lines.len(),
{
    if lines.len() == 0 {
        Seq::empty()
    } else {
        terminated(lines.drop_last()) + lines.last().push('\n')
    }
}

impl AuditRecordView {
    /// The ten lines of the record, in their fixed order. Amounts have eight
    /// fractional digits; the height is a plain numeral.
    pub open spec fn lines(self) -> Seq<Seq<char>> {
        seq![
            self.txid,
            self.input_address,
            amount_text(self.input_amount),
            self.payee_address,
            amount_text(self.payee_amount),
            self.change_address,
            amount_text(self.change_amount),
            amount_text(self.fee),
            decimal(self.block_height as nat),
            self.block_hash,
        ]
    }

    /// The record as it is written out.
    pub open spec fn text(self) -> Seq<char> {
        terminated(self.lines())
    }
}

/// Writes the lines one after the other, each with a line feed behind it.
pub fn join_lines(lines: &Vec<String>) -> (out: String)
    ensures
        out@ == terminated(texts(lines@)),
{
    let ghost all = texts(lines@);
    let mut out = String::new();
    let mut i: usize = 0;
    while i < lines.len()
        invariant
            i <= lines.len(),
            all == texts(lines@),
            out@ == terminated(all.take(i as int)),
        decreases lines.len() - i,
    {
        assert(all.take(i + 1).drop_last() =~= all.take(i as int));
        assert(all.take(i + 1).last() == lines@[i as int]@);
        out.append(lines[i].as_str());
        out.push('\n');
        i += 1;
    }
    assert(all.take(i as int) =~= all);
    out
}

impl AuditRecord {
    /// The ten lines of the record, in their fixed order.
    pub fn lines(&self) -> (lines: Vec<String>)
        ensures
            texts(lines@) == self@.lines(),
            lines@.len() == 10,
    {
        let mut lines: Vec<String> = Vec::new();
        lines.push(self.txid.clone());
        lines.push(self.input_address.clone());
        lines.push(format_amount(self.input_amount));
        lines.push(self.payee_address.clone());
        lines.push(format_amount(self.payee_amount));
        lines.push(self.change_address.clone());
        lines.push(format_amount(self.change_amount));
        lines.push(format_amount(self.fee));
        lines.push(format_number(self.block_height));
        lines.push(self.block_hash.clone());
        assert(texts(lines@) =~= self@.lines());
        lines
    }

    /// The record as it is written out: ten lines, each ended by a line feed.
    pub fn render(&self) -> (out: String)
        ensures
            out@ == self@.text(),
    {
        join_lines(&self.lines())
    }
}

} // verus!
