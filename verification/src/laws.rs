//! The ledger's global guarantees, stated over the same cell transformers
//! that the executable operations' contracts use.

use vstd::prelude::*;
use crate::state::{
    credit_cell, debit_applies, debit_cell, undo_debit_cell, BalanceModel,
};

verus! {

/// One ledger operation on a single (channel, denomination) cell.
pub enum LedgerOp {
    Credit(u128),
    Debit(u128),
    UndoDebit(u128),
}

/// The effect of one operation on a cell.  A debit that does not apply
/// (absent record or insufficient outstanding balance) leaves the cell
/// unchanged, exactly as the executable operation fails without mutation.
pub open spec fn apply_op(b: BalanceModel, op: LedgerOp) -> BalanceModel {
    match op {
        LedgerOp::Credit(n) => credit_cell(b, n as int),
        LedgerOp::Debit(n) => debit_cell(b, n as int),
        LedgerOp::UndoDebit(n) => undo_debit_cell(b, n as int),
    }
}

/// The cell after a sequence of operations, starting from an absent
/// record.
pub open spec fn run_ops(ops: Seq<LedgerOp>) -> BalanceModel
    decreases ops.len(),
{
    if ops.len() == 0 {
        BalanceModel { present: false, outstanding: 0, total_sent: 0 }
    } else {
        apply_op(run_ops(ops.drop_last()), ops.last())
    }
}

/// The sum of all credited amounts.
pub open spec fn credited(ops: Seq<LedgerOp>) -> int
    decreases ops.len(),
{
    if ops.len() == 0 {
        0
    } else {
        credited(ops.drop_last()) + (match ops.last() {
            LedgerOp::Credit(n) => n as int,
            _ => 0,
        })
    }
}

/// The sum of all successfully applied debits: a debit counts only where
/// the cell at that point existed and covered it.
pub open spec fn debited(ops: Seq<LedgerOp>) -> int
    decreases ops.len(),
{
    if ops.len() == 0 {
        0
    } else {
        debited(ops.drop_last()) + (match ops.last() {
            LedgerOp::Debit(n) => if debit_applies(run_ops(ops.drop_last()), n as int) {
                n as int
            } else {
                0
            },
            _ => 0,
        })
    }
}

/// The sum of all undone amounts.
pub open spec fn undone(ops: Seq<LedgerOp>) -> int
    decreases ops.len(),
{
    if ops.len() == 0 {
        0
    } else {
        undone(ops.drop_last()) + (match ops.last() {
            LedgerOp::UndoDebit(n) => n as int,
            _ => 0,
        })
    }
}

/// Conservation: over any sequence of credits, debits and undo-debits on
/// one (channel, denomination) cell, the outstanding balance never goes
/// negative and always equals the credited total minus the applied debits
/// plus the undone amounts, while the audit counter equals the credited
/// total alone.
pub proof fn lemma_conservation(ops: Seq<LedgerOp>)
    ensures
        run_ops(ops).outstanding == credited(ops) - debited(ops) + undone(ops),
        run_ops(ops).outstanding >= 0,
        run_ops(ops).total_sent == credited(ops),
    decreases ops.len(),
{
    if ops.len() > 0 {
        lemma_conservation(ops.drop_last());
    }
}

/// Compensation round-trip: a debit that applies, immediately followed by
/// an undo-debit of the same amount, restores the cell exactly.
pub proof fn lemma_debit_undo_roundtrip(b: BalanceModel, n: u128)
    requires
        debit_applies(b, n as int),
    ensures
        undo_debit_cell(debit_cell(b, n as int), n as int) == b,
{
}

/// Send/ack symmetry: the credit applied at send time, compensated by a
/// debit of the same amount, returns the outstanding balance to its
/// pre-send value, while the audit counter keeps the send.
pub proof fn lemma_credit_debit_symmetry(b: BalanceModel, n: u128)
    requires
        b.outstanding >= 0,
    ensures
        debit_applies(credit_cell(b, n as int), n as int),
        debit_cell(credit_cell(b, n as int), n as int).outstanding == b.outstanding,
        debit_cell(credit_cell(b, n as int), n as int).total_sent == b.total_sent + n,
{
}

/// Compensation never touches the audit counter, in either direction: a
/// debit and an undo-debit both leave `total_sent` exactly as it was.
pub proof fn lemma_compensation_preserves_total_sent(b: BalanceModel, n: u128)
    ensures
        debit_cell(b, n as int).total_sent == b.total_sent,
        undo_debit_cell(b, n as int).total_sent == b.total_sent,
{
}

} // verus!
