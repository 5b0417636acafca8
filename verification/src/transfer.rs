//! Moving a quantity from one location to the other.
//!
//! A transfer is two writes, each of them an addition: first the quantity is
//! taken from the source, then it is added at the opposite location. The
//! writes are not one transaction. Where the first succeeds and the second
//! fails, the quantity is missing from the source and has not arrived: the
//! outcome says so, and nothing is retried or undone.
//!
//! The caller performs the writes. [`transfer`] gives the first one;
//! [`transfer_step`] takes the result of the write in flight and gives the
//! next write or the outcome.

use vstd::prelude::*;
use crate::ledger::{quantity_after, stored, Arithmetic, Ledger};
use crate::location::{contrary, Procedencia};
use crate::stock::StockWrite;
use crate::store::applied;

verus! {

/// Which of the two writes of a transfer is in flight.
#[derive(Clone, Copy, Debug, PartialEq, Eq, Structural)]
pub enum TransferPhase {
    /// The withdrawal at the source.
    Debit,
    /// The deposit at the opposite location.
    Credit,
}

/// A transfer that is under way.
#[derive(Clone, Copy, Debug, PartialEq, Eq)]
pub struct Transfer {
    pub id: i32,
    /// The bits of the quantity to move, a binary32 number.
    pub quant: u32,
    pub from: Procedencia,
    pub phase: TransferPhase,
}

/// How a transfer ended. `E` is the store's error, handed on as it came.
#[derive(Debug, PartialEq, Eq)]
pub enum TransferOutcome<E> {
    /// Both writes succeeded.
    Completed,
    /// The withdrawal failed; nothing was written.
    DebitFailed(E),
    /// The withdrawal succeeded and the deposit failed: the source is short
    /// by the quantity, and the opposite location is as it was.
    PartialTransfer(E),
}

/// What the caller does next.
#[derive(Debug, PartialEq, Eq)]
pub enum TransferStep<E> {
    /// Perform this write, and come back with its result and this state.
    Write(Transfer, StockWrite),
    /// The transfer is over.
    Done(TransferOutcome<E>),
}

impl<E> TransferOutcome<E> {
    /// Whether the withdrawal was written.
    pub open spec fn debited(self) -> bool {
        !(self is DebitFailed)
    }

    /// Whether the deposit was written.
    pub open spec fn credited(self) -> bool {
        self is Completed
    }

    /// Whether the withdrawal was written.
    pub fn debit_applied(&self) -> (applied: bool)
        ensures
            applied == self.debited(),
    {
        match self {
            TransferOutcome::DebitFailed(_) => false,
            _ => true,
        }
    }

    /// Whether the deposit was written.
    pub fn credit_applied(&self) -> (applied: bool)
        ensures
            applied == self.credited(),
    {
        match self {
            TransferOutcome::Completed => true,
            _ => false,
        }
    }
}

/// The bits of the negative of the number whose bits are `quant`: the sign
/// bit is flipped, and every other bit stays.
pub open spec fn negated(quant: u32) -> u32 {
    quant ^ 0x8000_0000u32
}

/// The bits of the negative of the number whose bits are `quant`.
pub fn negate(quant: u32) -> (negative: u32)
    ensures
        negative == negated(quant),
{
    quant ^ 0x8000_0000u32
}

/// The withdrawal of a transfer: the negated quantity is added at the source.
pub open spec fn debit_write(id: i32, quant: u32, from: Procedencia) -> StockWrite {
    StockWrite { id, set_mode: false, quant: negated(quant), location: from }
}

/// The deposit of a transfer: the quantity is added at the opposite
/// location.
pub open spec fn credit_write(id: i32, quant: u32, from: Procedencia) -> StockWrite {
    StockWrite { id, set_mode: false, quant, location: from.opposite() }
}

/// What follows the write in flight, given its result.
pub open spec fn next_step<E>(transfer: Transfer, result: Result<(), E>) -> TransferStep<E> {
    match (transfer.phase, result) {
        (TransferPhase::Debit, Ok(_)) => TransferStep::Write(
            Transfer { phase: TransferPhase::Credit, ..transfer },
            credit_write(transfer.id, transfer.quant, transfer.from),
        ),
        (TransferPhase::Debit, Err(e)) => TransferStep::Done(TransferOutcome::DebitFailed(e)),
        (TransferPhase::Credit, Ok(_)) => TransferStep::Done(TransferOutcome::Completed),
        (TransferPhase::Credit, Err(e)) => TransferStep::Done(TransferOutcome::PartialTransfer(e)),
    }
}

/// Begins the transfer of `quant` of object `id` from `from` to the opposite
/// location, and gives the first write: the withdrawal.
///
/// No quantity is refused. Zero makes two writes that change nothing, and a
/// negative quantity moves its magnitude the other way.
pub fn transfer(id: i32, quant: u32, from: Procedencia) -> (start: (Transfer, StockWrite))
    ensures
        start.0 == (Transfer { id, quant, from, phase: TransferPhase::Debit }),
        start.1 == debit_write(id, quant, from),
{
    (
        Transfer { id, quant, from, phase: TransferPhase::Debit },
        StockWrite { id, set_mode: false, quant: negate(quant), location: from },
    )
}

/// Takes the result of the write in flight and gives what follows.
///
/// After the withdrawal the deposit follows, unless the withdrawal failed:
/// then the transfer is over and nothing was written. After the deposit the
/// transfer is over: completed, or partial where the deposit failed.
pub fn transfer_step<E>(transfer: Transfer, result: Result<(), E>) -> (next: TransferStep<E>)
    ensures
        next == next_step(transfer, result),
{
    match transfer.phase {
        TransferPhase::Debit => match result {
            Ok(_) => TransferStep::Write(
                Transfer {
                    id: transfer.id,
                    quant: transfer.quant,
                    from: transfer.from,
                    phase: TransferPhase::Credit,
                },
                StockWrite {
                    id: transfer.id,
                    set_mode: false,
                    quant: transfer.quant,
                    location: contrary(&transfer.from),
                },
            ),
            Err(e) => TransferStep::Done(TransferOutcome::DebitFailed(e)),
        },
        TransferPhase::Credit => match result {
            Ok(_) => TransferStep::Done(TransferOutcome::Completed),
            Err(e) => TransferStep::Done(TransferOutcome::PartialTransfer(e)),
        },
    }
}

/// The ledger after a transfer that ended with `outcome`: each write that
/// succeeded is applied, in order.
pub open spec fn ledger_after<E>(
    ledger: Ledger,
    id: i32,
    quant: u32,
    from: Procedencia,
    outcome: TransferOutcome<E>,
    store: Arithmetic,
) -> Ledger {
    let debited = if outcome.debited() {
        applied(ledger, debit_write(id, quant, from), store)
    } else {
        ledger
    };
    if outcome.credited() {
        applied(debited, credit_write(id, quant, from), store)
    } else {
        debited
    }
}

/// Negating twice gives the quantity back.
pub proof fn negated_twice(quant: u32)
    ensures
        negated(negated(quant)) == quant,
        negated(quant) != quant,
{
    assert((quant ^ 0x8000_0000u32) ^ 0x8000_0000u32 == quant) by (bit_vector);
    assert(quant ^ 0x8000_0000u32 != quant) by (bit_vector);
}

/// How a transfer ends, given what the store answers to the withdrawal and,
/// where it comes to that, to the deposit.
pub open spec fn outcome_of<E>(debit: Result<(), E>, credit: Result<(), E>) -> TransferOutcome<E> {
    match (debit, credit) {
        (Err(e), _) => TransferOutcome::DebitFailed(e),
        (Ok(_), Err(e)) => TransferOutcome::PartialTransfer(e),
        (Ok(_), Ok(_)) => TransferOutcome::Completed,
    }
}

/// A transfer runs to its end in at most two writes: a withdrawal at the
/// source and then, unless the withdrawal failed, a deposit of the same
/// quantity at the opposite location. The deposit is never attempted first,
/// and no write is attempted twice.
pub proof fn transfer_is_debit_then_credit<E>(
    id: i32,
    quant: u32,
    from: Procedencia,
    debit: Result<(), E>,
    credit: Result<(), E>,
)
    ensures
        ({
            let debiting = Transfer { id, quant, from, phase: TransferPhase::Debit };
            let crediting = Transfer { id, quant, from, phase: TransferPhase::Credit };
            &&& debit is Err ==> next_step(debiting, debit) == TransferStep::Done(
                outcome_of(debit, credit),
            )
            &&& debit is Ok ==> next_step(debiting, debit) == TransferStep::<E>::Write(
                crediting,
                credit_write(id, quant, from),
            )
            &&& debit is Ok ==> next_step(crediting, credit) == TransferStep::Done(
                outcome_of(debit, credit),
            )
            &&& debit_write(id, quant, from).location == from
            &&& credit_write(id, quant, from).location == from.opposite()
            &&& debit_write(id, quant, from).quant == negated(credit_write(id, quant, from).quant)
        }),
{
}

/// A completed transfer leaves the source with its quantity and the negated
/// amount added up, the opposite location with its quantity and the amount
/// added up, and every other row as it was.
pub proof fn completed_transfer_moves_quantity<E>(
    ledger: Ledger,
    id: i32,
    quant: u32,
    from: Procedencia,
    store: Arithmetic,
)
    ensures
        ({
            let after = ledger_after(
                ledger,
                id,
                quant,
                from,
                TransferOutcome::<E>::Completed,
                store,
            );
            &&& stored(after, id as int, from) == Some(
                quantity_after(stored(ledger, id as int, from), false, negated(quant), store),
            )
            &&& stored(after, id as int, from.opposite()) == Some(
                quantity_after(stored(ledger, id as int, from.opposite()), false, quant, store),
            )
            &&& forall|other: int, location: Procedencia|
                other != id as int ==> stored(after, other, location) == stored(
                    ledger,
                    other,
                    location,
                )
        }),
{
}

/// A transfer whose deposit failed leaves the source debited and the opposite
/// location as it was: the quantity is missing from the two together.
pub proof fn partial_transfer_is_debit_alone<E>(
    ledger: Ledger,
    id: i32,
    quant: u32,
    from: Procedencia,
    error: E,
    store: Arithmetic,
)
    ensures
        ({
            let after = ledger_after(
                ledger,
                id,
                quant,
                from,
                TransferOutcome::PartialTransfer(error),
                store,
            );
            &&& stored(after, id as int, from) == Some(
                quantity_after(stored(ledger, id as int, from), false, negated(quant), store),
            )
            &&& stored(after, id as int, from.opposite()) == stored(
                ledger,
                id as int,
                from.opposite(),
            )
            &&& forall|other: int, location: Procedencia|
                other != id as int ==> stored(after, other, location) == stored(
                    ledger,
                    other,
                    location,
                )
        }),
{
}

/// A transfer whose withdrawal failed leaves the ledger as it was.
pub proof fn failed_debit_changes_nothing<E>(
    ledger: Ledger,
    id: i32,
    quant: u32,
    from: Procedencia,
    error: E,
    store: Arithmetic,
)
    ensures
        ledger_after(ledger, id, quant, from, TransferOutcome::DebitFailed(error), store) == ledger,
{
}

} // verus!
