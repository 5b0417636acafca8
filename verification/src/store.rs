//! What the store does with the statements of this library, and what is
//! read back from it.

use vstd::prelude::*;
use crate::catalog::{find_object, ObjetoView};
use crate::ledger::{stored, written, Arithmetic, Ledger};
use crate::location::Procedencia;
use crate::stock::{
    entry_of_rows, upsert_text, upsert_text_tells_the_write, ExistenciaView, StatementView,
    StockRow, StockWrite,
};

verus! {

/// The ledger after the store has carried out `write`.
pub open spec fn applied(ledger: Ledger, write: StockWrite, store: Arithmetic) -> Ledger {
    written(ledger, write.id as int, write.location, write.set_mode, write.quant, store)
}

/// The ledger after the store has executed `statement`: the write that the
/// text asks for, with the parameters of the statement. A text that is no
/// upsert of a stock table changes nothing in the ledger.
pub open spec fn executed(ledger: Ledger, statement: StatementView, store: Arithmetic) -> Ledger {
    if statement.query == upsert_text(Procedencia::Casa, true) {
        written(ledger, statement.id, Procedencia::Casa, true, statement.quant, store)
    } else if statement.query == upsert_text(Procedencia::Casa, false) {
        written(ledger, statement.id, Procedencia::Casa, false, statement.quant, store)
    } else if statement.query == upsert_text(Procedencia::Tara, true) {
        written(ledger, statement.id, Procedencia::Tara, true, statement.quant, store)
    } else if statement.query == upsert_text(Procedencia::Tara, false) {
        written(ledger, statement.id, Procedencia::Tara, false, statement.quant, store)
    } else {
        ledger
    }
}

/// The rows that the store gives for the query of one object's stock at
/// `location`: the object's row there, where it has one.
pub open spec fn selected(ledger: Ledger, id: i32, location: Procedencia) -> Seq<StockRow> {
    match stored(ledger, id as int, location) {
        Some(quantity) => seq![(id, quantity)],
        None => Seq::empty(),
    }
}

/// The entry that is read for an object at `location`, from the rows that the
/// store gives.
pub open spec fn read_entry(
    objects: Seq<ObjetoView>,
    ledger: Ledger,
    id: i32,
    location: Procedencia,
) -> Option<ExistenciaView> {
    entry_of_rows(objects, selected(ledger, id, location), location)
}

/// The statement of a write makes the store carry out that write.
pub proof fn statement_asks_for_its_write(ledger: Ledger, write: StockWrite, store: Arithmetic)
    ensures
        executed(ledger, write.statement_view(), store) == applied(ledger, write, store),
{
    let text = upsert_text(write.location, write.set_mode);
    if text == upsert_text(Procedencia::Casa, true) {
        upsert_text_tells_the_write(write.location, write.set_mode, Procedencia::Casa, true);
    } else if text == upsert_text(Procedencia::Casa, false) {
        upsert_text_tells_the_write(write.location, write.set_mode, Procedencia::Casa, false);
    } else if text == upsert_text(Procedencia::Tara, true) {
        upsert_text_tells_the_write(write.location, write.set_mode, Procedencia::Tara, true);
    }
}

/// Reading gives what the ledger holds: an entry with the stored quantity
/// where the object has a row at the location, and nothing where it has none.
pub proof fn read_gives_what_is_stored(
    objects: Seq<ObjetoView>,
    ledger: Ledger,
    id: i32,
    location: Procedencia,
)
    ensures
        read_entry(objects, ledger, id, location) is Some <==> stored(
            ledger,
            id as int,
            location,
        ) is Some,
        read_entry(objects, ledger, id, location) matches Some(entry) ==> {
            &&& Some(entry.cantidad) == stored(ledger, id as int, location)
            &&& entry.procedencia == location
            &&& find_object(objects, id as int) matches Some(object) ==> entry.objeto == object
        },
{
}

/// Setting a quantity and reading it back gives an entry with that
/// quantity, as the store keeps it, whatever was stored before.
pub proof fn set_then_read(
    objects: Seq<ObjetoView>,
    ledger: Ledger,
    id: i32,
    quant: u32,
    location: Procedencia,
    store: Arithmetic,
)
    ensures
        ({
            let set = StockWrite { id, set_mode: true, quant, location };
            let after = executed(ledger, set.statement_view(), store);
            &&& stored(after, id as int, location) == Some((store.widen)(quant))
            &&& read_entry(objects, after, id, location) matches Some(entry)
            &&& entry.cantidad == (store.widen)(quant)
            &&& entry.procedencia == location
            &&& find_object(objects, id as int) matches Some(object) ==> entry.objeto == object
        }),
{
    let set = StockWrite { id, set_mode: true, quant, location };
    statement_asks_for_its_write(ledger, set, store);
}

/// An addition to a key that has no row leaves the amount itself there.
pub proof fn add_to_nothing(
    ledger: Ledger,
    id: i32,
    quant: u32,
    location: Procedencia,
    store: Arithmetic,
)
    requires
        stored(ledger, id as int, location) is None,
    ensures
        ({
            let add = StockWrite { id, set_mode: false, quant, location };
            let after = executed(ledger, add.statement_view(), store);
            stored(after, id as int, location) == Some((store.widen)(quant))
        }),
{
    let add = StockWrite { id, set_mode: false, quant, location };
    statement_asks_for_its_write(ledger, add, store);
}

/// An addition to a key that has a row leaves the sum of the stored
/// quantity and the amount there.
pub proof fn add_to_stored(
    ledger: Ledger,
    id: i32,
    quant: u32,
    location: Procedencia,
    store: Arithmetic,
)
    requires
        stored(ledger, id as int, location) is Some,
    ensures
        ({
            let add = StockWrite { id, set_mode: false, quant, location };
            let after = executed(ledger, add.statement_view(), store);
            stored(after, id as int, location) == Some(
                (store.sum)(stored(ledger, id as int, location).unwrap(), (store.widen)(quant)),
            )
        }),
{
    let add = StockWrite { id, set_mode: false, quant, location };
    statement_asks_for_its_write(ledger, add, store);
}

/// Two additions to a key that had no row leave the sum of the two amounts
/// there.
pub proof fn add_twice_to_nothing(
    ledger: Ledger,
    id: i32,
    first: u32,
    second: u32,
    location: Procedencia,
    store: Arithmetic,
)
    requires
        stored(ledger, id as int, location) is None,
    ensures
        ({
            let one = StockWrite { id, set_mode: false, quant: first, location };
            let two = StockWrite { id, set_mode: false, quant: second, location };
            let after = executed(
                executed(ledger, one.statement_view(), store),
                two.statement_view(),
                store,
            );
            stored(after, id as int, location) == Some(
                (store.sum)((store.widen)(first), (store.widen)(second)),
            )
        }),
{
    let one = StockWrite { id, set_mode: false, quant: first, location };
    let two = StockWrite { id, set_mode: false, quant: second, location };
    statement_asks_for_its_write(ledger, one, store);
    statement_asks_for_its_write(applied(ledger, one, store), two, store);
}

/// Executing the same setting statement a second time changes nothing: the
/// ledger is as it was after the first.
pub proof fn set_twice_is_set_once(
    ledger: Ledger,
    id: i32,
    quant: u32,
    location: Procedencia,
    store: Arithmetic,
)
    ensures
        ({
            let set = StockWrite { id, set_mode: true, quant, location };
            let once = executed(ledger, set.statement_view(), store);
            executed(once, set.statement_view(), store) == once
        }),
{
    let set = StockWrite { id, set_mode: true, quant, location };
    let once = applied(ledger, set, store);
    statement_asks_for_its_write(ledger, set, store);
    statement_asks_for_its_write(once, set, store);
    assert(applied(once, set, store) =~= once);
}

/// A statement of this library changes the row of its own key and no other.
pub proof fn statement_leaves_other_keys(ledger: Ledger, write: StockWrite, store: Arithmetic)
    ensures
        forall|other: int, place: Procedencia|
            (other, place) != (write.id as int, write.location) ==> stored(
                executed(ledger, write.statement_view(), store),
                other,
                place,
            ) == stored(ledger, other, place),
{
    statement_asks_for_its_write(ledger, write, store);
}

} // verus!
