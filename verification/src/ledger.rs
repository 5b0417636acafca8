//! What a write means: a model of the stock tables.
//!
//! The store keeps at most one row for each object at each location. A ledger
//! is the map from (object id, location) to the bits of the stored quantity,
//! with a key for each row and no others.
//!
//! The store computes with quantities in ways that this library does not look
//! into: how it takes in a 32-bit amount, and how it adds. Both are parameters
//! of the model, and every law holds whatever they are.

use vstd::prelude::*;
use crate::location::Procedencia;

verus! {

/// The bits of the stored quantity of each object at each location that has
/// a row.
pub type Ledger = Map<(int, Procedencia), u64>;

/// The store's arithmetic on the bits of quantities.
pub struct Arithmetic {
    /// The quantity that the store makes of an amount that it is given.
    pub widen: spec_fn(u32) -> u64,
    /// The sum of a stored quantity and another.
    pub sum: spec_fn(u64, u64) -> u64,
}

/// The quantity that `ledger` holds for the object at `location`; `None` where
/// there is no row, which callers count as zero.
pub open spec fn stored(ledger: Ledger, id: int, location: Procedencia) -> Option<u64> {
    if ledger.dom().contains((id, location)) {
        Some(ledger[(id, location)])
    } else {
        None
    }
}

/// The quantities of one object at both locations, `Casa` first.
pub open spec fn stored_both(ledger: Ledger, id: int) -> (Option<u64>, Option<u64>) {
    (stored(ledger, id, Procedencia::Casa), stored(ledger, id, Procedencia::Tara))
}

/// The quantity that a write of the amount `quant` leaves behind, given what
/// was stored before it.
///
/// Setting stores the amount. Adding stores the sum of the stored quantity and
/// the amount, or the amount itself where nothing was stored.
pub open spec fn quantity_after(
    before: Option<u64>,
    set_mode: bool,
    quant: u32,
    store: Arithmetic,
) -> u64 {
    match before {
        Some(prior) if !set_mode => (store.sum)(prior, (store.widen)(quant)),
        _ => (store.widen)(quant),
    }
}

/// The ledger after one successful write. A write that fails leaves the
/// ledger as it was.
pub open spec fn written(
    ledger: Ledger,
    id: int,
    location: Procedencia,
    set_mode: bool,
    quant: u32,
    store: Arithmetic,
) -> Ledger {
    ledger.insert(
        (id, location),
        quantity_after(stored(ledger, id, location), set_mode, quant, store),
    )
}

/// After a write its key has a row, which holds what `quantity_after` says.
pub proof fn write_then_read(
    ledger: Ledger,
    id: int,
    location: Procedencia,
    set_mode: bool,
    quant: u32,
    store: Arithmetic,
)
    ensures
        stored(written(ledger, id, location, set_mode, quant, store), id, location) == Some(
            quantity_after(stored(ledger, id, location), set_mode, quant, store),
        ),
{
}

/// A write changes the row of its own key and no other, and removes none.
pub proof fn write_leaves_other_keys(
    ledger: Ledger,
    id: int,
    location: Procedencia,
    set_mode: bool,
    quant: u32,
    store: Arithmetic,
)
    ensures
        forall|other: int, place: Procedencia|
            (other, place) != (id, location) ==> stored(
                written(ledger, id, location, set_mode, quant, store),
                other,
                place,
            ) == stored(ledger, other, place),
        written(ledger, id, location, set_mode, quant, store).dom() == ledger.dom().insert(
            (id, location),
        ),
{
}

} // verus!
