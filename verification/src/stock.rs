//! Stock entries, and the statements that read and change them.
//!
//! A quantity is a floating-point number that this library only carries: it is
//! held as the bit pattern of its IEEE 754 encoding, 64 bits wide where it was
//! read from the store and 32 bits wide where the operator typed it. The store
//! does the arithmetic; the library says which statement asks for it.

use vstd::prelude::*;
use crate::catalog::{find_object, object_position, Objeto, ObjetoView};
use crate::location::Procedencia;
use crate::scan::{absent_is_not_found, first_match_is_found, first_position};

verus! {

/// The quantity of one object at one location.
#[derive(Debug, PartialEq, Eq)]
pub struct Existencia {
    pub objeto: Objeto,
    /// The bits of the quantity, a binary64 number.
    pub cantidad: u64,
    pub procedencia: Procedencia,
}

/// What a stock entry holds, as mathematical values.
pub struct ExistenciaView {
    pub objeto: ObjetoView,
    pub cantidad: u64,
    pub procedencia: Procedencia,
}

impl View for Existencia {
    type V = ExistenciaView;

    open spec fn view(&self) -> ExistenciaView {
        ExistenciaView {
            objeto: self.objeto@,
            cantidad: self.cantidad,
            procedencia: self.procedencia,
        }
    }
}

impl DeepView for Existencia {
    type V = ExistenciaView;

    open spec fn deep_view(&self) -> ExistenciaView {
        self@
    }
}

impl Clone for Existencia {
    fn clone(&self) -> (copy: Self)
        ensures
            copy == *self,
    {
        Existencia {
            objeto: self.objeto.clone(),
            cantidad: self.cantidad,
            procedencia: self.procedencia,
        }
    }
}

/// A row of a stock table as the store gives it: object id, bits of the
/// quantity.
pub type StockRow = (i32, u64);

/// The key of each entry of `list`: object id and location.
pub open spec fn stock_keys(list: Seq<ExistenciaView>) -> Seq<(int, Procedencia)> {
    Seq::new(list.len(), |i: int| (list[i].objeto.id, list[i].procedencia))
}

/// The position of the first entry of `list` for this object at this
/// location.
pub fn get_item_index(
    list: Vec<Existencia>,
    id: i32,
    location: Procedencia,
) -> (position: Option<usize>)
    ensures
        match position {
            Some(at) => first_position(stock_keys(list.deep_view()), (id as int, location))
                == Some(at as int) && at < list.len(),
            None => first_position(stock_keys(list.deep_view()), (id as int, location)) is None,
        },
{
    let ghost keys = stock_keys(list.deep_view());
    let ghost key = (id as int, location);
    let mut i: usize = 0;
    while i < list.len()
        invariant
            i <= list.len(),
            keys == stock_keys(list.deep_view()),
            key == (id as int, location),
            forall|j: int| 0 <= j < i ==> keys[j] != key,
        decreases list.len() - i,
    {
        if list[i].objeto.id == id && list[i].procedencia == location {
            proof {
                assert(keys[i as int] == key);
                first_match_is_found(keys, key, i as int);
            }
            return Some(i);
        }
        i += 1;
    }
    proof {
        absent_is_not_found(keys, key);
    }
    None
}

/// Whether the catalog holds the object of every row.
pub open spec fn rows_known(objects: Seq<ObjetoView>, rows: Seq<StockRow>) -> bool {
    forall|i: int| 0 <= i < rows.len() ==> find_object(objects, (#[trigger] rows[i]).0 as int) is Some
}

/// The entry that the first of `rows` stands for, at `location`; `None` where
/// the store gave no row.
pub open spec fn entry_of_rows(
    objects: Seq<ObjetoView>,
    rows: Seq<StockRow>,
    location: Procedencia,
) -> Option<ExistenciaView> {
    if rows.len() == 0 {
        None
    } else {
        Some(
            ExistenciaView {
                objeto: find_object(objects, rows[0].0 as int).unwrap(),
                cantidad: rows[0].1,
                procedencia: location,
            },
        )
    }
}

/// Whether the catalog holds the object of every row.
pub fn all_rows_known(objects: &Vec<Objeto>, rows: &Vec<StockRow>) -> (known: bool)
    ensures
        known == rows_known(objects.deep_view(), rows.deep_view()),
{
    let mut i: usize = 0;
    while i < rows.len()
        invariant
            i <= rows.len(),
            forall|j: int|
                0 <= j < i ==> find_object(
                    objects.deep_view(),
                    (#[trigger] rows.deep_view()[j]).0 as int,
                ) is Some,
        decreases rows.len() - i,
    {
        if object_position(rows[i].0, objects).is_none() {
            assert(rows.deep_view()[i as int] == rows@[i as int]);
            return false;
        }
        assert(rows.deep_view()[i as int] == rows@[i as int]);
        i += 1;
    }
    true
}

/// The entry of one object at `location`, from the rows that the store gave
/// for that location's table; `None` where it gave none. The first row
/// counts.
///
/// The catalog must hold the object of every row, as the store's foreign key
/// sees to; [`all_rows_known`] tests it.
pub fn get_stock_entry(
    objects: &Vec<Objeto>,
    rows: &Vec<StockRow>,
    location: Procedencia,
) -> (entry: Option<Existencia>)
    requires
        rows_known(objects.deep_view(), rows.deep_view()),
    ensures
        entry.deep_view() == entry_of_rows(objects.deep_view(), rows.deep_view(), location),
{
    if rows.len() == 0 {
        None
    } else {
        assert(rows.deep_view()[0] == rows@[0]);
        let at = object_position(rows[0].0, objects).unwrap();
        Some(Existencia { objeto: objects[at].clone(), cantidad: rows[0].1, procedencia: location })
    }
}

/// The entries of one object at both locations, first `Casa` and then `Tara`,
/// from the rows that the store gave for each table. A location without a row
/// has no entry: the quantity there counts as zero, and no entry is made up
/// for it.
///
/// The catalog must hold the object of every row, as the store's foreign key
/// sees to; [`all_rows_known`] tests it.
pub fn get_stock_by_id(
    objects: Vec<Objeto>,
    home_rows: Vec<StockRow>,
    away_rows: Vec<StockRow>,
) -> (entries: (Option<Existencia>, Option<Existencia>))
    requires
        rows_known(objects.deep_view(), home_rows.deep_view()),
        rows_known(objects.deep_view(), away_rows.deep_view()),
    ensures
        entries.0.deep_view() == entry_of_rows(
            objects.deep_view(),
            home_rows.deep_view(),
            Procedencia::Casa,
        ),
        entries.1.deep_view() == entry_of_rows(
            objects.deep_view(),
            away_rows.deep_view(),
            Procedencia::Tara,
        ),
{
    let home = get_stock_entry(&objects, &home_rows, Procedencia::Casa);
    let away = get_stock_entry(&objects, &away_rows, Procedencia::Tara);
    (home, away)
}

/// The name of the table that holds the stock of `location`.
pub open spec fn table_name(location: Procedencia) -> Seq<char> {
    match location {
        Procedencia::Casa => "stock_home"@,
        Procedencia::Tara => "stock_away"@,
    }
}

/// The value that an upsert gives the quantity of a row that exists already:
/// the new amount itself where it is set, the stored quantity plus the amount
/// where it is added.
pub open spec fn update_expression(set_mode: bool) -> Seq<char> {
    if set_mode {
        ":quant"@
    } else {
        "quantity + :quant"@
    }
}

/// The text of the statement that writes a quantity at `location`: one upsert,
/// which inserts the row where the object has none there and updates it where
/// it has one. The store computes the sum; nothing is read beforehand.
pub open spec fn upsert_text(location: Procedencia, set_mode: bool) -> Seq<char> {
    "INSERT INTO "@ + table_name(location)
        + " (object_id, quantity) VALUES (:id, :quant) ON DUPLICATE KEY UPDATE quantity = "@
        + update_expression(set_mode) + ";"@
}

/// The text of the statement that reads the stock rows of one object at
/// `location`.
pub open spec fn select_text(location: Procedencia) -> Seq<char> {
    "SELECT * FROM "@ + table_name(location) + " WHERE object_id=:id"@
}

/// A statement for the store, with the values of its named parameters `:id`
/// and `:quant`.
#[derive(Debug, PartialEq, Eq)]
pub struct Statement {
    pub query: String,
    pub id: i32,
    /// The bits of the amount, a binary32 number.
    pub quant: u32,
}

/// What a statement holds, as mathematical values.
pub struct StatementView {
    pub query: Seq<char>,
    pub id: int,
    pub quant: u32,
}

impl View for Statement {
    type V = StatementView;

    open spec fn view(&self) -> StatementView {
        StatementView { query: self.query@, id: self.id as int, quant: self.quant }
    }
}

fn table_of(location: &Procedencia) -> (name: &'static str)
    ensures
        name@ == table_name(*location),
{
    match location {
        Procedencia::Casa => "stock_home",
        Procedencia::Tara => "stock_away",
    }
}

/// The statement that reads the stock rows of one object at `location`; its
/// parameter `:id` is the object's id.
pub fn stock_query(location: &Procedencia) -> (query: String)
    ensures
        query@ == select_text(*location),
{
    let mut query = String::from_str("SELECT * FROM ");
    query.append(table_of(location));
    query.append(" WHERE object_id=:id");
    query
}

/// One write to the ledger: the arguments of [`update_stock`].
#[derive(Clone, Copy, Debug, PartialEq, Eq)]
pub struct StockWrite {
    pub id: i32,
    pub set_mode: bool,
    /// The bits of the amount, a binary32 number.
    pub quant: u32,
    pub location: Procedencia,
}

impl StockWrite {
    /// The statement that asks the store for this write.
    pub open spec fn statement_view(self) -> StatementView {
        StatementView {
            query: upsert_text(self.location, self.set_mode),
            id: self.id as int,
            quant: self.quant,
        }
    }

    /// The statement that asks the store for this write.
    pub fn statement(&self) -> (statement: Statement)
        ensures
            statement@ == self.statement_view(),
    {
        update_stock(self.id, self.set_mode, self.quant, &self.location)
    }
}

/// The statement that writes the quantity of object `id` at `location`.
///
/// With `set_mode` the stored quantity becomes `quant`. Without it `quant` is
/// added to the stored quantity, or stored as it is where the object has no
/// row at that location yet; a negative `quant` withdraws.
pub fn update_stock(
    id: i32,
    set_mode: bool,
    quant: u32,
    location: &Procedencia,
) -> (statement: Statement)
    ensures
        statement@ == (StockWrite { id, set_mode, quant, location: *location }).statement_view(),
{
    let mode = if set_mode {
        ":quant"
    } else {
        "quantity + :quant"
    };
    let mut query = String::from_str("INSERT INTO ");
    query.append(table_of(location));
    query.append(" (object_id, quantity) VALUES (:id, :quant) ON DUPLICATE KEY UPDATE quantity = ");
    query.append(mode);
    query.append(";");
    Statement { query, id, quant }
}

/// The four statements that write a quantity, each in full.
pub proof fn upsert_text_in_full()
    ensures
        upsert_text(Procedencia::Casa, true)
            == "INSERT INTO stock_home (object_id, quantity) VALUES (:id, :quant) ON DUPLICATE KEY UPDATE quantity = :quant;"@,
        upsert_text(Procedencia::Tara, true)
            == "INSERT INTO stock_away (object_id, quantity) VALUES (:id, :quant) ON DUPLICATE KEY UPDATE quantity = :quant;"@,
        upsert_text(Procedencia::Casa, false)
            == "INSERT INTO stock_home (object_id, quantity) VALUES (:id, :quant) ON DUPLICATE KEY UPDATE quantity = quantity + :quant;"@,
        upsert_text(Procedencia::Tara, false)
            == "INSERT INTO stock_away (object_id, quantity) VALUES (:id, :quant) ON DUPLICATE KEY UPDATE quantity = quantity + :quant;"@,
{
    reveal_strlit("INSERT INTO ");
    reveal_strlit("stock_home");
    reveal_strlit("stock_away");
    reveal_strlit(
        " (object_id, quantity) VALUES (:id, :quant) ON DUPLICATE KEY UPDATE quantity = ",
    );
    reveal_strlit(":quant");
    reveal_strlit("quantity + :quant");
    reveal_strlit(";");
    reveal_strlit(
        "INSERT INTO stock_home (object_id, quantity) VALUES (:id, :quant) ON DUPLICATE KEY UPDATE quantity = :quant;",
    );
    reveal_strlit(
        "INSERT INTO stock_away (object_id, quantity) VALUES (:id, :quant) ON DUPLICATE KEY UPDATE quantity = :quant;",
    );
    reveal_strlit(
        "INSERT INTO stock_home (object_id, quantity) VALUES (:id, :quant) ON DUPLICATE KEY UPDATE quantity = quantity + :quant;",
    );
    reveal_strlit(
        "INSERT INTO stock_away (object_id, quantity) VALUES (:id, :quant) ON DUPLICATE KEY UPDATE quantity = quantity + :quant;",
    );
}

/// The text of a write tells its location and its mode: two writes with one
/// text go to one table and update it alike.
pub proof fn upsert_text_tells_the_write(
    location: Procedencia,
    set_mode: bool,
    other_location: Procedencia,
    other_mode: bool,
)
    requires
        upsert_text(location, set_mode) == upsert_text(other_location, other_mode),
    ensures
        location == other_location,
        set_mode == other_mode,
{
    upsert_text_in_full();
    reveal_strlit(
        "INSERT INTO stock_home (object_id, quantity) VALUES (:id, :quant) ON DUPLICATE KEY UPDATE quantity = :quant;",
    );
    reveal_strlit(
        "INSERT INTO stock_away (object_id, quantity) VALUES (:id, :quant) ON DUPLICATE KEY UPDATE quantity = :quant;",
    );
    reveal_strlit(
        "INSERT INTO stock_home (object_id, quantity) VALUES (:id, :quant) ON DUPLICATE KEY UPDATE quantity = quantity + :quant;",
    );
    reveal_strlit(
        "INSERT INTO stock_away (object_id, quantity) VALUES (:id, :quant) ON DUPLICATE KEY UPDATE quantity = quantity + :quant;",
    );
    let text = upsert_text(location, set_mode);
    let other = upsert_text(other_location, other_mode);
    assert(text.len() == other.len());
    assert(text[18] == other[18]);
}

} // verus!
