//! Stock keeping for a small cellar: a catalog of objects grouped into
//! categories, and the quantities of each object held at two locations.
//!
//! The library decides and computes; it performs no input or output. A caller
//! owns the database connection and the terminal, hands rows and answers in as
//! plain values, and carries out the statements that the library returns.

pub mod catalog;
pub mod connection;
pub mod ledger;
pub mod location;
pub mod menu;
pub mod report;
pub mod scan;
pub mod stock;
pub mod store;
pub mod text;
pub mod transfer;

pub use catalog::{
    error_category, get_category_by_id, get_object_by_id, read_categories, read_objects,
    resolve_category, Categoria, Objeto, Resolution,
};
pub use connection::{connect, connection_url, variable_names, ConnectionPlan, Variable};
pub use location::{contrary, get_string_name, Procedencia};
pub use stock::{
    get_item_index, get_stock_by_id, get_stock_entry, stock_query, update_stock, Existencia,
    Statement, StockWrite,
};
pub use transfer::{transfer, transfer_step, Transfer, TransferOutcome, TransferPhase, TransferStep};
