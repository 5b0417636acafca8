//! The lines that list the catalog and the stock.
//!
//! A line is made here and printed by the caller. Quantities reach this
//! module as text: the caller renders the numbers it read.

use vstd::prelude::*;
use crate::catalog::{Categoria, CategoriaView, Objeto, ObjetoView};
use crate::text::{append_decimal, decimal};

verus! {

/// The line that lists an object: name, id, category name and unit.
pub open spec fn object_line_text(object: ObjetoView) -> Seq<char> {
    object.nombre + " (ID:"@ + decimal(object.id) + ", CT:"@ + object.categoria.nombre + ", MD:"@
        + object.medida + ")"@
}

/// The line that lists a category: id, name and description.
pub open spec fn category_line_text(category: CategoriaView) -> Seq<char> {
    "("@ + decimal(category.id) + ") "@ + category.nombre + ": "@ + category.descripcion
}

/// The tag that goes in front of a stock line where ids are shown.
pub open spec fn id_tag(id: int, print_id: bool) -> Seq<char> {
    if print_id {
        "[ID:"@ + decimal(id) + "]"@
    } else {
        Seq::empty()
    }
}

/// A quantity as it is shown: the text given, or `0` where the location has
/// no entry.
pub open spec fn shown_quantity(quantity: Option<Seq<char>>) -> Seq<char> {
    match quantity {
        Some(text) => text,
        None => "0"@,
    }
}

/// The line that reports the stock of an object at both locations; `None`
/// where it has an entry at neither.
pub open spec fn stock_line_text(
    object: ObjetoView,
    home: Option<Seq<char>>,
    away: Option<Seq<char>>,
    print_id: bool,
) -> Option<Seq<char>> {
    if home is None && away is None {
        None
    } else {
        Some(
            id_tag(object.id, print_id) + object.nombre + ": x"@ + shown_quantity(home) + " "@
                + object.medida + " en Casa; x"@ + shown_quantity(away) + " "@ + object.medida
                + " en Tara"@,
        )
    }
}

/// The line that lists `object`.
pub fn object_line(object: &Objeto) -> (line: String)
    ensures
        line@ == object_line_text(object@),
{
    let mut line = object.nombre.clone();
    line.append(" (ID:");
    append_decimal(&mut line, object.id);
    line.append(", CT:");
    line.append(object.categoria.nombre.as_str());
    line.append(", MD:");
    line.append(object.medida.as_str());
    line.append(")");
    line
}

/// The line that lists `category`.
pub fn category_line(category: &Categoria) -> (line: String)
    ensures
        line@ == category_line_text(category@),
{
    let mut line = String::from_str("(");
    append_decimal(&mut line, category.id);
    line.append(") ");
    line.append(category.nombre.as_str());
    line.append(": ");
    line.append(category.descripcion.as_str());
    line
}

fn append_quantity(line: &mut String, quantity: &Option<String>)
    ensures
        final(line)@ == old(line)@ + shown_quantity(quantity.deep_view()),
{
    match quantity {
        Some(text) => line.append(text.as_str()),
        None => line.append("0"),
    }
}

/// The line that reports the stock of `object`, from the quantity found at
/// each location, rendered as text; `None` where nothing was found at either.
///
/// A location without an entry is shown with quantity `0`. With `print_id` the
/// line starts with the object's id in brackets.
pub fn stock_line(
    object: &Objeto,
    home: &Option<String>,
    away: &Option<String>,
    print_id: bool,
) -> (line: Option<String>)
    ensures
        line.deep_view() == stock_line_text(
            object@,
            home.deep_view(),
            away.deep_view(),
            print_id,
        ),
{
    if home.is_none() && away.is_none() {
        return None;
    }
    let mut line = String::new();
    if print_id {
        line.append("[ID:");
        append_decimal(&mut line, object.id);
        line.append("]");
    }
    assert(line@ =~= id_tag(object.id as int, print_id));
    line.append(object.nombre.as_str());
    line.append(": x");
    append_quantity(&mut line, home);
    line.append(" ");
    line.append(object.medida.as_str());
    line.append(" en Casa; x");
    append_quantity(&mut line, away);
    line.append(" ");
    line.append(object.medida.as_str());
    line.append(" en Tara");
    Some(line)
}

} // verus!
