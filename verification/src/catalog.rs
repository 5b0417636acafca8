//! The catalog: categories, and objects with their category resolved.
//!
//! Rows come from the store as plain tuples. An object row names its category
//! by id; loading replaces the id by the category itself, or by a placeholder
//! where no category has that id, so that one broken reference never fails the
//! whole load.

use vstd::prelude::*;
use crate::scan::{
    absent_is_not_found, first_match_is_found, first_position, first_position_is_first_match,
    is_first_match,
};

verus! {

/// A category of objects.
#[derive(Debug, PartialEq, Eq)]
pub struct Categoria {
    pub id: i32,
    pub nombre: String,
    pub descripcion: String,
}

/// What a category holds, as mathematical values.
pub struct CategoriaView {
    pub id: int,
    pub nombre: Seq<char>,
    pub descripcion: Seq<char>,
}

impl View for Categoria {
    type V = CategoriaView;

    open spec fn view(&self) -> CategoriaView {
        CategoriaView { id: self.id as int, nombre: self.nombre@, descripcion: self.descripcion@ }
    }
}

impl DeepView for Categoria {
    type V = CategoriaView;

    open spec fn deep_view(&self) -> CategoriaView {
        self@
    }
}

impl Clone for Categoria {
    fn clone(&self) -> (copy: Self)
        ensures
            copy == *self,
    {
        Categoria {
            id: self.id,
            nombre: self.nombre.clone(),
            descripcion: self.descripcion.clone(),
        }
    }
}

/// A catalog entry. The category is held by value, as it was when the entry
/// was loaded.
#[derive(Debug, PartialEq, Eq)]
pub struct Objeto {
    pub id: i32,
    pub categoria: Categoria,
    pub nombre: String,
    pub medida: String,
}

/// What a catalog entry holds, as mathematical values.
pub struct ObjetoView {
    pub id: int,
    pub categoria: CategoriaView,
    pub nombre: Seq<char>,
    pub medida: Seq<char>,
}

impl View for Objeto {
    type V = ObjetoView;

    open spec fn view(&self) -> ObjetoView {
        ObjetoView {
            id: self.id as int,
            categoria: self.categoria@,
            nombre: self.nombre@,
            medida: self.medida@,
        }
    }
}

impl DeepView for Objeto {
    type V = ObjetoView;

    open spec fn deep_view(&self) -> ObjetoView {
        self@
    }
}

impl Clone for Objeto {
    fn clone(&self) -> (copy: Self)
        ensures
            copy == *self,
    {
        Objeto {
            id: self.id,
            categoria: self.categoria.clone(),
            nombre: self.nombre.clone(),
            medida: self.medida.clone(),
        }
    }
}

/// A category row as the store gives it: id, name, description.
pub type CategoryRow = (i32, String, String);

/// An object row as the store gives it: id, category id, name, unit.
pub type ObjectRow = (i32, i32, String, String);

/// The ids of `categories`, in order.
pub open spec fn category_ids(categories: Seq<CategoriaView>) -> Seq<int> {
    Seq::new(categories.len(), |i: int| categories[i].id)
}

/// The ids of `objects`, in order.
pub open spec fn object_ids(objects: Seq<ObjetoView>) -> Seq<int> {
    Seq::new(objects.len(), |i: int| objects[i].id)
}

/// The first of `categories` with this id.
pub open spec fn find_category(categories: Seq<CategoriaView>, id: int) -> Option<CategoriaView> {
    match first_position(category_ids(categories), id) {
        Some(at) => Some(categories[at]),
        None => None,
    }
}

/// The first of `objects` with this id.
pub open spec fn find_object(objects: Seq<ObjetoView>, id: int) -> Option<ObjetoView> {
    match first_position(object_ids(objects), id) {
        Some(at) => Some(objects[at]),
        None => None,
    }
}

/// The placeholder that stands for a category that could not be resolved.
pub open spec fn unresolved_category() -> CategoriaView {
    CategoriaView { id: 0, nombre: "ERROR"@, descripcion: "category resolution failed"@ }
}

/// The category that an object row with category id `id` is given.
pub open spec fn resolved_category(categories: Seq<CategoriaView>, id: int) -> CategoriaView {
    match find_category(categories, id) {
        Some(category) => category,
        None => unresolved_category(),
    }
}

/// The category that a category row stands for.
pub open spec fn category_of_row(row: (i32, Seq<char>, Seq<char>)) -> CategoriaView {
    CategoriaView { id: row.0 as int, nombre: row.1, descripcion: row.2 }
}

/// The catalog entry that an object row stands for, given the categories.
pub open spec fn object_of_row(
    categories: Seq<CategoriaView>,
    row: (i32, i32, Seq<char>, Seq<char>),
) -> ObjetoView {
    ObjetoView {
        id: row.0 as int,
        categoria: resolved_category(categories, row.1 as int),
        nombre: row.2,
        medida: row.3,
    }
}

/// The categories that the rows of the category table stand for.
pub open spec fn loaded_categories(rows: Seq<(i32, Seq<char>, Seq<char>)>) -> Seq<CategoriaView> {
    Seq::new(rows.len(), |i: int| category_of_row(rows[i]))
}

/// The catalog entries that the rows of the object table stand for, each with
/// its category resolved against `categories`.
pub open spec fn loaded_objects(
    categories: Seq<CategoriaView>,
    rows: Seq<(i32, i32, Seq<char>, Seq<char>)>,
) -> Seq<ObjetoView> {
    Seq::new(rows.len(), |i: int| object_of_row(categories, rows[i]))
}

/// The placeholder category: id 0, named `ERROR`.
pub fn error_category() -> (category: Categoria)
    ensures
        category@ == unresolved_category(),
{
    Categoria {
        id: 0,
        nombre: String::from_str("ERROR"),
        descripcion: String::from_str("category resolution failed"),
    }
}

/// The categories that the rows of the category table stand for, in the
/// store's order.
pub fn read_categories(rows: Vec<CategoryRow>) -> (categories: Vec<Categoria>)
    ensures
        categories.deep_view() == loaded_categories(rows.deep_view()),
{
    let mut categories: Vec<Categoria> = Vec::new();
    let mut i: usize = 0;
    while i < rows.len()
        invariant
            i <= rows.len(),
            categories.len() == i,
            forall|j: int|
                0 <= j < i ==> (#[trigger] categories@[j])@ == category_of_row(
                    rows.deep_view()[j],
                ),
        decreases rows.len() - i,
    {
        let row = &rows[i];
        categories.push(Categoria { id: row.0, nombre: row.1.clone(), descripcion: row.2.clone() });
        i += 1;
    }
    assert(categories.deep_view() =~= loaded_categories(rows.deep_view()));
    categories
}

/// The position of the first of `categories` with this id.
pub fn category_position(id: i32, categories: &Vec<Categoria>) -> (position: Option<usize>)
    ensures
        match position {
            Some(at) => first_position(category_ids(categories.deep_view()), id as int) == Some(
                at as int,
            ) && at < categories.len(),
            None => first_position(category_ids(categories.deep_view()), id as int) is None,
        },
{
    let ghost ids = category_ids(categories.deep_view());
    let mut i: usize = 0;
    while i < categories.len()
        invariant
            i <= categories.len(),
            ids == category_ids(categories.deep_view()),
            forall|j: int| 0 <= j < i ==> ids[j] != id as int,
        decreases categories.len() - i,
    {
        if categories[i].id == id {
            proof {
                assert(ids[i as int] == id as int);
                first_match_is_found(ids, id as int, i as int);
            }
            return Some(i);
        }
        i += 1;
    }
    proof {
        absent_is_not_found(ids, id as int);
    }
    None
}

/// The first of `categories` with this id, or `None` where no category has it.
pub fn get_category_by_id(id: i32, categories: Vec<Categoria>) -> (found: Option<Categoria>)
    ensures
        found.deep_view() == find_category(categories.deep_view(), id as int),
{
    match category_position(id, &categories) {
        Some(at) => Some(categories[at].clone()),
        None => None,
    }
}

/// What resolving a reference to a category gave.
#[derive(Debug, PartialEq, Eq)]
pub enum Resolution {
    /// The first category with the id referred to.
    Resolved(Categoria),
    /// No category has the id; the placeholder stands in.
    Unresolved(Categoria),
}

impl Resolution {
    /// The category that the reference is given: the one found, or the
    /// placeholder.
    pub open spec fn category(self) -> Categoria {
        match self {
            Resolution::Resolved(category) => category,
            Resolution::Unresolved(placeholder) => placeholder,
        }
    }

    /// The category that the reference is given: the one found, or the
    /// placeholder.
    pub fn into_category(self) -> (category: Categoria)
        ensures
            category == self.category(),
    {
        match self {
            Resolution::Resolved(category) => category,
            Resolution::Unresolved(placeholder) => placeholder,
        }
    }
}

/// Resolves a reference to the category with this id: the first of
/// `categories` that has it, or the placeholder where none has.
pub fn resolve_category(id: i32, categories: &Vec<Categoria>) -> (resolution: Resolution)
    ensures
        resolution is Resolved <==> find_category(categories.deep_view(), id as int) is Some,
        resolution.category()@ == resolved_category(categories.deep_view(), id as int),
{
    match category_position(id, categories) {
        Some(at) => Resolution::Resolved(categories[at].clone()),
        None => Resolution::Unresolved(error_category()),
    }
}

/// The position of the first of `objects` with this id.
pub fn object_position(id: i32, objects: &Vec<Objeto>) -> (position: Option<usize>)
    ensures
        match position {
            Some(at) => first_position(object_ids(objects.deep_view()), id as int) == Some(
                at as int,
            ) && at < objects.len(),
            None => first_position(object_ids(objects.deep_view()), id as int) is None,
        },
{
    let ghost ids = object_ids(objects.deep_view());
    let mut i: usize = 0;
    while i < objects.len()
        invariant
            i <= objects.len(),
            ids == object_ids(objects.deep_view()),
            forall|j: int| 0 <= j < i ==> ids[j] != id as int,
        decreases objects.len() - i,
    {
        if objects[i].id == id {
            proof {
                assert(ids[i as int] == id as int);
                first_match_is_found(ids, id as int, i as int);
            }
            return Some(i);
        }
        i += 1;
    }
    proof {
        absent_is_not_found(ids, id as int);
    }
    None
}

/// The first of `objects` with this id, or `None` where no object has it.
pub fn get_object_by_id(id: i32, objects: Vec<Objeto>) -> (found: Option<Objeto>)
    ensures
        found.deep_view() == find_object(objects.deep_view(), id as int),
{
    match object_position(id, &objects) {
        Some(at) => Some(objects[at].clone()),
        None => None,
    }
}

/// The catalog entries that the rows of the object table stand for, in the
/// store's order, each with its category resolved against `categories`.
///
/// A row whose category id no category has is given the placeholder category;
/// the load goes on.
pub fn read_objects(categories: Vec<Categoria>, rows: Vec<ObjectRow>) -> (objects: Vec<Objeto>)
    ensures
        objects.deep_view() == loaded_objects(categories.deep_view(), rows.deep_view()),
{
    let mut objects: Vec<Objeto> = Vec::new();
    let mut i: usize = 0;
    while i < rows.len()
        invariant
            i <= rows.len(),
            objects.len() == i,
            forall|j: int|
                0 <= j < i ==> (#[trigger] objects@[j])@ == object_of_row(
                    categories.deep_view(),
                    rows.deep_view()[j],
                ),
        decreases rows.len() - i,
    {
        let row = &rows[i];
        let categoria = resolve_category(row.1, &categories).into_category();
        objects.push(Objeto { id: row.0, categoria, nombre: row.2.clone(), medida: row.3.clone() });
        i += 1;
    }
    assert(objects.deep_view() =~= loaded_objects(categories.deep_view(), rows.deep_view()));
    objects
}

/// Whether some category has this id.
pub open spec fn has_category(categories: Seq<CategoriaView>, id: int) -> bool {
    exists|at: int| 0 <= at < categories.len() && categories[at].id == id
}

/// A reference to a category resolves to the first category with that id,
/// and to the placeholder exactly where no category has it.
pub proof fn resolution_is_first_match_or_placeholder(categories: Seq<CategoriaView>, id: int)
    ensures
        has_category(categories, id) ==> exists|at: int|
            is_first_match(category_ids(categories), id, at) && resolved_category(categories, id)
                == categories[at],
        !has_category(categories, id) ==> resolved_category(categories, id)
            == unresolved_category(),
{
    let ids = category_ids(categories);
    first_position_is_first_match(ids, id);
    match first_position(ids, id) {
        Some(at) => {
            assert(categories[at].id == ids[at]);
        },
        None => {
            assert forall|at: int| 0 <= at < categories.len() implies categories[at].id != id by {
                assert(ids[at] != id);
            }
        },
    }
}

/// Every loaded object carries the id, name and unit of its row, in the order
/// of the rows. Its category has the id that the row refers to where some
/// category has that id, and is the placeholder, with id 0, where none has:
/// no other category id ever comes out of a load.
pub proof fn loaded_category_is_referenced_or_placeholder(
    categories: Seq<CategoriaView>,
    rows: Seq<(i32, i32, Seq<char>, Seq<char>)>,
    i: int,
)
    requires
        0 <= i < rows.len(),
    ensures
        loaded_objects(categories, rows).len() == rows.len(),
        ({
            let loaded = loaded_objects(categories, rows)[i];
            let referenced = rows[i].1 as int;
            &&& loaded.id == rows[i].0
            &&& loaded.nombre == rows[i].2
            &&& loaded.medida == rows[i].3
            &&& has_category(categories, referenced) ==> loaded.categoria.id == referenced
            &&& !has_category(categories, referenced) ==> loaded.categoria.id == 0
                && loaded.categoria == unresolved_category()
            &&& loaded.categoria.id == referenced || loaded.categoria.id == 0
        }),
{
    let referenced = rows[i].1 as int;
    resolution_is_first_match_or_placeholder(categories, referenced);
    if has_category(categories, referenced) {
        let at = choose|at: int|
            is_first_match(category_ids(categories), referenced, at) && resolved_category(
                categories,
                referenced,
            ) == categories[at];
        assert(category_ids(categories)[at] == categories[at].id);
    }
}

} // verus!
