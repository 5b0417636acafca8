use bodega::catalog::{
    category_position, error_category, get_category_by_id, get_object_by_id, object_position,
    read_categories, read_objects, resolve_category, Categoria, Objeto, Resolution,
};

fn category(id: i32, nombre: &str, descripcion: &str) -> Categoria {
    Categoria { id, nombre: nombre.to_string(), descripcion: descripcion.to_string() }
}

fn object(id: i32, categoria: Categoria, nombre: &str, medida: &str) -> Objeto {
    Objeto { id, categoria, nombre: nombre.to_string(), medida: medida.to_string() }
}

fn cellar() -> Vec<Categoria> {
    vec![
        category(1, "Vinos", "Botellas de vino"),
        category(3, "Conservas", "Latas y botes"),
        category(7, "Limpieza", "Productos de limpieza"),
    ]
}

#[test]
fn lookup_in_nothing_finds_nothing() {
    assert_eq!(get_category_by_id(3, Vec::new()), None);
    assert_eq!(get_category_by_id(0, Vec::new()), None);
    assert_eq!(get_category_by_id(i32::MIN, Vec::new()), None);
    assert_eq!(get_object_by_id(3, Vec::new()), None);
}

#[test]
fn lookup_of_the_only_entry_finds_it() {
    let only = category(3, "Conservas", "Latas y botes");
    assert_eq!(get_category_by_id(3, vec![only.clone()]), Some(only.clone()));
    assert_eq!(get_category_by_id(4, vec![only]), None);
}

#[test]
fn lookup_finds_each_category_by_its_id() {
    for wanted in cellar() {
        assert_eq!(get_category_by_id(wanted.id, cellar()), Some(wanted));
    }
    assert_eq!(get_category_by_id(2, cellar()), None);
    assert_eq!(get_category_by_id(-1, cellar()), None);
}

#[test]
fn lookup_takes_the_first_of_two_with_one_id() {
    let categories = vec![
        category(5, "first", "came first"),
        category(9, "other", ""),
        category(5, "second", "came later"),
    ];
    assert_eq!(
        get_category_by_id(5, categories.clone()),
        Some(category(5, "first", "came first"))
    );
    assert_eq!(category_position(5, &categories), Some(0));
    assert_eq!(category_position(9, &categories), Some(1));
    assert_eq!(category_position(6, &categories), None);
}

#[test]
fn object_lookup_takes_the_first_match() {
    let vinos = category(1, "Vinos", "Botellas de vino");
    let objects = vec![
        object(10, vinos.clone(), "Rioja", "botellas"),
        object(11, vinos.clone(), "Albariño", "botellas"),
        object(10, vinos.clone(), "Ribera", "cajas"),
    ];
    assert_eq!(
        get_object_by_id(10, objects.clone()),
        Some(object(10, vinos.clone(), "Rioja", "botellas"))
    );
    assert_eq!(
        get_object_by_id(11, objects.clone()),
        Some(object(11, vinos, "Albariño", "botellas"))
    );
    assert_eq!(get_object_by_id(12, objects.clone()), None);
    assert_eq!(object_position(10, &objects), Some(0));
    assert_eq!(object_position(11, &objects), Some(1));
    assert_eq!(object_position(12, &objects), None);
}

#[test]
fn the_placeholder_category() {
    let placeholder = error_category();
    assert_eq!(placeholder.id, 0);
    assert_eq!(placeholder.nombre, "ERROR");
    assert_eq!(placeholder.descripcion, "category resolution failed");
}

#[test]
fn category_rows_become_categories_in_order() {
    let rows = vec![
        (7, "Limpieza".to_string(), "Productos de limpieza".to_string()),
        (1, "Vinos".to_string(), "Botellas de vino".to_string()),
    ];
    assert_eq!(
        read_categories(rows),
        vec![
            category(7, "Limpieza", "Productos de limpieza"),
            category(1, "Vinos", "Botellas de vino"),
        ]
    );
    assert_eq!(read_categories(Vec::new()), Vec::new());
}

#[test]
fn object_rows_are_given_their_category() {
    let rows = vec![
        (20, 3, "Atún".to_string(), "latas".to_string()),
        (21, 1, "Rioja".to_string(), "botellas".to_string()),
        (22, 3, "Tomate".to_string(), "botes".to_string()),
    ];
    let objects = read_objects(cellar(), rows);
    assert_eq!(
        objects,
        vec![
            object(20, category(3, "Conservas", "Latas y botes"), "Atún", "latas"),
            object(21, category(1, "Vinos", "Botellas de vino"), "Rioja", "botellas"),
            object(22, category(3, "Conservas", "Latas y botes"), "Tomate", "botes"),
        ]
    );
}

#[test]
fn a_broken_reference_gets_the_placeholder_and_the_load_goes_on() {
    let rows = vec![
        (20, 3, "Atún".to_string(), "latas".to_string()),
        (21, 99, "Huérfano".to_string(), "cajas".to_string()),
        (22, 7, "Lejía".to_string(), "litros".to_string()),
    ];
    let objects = read_objects(cellar(), rows);
    assert_eq!(objects.len(), 3);
    assert_eq!(objects[0].categoria, category(3, "Conservas", "Latas y botes"));
    assert_eq!(objects[1], object(21, error_category(), "Huérfano", "cajas"));
    assert_eq!(objects[1].categoria.id, 0);
    assert_eq!(objects[2].categoria, category(7, "Limpieza", "Productos de limpieza"));
}

#[test]
fn every_loaded_category_id_is_the_referenced_one_or_zero() {
    let known = [1, 3, 7];
    let mut rows = Vec::new();
    for referenced in -2..10 {
        rows.push((100 + referenced, referenced, "x".to_string(), "u".to_string()));
    }
    let objects = read_objects(cellar(), rows.clone());
    assert_eq!(objects.len(), rows.len());
    for (row, loaded) in rows.iter().zip(objects.iter()) {
        assert_eq!(loaded.id, row.0);
        if known.contains(&row.1) {
            assert_eq!(loaded.categoria.id, row.1);
        } else {
            assert_eq!(loaded.categoria, error_category());
        }
    }
}

#[test]
fn without_categories_every_object_gets_the_placeholder() {
    let rows = vec![(1, 1, "a".to_string(), "u".to_string()), (2, 0, "b".to_string(), "u".to_string())];
    let objects = read_objects(Vec::new(), rows);
    assert_eq!(objects[0].categoria, error_category());
    assert_eq!(objects[1].categoria, error_category());
    assert_eq!(read_objects(cellar(), Vec::new()), Vec::new());
}

#[test]
fn a_reference_resolves_to_the_first_of_two_categories_with_one_id() {
    let categories = vec![category(4, "first", "a"), category(4, "second", "b")];
    let objects = read_objects(categories, vec![(1, 4, "n".to_string(), "u".to_string())]);
    assert_eq!(objects[0].categoria, category(4, "first", "a"));
}

#[test]
fn a_reference_is_resolved_or_told_to_be_broken() {
    assert_eq!(
        resolve_category(3, &cellar()),
        Resolution::Resolved(category(3, "Conservas", "Latas y botes"))
    );
    assert_eq!(resolve_category(4, &cellar()), Resolution::Unresolved(error_category()));
    assert_eq!(resolve_category(0, &cellar()), Resolution::Unresolved(error_category()));
    assert_eq!(resolve_category(3, &Vec::new()), Resolution::Unresolved(error_category()));
    assert_eq!(
        resolve_category(7, &cellar()).into_category(),
        category(7, "Limpieza", "Productos de limpieza")
    );
    assert_eq!(resolve_category(8, &cellar()).into_category(), error_category());
}

#[test]
fn a_category_with_id_zero_is_found_like_any_other() {
    let categories = vec![category(0, "Varios", "Sin clasificar")];
    assert_eq!(
        resolve_category(0, &categories),
        Resolution::Resolved(category(0, "Varios", "Sin clasificar"))
    );
    let objects = read_objects(categories, vec![(1, 0, "n".to_string(), "u".to_string())]);
    assert_eq!(objects[0].categoria, category(0, "Varios", "Sin clasificar"));
}
