use bodega::catalog::{error_category, Categoria, Objeto};
use bodega::report::{category_line, object_line, stock_line};
use bodega::text::{append_decimal, decimal_text, is_word};

fn rioja(id: i32) -> Objeto {
    Objeto {
        id,
        categoria: Categoria {
            id: 1,
            nombre: "Vinos".to_string(),
            descripcion: "Botellas de vino".to_string(),
        },
        nombre: "Rioja".to_string(),
        medida: "botellas".to_string(),
    }
}

#[test]
fn whole_numbers_in_decimal() {
    assert_eq!(decimal_text(0), "0");
    assert_eq!(decimal_text(7), "7");
    assert_eq!(decimal_text(9), "9");
    assert_eq!(decimal_text(10), "10");
    assert_eq!(decimal_text(42), "42");
    assert_eq!(decimal_text(100), "100");
    assert_eq!(decimal_text(1234567890), "1234567890");
    assert_eq!(decimal_text(-1), "-1");
    assert_eq!(decimal_text(-10), "-10");
    assert_eq!(decimal_text(-305), "-305");
    assert_eq!(decimal_text(i32::MAX), "2147483647");
    assert_eq!(decimal_text(i32::MIN), "-2147483648");
    assert_eq!(decimal_text(i32::MIN + 1), "-2147483647");
}

#[test]
fn decimal_agrees_with_the_standard_rendering() {
    let mut n: i32 = -1_000_003;
    while n < 1_000_000 {
        assert_eq!(decimal_text(n), n.to_string());
        n += 7919;
    }
    for n in -120..120 {
        assert_eq!(decimal_text(n), n.to_string());
    }
}

#[test]
fn decimal_is_appended_to_what_is_there() {
    let mut text = String::from("id ");
    append_decimal(&mut text, -48);
    assert_eq!(text, "id -48");
    append_decimal(&mut text, 0);
    assert_eq!(text, "id -480");
}

#[test]
fn words_are_compared_whole() {
    assert!(is_word("S", "S"));
    assert!(is_word("", ""));
    assert!(!is_word("S", "s"));
    assert!(!is_word("S", "SS"));
    assert!(!is_word("SS", "S"));
    assert!(!is_word("", "S"));
    assert!(is_word("año", "año"));
}

#[test]
fn the_line_of_an_object() {
    assert_eq!(object_line(&rioja(12)), "Rioja (ID:12, CT:Vinos, MD:botellas)");
    assert_eq!(object_line(&rioja(-3)), "Rioja (ID:-3, CT:Vinos, MD:botellas)");
    let orphan = Objeto { categoria: error_category(), ..rioja(5) };
    assert_eq!(object_line(&orphan), "Rioja (ID:5, CT:ERROR, MD:botellas)");
    let blank = Objeto {
        id: 0,
        categoria: Categoria { id: 0, nombre: String::new(), descripcion: String::new() },
        nombre: String::new(),
        medida: String::new(),
    };
    assert_eq!(object_line(&blank), " (ID:0, CT:, MD:)");
}

#[test]
fn the_line_of_a_category() {
    let vinos = Categoria {
        id: 1,
        nombre: "Vinos".to_string(),
        descripcion: "Botellas de vino".to_string(),
    };
    assert_eq!(category_line(&vinos), "(1) Vinos: Botellas de vino");
    assert_eq!(category_line(&error_category()), "(0) ERROR: category resolution failed");
}

#[test]
fn the_stock_line_with_both_quantities() {
    let home = Some("10".to_string());
    let away = Some("2.5".to_string());
    assert_eq!(
        stock_line(&rioja(12), &home, &away, false),
        Some("Rioja: x10 botellas en Casa; x2.5 botellas en Tara".to_string())
    );
    assert_eq!(
        stock_line(&rioja(12), &home, &away, true),
        Some("[ID:12]Rioja: x10 botellas en Casa; x2.5 botellas en Tara".to_string())
    );
}

#[test]
fn the_stock_line_shows_zero_where_there_is_no_entry() {
    let some = Some("4".to_string());
    assert_eq!(
        stock_line(&rioja(12), &some, &None, false),
        Some("Rioja: x4 botellas en Casa; x0 botellas en Tara".to_string())
    );
    assert_eq!(
        stock_line(&rioja(12), &None, &some, false),
        Some("Rioja: x0 botellas en Casa; x4 botellas en Tara".to_string())
    );
    assert_eq!(
        stock_line(&rioja(-12), &None, &some, true),
        Some("[ID:-12]Rioja: x0 botellas en Casa; x4 botellas en Tara".to_string())
    );
}

#[test]
fn no_stock_line_without_any_entry() {
    assert_eq!(stock_line(&rioja(12), &None, &None, false), None);
    assert_eq!(stock_line(&rioja(12), &None, &None, true), None);
}
