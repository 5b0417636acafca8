use bodega::location::Procedencia;
use bodega::menu::{
    edit_option, header_line, insertion_mode, is_confirmation, location_choice, menu_option,
    title_banner, EditOption, MenuOption, MENU_SIZE,
};

#[test]
fn the_entries_of_the_main_menu() {
    assert_eq!(menu_option("1"), Some(MenuOption::ShowStock));
    assert_eq!(menu_option("2"), Some(MenuOption::ChangeStock));
    assert_eq!(menu_option("3"), Some(MenuOption::MoveStock));
    assert_eq!(menu_option("4"), Some(MenuOption::EditCategories));
    assert_eq!(menu_option("5"), Some(MenuOption::EditObjects));
    assert_eq!(menu_option("6"), Some(MenuOption::About));
}

#[test]
fn answers_that_pick_no_entry() {
    for answer in ["", "0", "7", "11", " 1", "1 ", "01", "uno", "-1", "1\n"] {
        assert_eq!(menu_option(answer), None);
    }
}

#[test]
fn the_entries_of_an_editing_menu() {
    assert_eq!(edit_option("1"), Some(EditOption::Add));
    assert_eq!(edit_option("2"), Some(EditOption::Delete));
    for answer in ["", "3", "0", "12", "a"] {
        assert_eq!(edit_option(answer), None);
    }
}

#[test]
fn how_a_quantity_is_written() {
    assert_eq!(insertion_mode("1"), (true, true));
    assert_eq!(insertion_mode("2"), (false, true));
    for answer in ["", "3", "SET", "set", "11"] {
        assert_eq!(insertion_mode(answer), (false, false));
    }
}

#[test]
fn the_location_that_an_answer_picks() {
    assert_eq!(location_choice("1"), (Procedencia::Casa, true));
    assert_eq!(location_choice("2"), (Procedencia::Tara, true));
    for answer in ["", "3", "Tara", "22"] {
        assert_eq!(location_choice(answer), (Procedencia::Casa, false));
    }
}

#[test]
fn what_counts_as_yes() {
    assert!(is_confirmation("S"));
    assert!(is_confirmation("s"));
    for answer in ["", "si", "Sí", "y", "N", "n", "SS", " s"] {
        assert!(!is_confirmation(answer));
    }
}

#[test]
fn the_title_banner() {
    let rule = "-".repeat(54);
    let expected = format!("{}\n{}LA BODEGA ALBERO\n{}\n", rule, " ".repeat(18), rule);
    assert_eq!(title_banner(), expected);
    assert_eq!(MENU_SIZE, 55);
}

#[test]
fn the_header_of_the_stock_list() {
    let side = "-".repeat(20);
    assert_eq!(header_line("EXISTENCIAS"), format!("{} EXISTENCIAS {}\n", side, side));
}

#[test]
fn headers_of_other_lengths() {
    assert_eq!(header_line(""), format!("{}  {}\n", "-".repeat(25), "-".repeat(25)));
    assert_eq!(header_line("A"), format!("{} A {}\n", "-".repeat(25), "-".repeat(25)));
    assert_eq!(header_line("AB"), format!("{} AB {}\n", "-".repeat(24), "-".repeat(24)));
    let long = "X".repeat(49);
    assert_eq!(header_line(&long), format!("- {} -\n", long));
    let longer = "X".repeat(51);
    assert_eq!(header_line(&longer), format!(" {} \n", longer));
    let longest = "X".repeat(53);
    assert_eq!(header_line(&longest), format!(" {} \n", longest));
}
