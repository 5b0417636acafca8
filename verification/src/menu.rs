//! What the operator's answers mean, and the banners of the menu.
//!
//! The caller reads a line, trims it and hands it in; every function here
//! takes the trimmed answer.

use vstd::prelude::*;
use vstd::string::StringSliceAdditionalSpecFns;
use crate::location::Procedencia;
use crate::text::is_word;

verus! {

/// The program's title.
pub open spec fn title() -> Seq<char> {
    "LA BODEGA ALBERO"@
}

/// An entry of the main menu.
#[derive(Clone, Copy, Debug, PartialEq, Eq, Structural)]
pub enum MenuOption {
    /// List the stock.
    ShowStock,
    /// Add to, withdraw from or set the stock of an object.
    ChangeStock,
    /// Move stock from one location to the other.
    MoveStock,
    /// Add or delete a category.
    EditCategories,
    /// Add or delete an object.
    EditObjects,
    /// Show what the program is.
    About,
}

/// An entry of the menus that edit the catalog.
#[derive(Clone, Copy, Debug, PartialEq, Eq, Structural)]
pub enum EditOption {
    Add,
    Delete,
}

/// The entry of the main menu that `answer` picks.
pub open spec fn menu_option_of(answer: Seq<char>) -> Option<MenuOption> {
    if answer == "1"@ {
        Some(MenuOption::ShowStock)
    } else if answer == "2"@ {
        Some(MenuOption::ChangeStock)
    } else if answer == "3"@ {
        Some(MenuOption::MoveStock)
    } else if answer == "4"@ {
        Some(MenuOption::EditCategories)
    } else if answer == "5"@ {
        Some(MenuOption::EditObjects)
    } else if answer == "6"@ {
        Some(MenuOption::About)
    } else {
        None
    }
}

/// The entry of an editing menu that `answer` picks.
pub open spec fn edit_option_of(answer: Seq<char>) -> Option<EditOption> {
    if answer == "1"@ {
        Some(EditOption::Add)
    } else if answer == "2"@ {
        Some(EditOption::Delete)
    } else {
        None
    }
}

/// Whether `answer` picks the first or the second of two entries.
pub open spec fn one_of_two(answer: Seq<char>) -> Option<bool> {
    if answer == "1"@ {
        Some(true)
    } else if answer == "2"@ {
        Some(false)
    } else {
        None
    }
}

/// Whether `answer` accepts what was proposed.
pub open spec fn accepts(answer: Seq<char>) -> bool {
    answer == "S"@ || answer == "s"@
}

/// The entry of the main menu that `answer` picks: `1` to `6`, in the order
/// of [`MenuOption`]. Any other answer picks none.
pub fn menu_option(answer: &str) -> (option: Option<MenuOption>)
    ensures
        option == menu_option_of(answer@),
{
    if is_word(answer, "1") {
        Some(MenuOption::ShowStock)
    } else if is_word(answer, "2") {
        Some(MenuOption::ChangeStock)
    } else if is_word(answer, "3") {
        Some(MenuOption::MoveStock)
    } else if is_word(answer, "4") {
        Some(MenuOption::EditCategories)
    } else if is_word(answer, "5") {
        Some(MenuOption::EditObjects)
    } else if is_word(answer, "6") {
        Some(MenuOption::About)
    } else {
        None
    }
}

/// The entry of an editing menu that `answer` picks: `1` adds, `2` deletes.
/// Any other answer picks none.
pub fn edit_option(answer: &str) -> (option: Option<EditOption>)
    ensures
        option == edit_option_of(answer@),
{
    if is_word(answer, "1") {
        Some(EditOption::Add)
    } else if is_word(answer, "2") {
        Some(EditOption::Delete)
    } else {
        None
    }
}

/// How a quantity is written: `1` sets it, `2` adds it. Any other answer
/// adds too; `chosen` then is false, for the caller to say so.
pub fn insertion_mode(answer: &str) -> (mode: (bool, bool))
    ensures
        mode.0 == (one_of_two(answer@) == Some(true)),
        mode.1 == one_of_two(answer@) is Some,
{
    if is_word(answer, "1") {
        (true, true)
    } else if is_word(answer, "2") {
        (false, true)
    } else {
        (false, false)
    }
}

/// The location that `answer` picks: `1` is `Casa`, `2` is `Tara`. Any other
/// answer gives `Casa`; `chosen` then is false, for the caller to say so.
///
/// Asked where a transfer starts, the same answers pick the source.
pub fn location_choice(answer: &str) -> (choice: (Procedencia, bool))
    ensures
        choice.0 == if one_of_two(answer@) == Some(false) {
            Procedencia::Tara
        } else {
            Procedencia::Casa
        },
        choice.1 == one_of_two(answer@) is Some,
{
    if is_word(answer, "1") {
        (Procedencia::Casa, true)
    } else if is_word(answer, "2") {
        (Procedencia::Tara, true)
    } else {
        (Procedencia::Casa, false)
    }
}

/// Whether `answer` accepts what was proposed: `S` or `s`, nothing else.
pub fn is_confirmation(answer: &str) -> (accepted: bool)
    ensures
        accepted == accepts(answer@),
{
    is_word(answer, "S") || is_word(answer, "s")
}

/// `count` times the character `c`.
pub open spec fn repeated(c: char, count: nat) -> Seq<char> {
    Seq::new(count, |i: int| c)
}

/// The width that the banners are laid out for.
pub const MENU_SIZE: usize = 55;

/// How many characters go on each side of a text of `length` characters, so
/// that it stands in the middle of the menu: one less than half of what the
/// text leaves free, and none where that is less than one.
pub open spec fn margin(length: int) -> nat {
    if (MENU_SIZE - length) / 2 >= 1 {
        ((MENU_SIZE - length) / 2 - 1) as nat
    } else {
        0
    }
}

/// One less than the menu is wide: the length of the rules around the title.
pub open spec fn rule_length() -> nat {
    (MENU_SIZE - 1) as nat
}

/// The title between two rules, three lines in all.
pub open spec fn title_text() -> Seq<char> {
    repeated('-', rule_length()) + "\n"@ + repeated(' ', margin(title().len() as int)) + title()
        + "\n"@ + repeated('-', rule_length()) + "\n"@
}

/// The line that heads a list: the heading between two runs of dashes. The
/// heading counts two characters longer than it is, as it does between
/// quotation marks.
pub open spec fn header_text(heading: Seq<char>, bytes: int) -> Seq<char> {
    repeated('-', margin(bytes + 2)) + " "@ + heading + " "@ + repeated('-', margin(bytes + 2))
        + "\n"@
}

fn append_repeated(text: &mut String, piece: &'static str, c: char, count: usize)
    requires
        piece@ == seq![c],
    ensures
        final(text)@ == old(text)@ + repeated(c, count as nat),
{
    let mut done: usize = 0;
    assert(text@ =~= old(text)@ + repeated(c, 0));
    while done < count
        invariant
            done <= count,
            piece@ == seq![c],
            text@ == old(text)@ + repeated(c, done as nat),
        decreases count - done,
    {
        text.append(piece);
        done += 1;
        assert(text@ =~= old(text)@ + repeated(c, done as nat));
    }
}

fn margin_of(length: usize) -> (count: usize)
    requires
        length <= MENU_SIZE,
    ensures
        count == margin(length as int),
{
    let half = (MENU_SIZE - length) / 2;
    if half >= 1 {
        half - 1
    } else {
        0
    }
}

/// The banner with the program's title: a rule, the title in the middle, a
/// rule, each ended by a line feed.
pub fn title_banner() -> (banner: String)
    ensures
        banner@ == title_text(),
{
    proof {
        reveal_strlit("-");
        reveal_strlit(" ");
        reveal_strlit("LA BODEGA ALBERO");
        assert("-"@ =~= seq!['-']);
        assert(" "@ =~= seq![' ']);
        assert(title().len() == 16);
    }
    let mut banner = String::new();
    append_repeated(&mut banner, "-", '-', MENU_SIZE - 1);
    banner.append("\n");
    append_repeated(&mut banner, " ", ' ', margin_of(16));
    banner.append("LA BODEGA ALBERO");
    banner.append("\n");
    append_repeated(&mut banner, "-", '-', MENU_SIZE - 1);
    banner.append("\n");
    assert(banner@ =~= title_text());
    banner
}

/// The line that heads a list, ended by a line feed.
///
/// The heading, counted in bytes and two longer than it is, must fit in the
/// width of the menu.
pub fn header_line(heading: &str) -> (line: String)
    requires
        heading.spec_bytes().len() + 2 <= MENU_SIZE,
    ensures
        line@ == header_text(heading@, heading.spec_bytes().len() as int),
{
    proof {
        reveal_strlit("-");
        assert("-"@ =~= seq!['-']);
    }
    let side = margin_of(heading.len() + 2);
    let mut line = String::new();
    append_repeated(&mut line, "-", '-', side);
    line.append(" ");
    line.append(heading);
    line.append(" ");
    append_repeated(&mut line, "-", '-', side);
    line.append("\n");
    assert(line@ =~= header_text(heading@, heading.spec_bytes().len() as int));
    line
}

} // verus!
