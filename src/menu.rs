use vstd::prelude::*;
use crate::window::{EXIT_ITEM_ID, SHOW_ITEM_ID};

verus! {

/// A menu item the user can choose.
pub struct MenuItem {
    pub id: String,
    pub title: String,
    pub accelerator: Option<String>,
}

/// One entry of a menu.
pub enum MenuEntry {
    Item { item: MenuItem },
    /// The platform's own "Copy" item.
    Copy,
    Separator,
    Submenu { title: String, entries: Vec<MenuEntry> },
}

pub open spec fn accelerator_is(a: Option<String>, expected: Option<Seq<char>>) -> bool {
    match (a, expected) {
        (Some(a), Some(e)) => a@ == e,
        (None, None) => true,
        _ => false,
    }
}

/// `item` has id `id`, title `title` and accelerator `accel`.
pub open spec fn item_is(item: MenuItem, id: Seq<char>, title: Seq<char>, accel: Option<Seq<char>>) -> bool {
    item.id@ == id && item.title@ == title && accelerator_is(item.accelerator, accel)
}

/// `e` is the item with id `id`, title `title` and accelerator `accel`.
pub open spec fn entry_is_item(e: MenuEntry, id: Seq<char>, title: Seq<char>, accel: Option<Seq<char>>) -> bool {
    e matches MenuEntry::Item { item } && item_is(item, id, title, accel)
}

/// `e` is a submenu titled `title` with `n` entries.
pub open spec fn entry_is_submenu(e: MenuEntry, title: Seq<char>, n: nat) -> bool {
    e matches MenuEntry::Submenu { title: t, entries } && t@ == title && entries@.len() == n
}

pub open spec fn submenu_entries(e: MenuEntry) -> Seq<MenuEntry> {
    match e {
        MenuEntry::Submenu { entries, .. } => entries@,
        _ => Seq::empty(),
    }
}

spec fn text_of(a: Option<&str>) -> Option<Seq<char>> {
    match a {
        Some(a) => Some(a@),
        None => None,
    }
}

fn item(id: &str, title: &str, accelerator: Option<&str>) -> (r: MenuEntry)
    ensures
        entry_is_item(r, id@, title@, text_of(accelerator)),
{
    let accelerator = match accelerator {
        Some(a) => Some(a.to_owned()),
        None => None,
    };
    MenuEntry::Item { item: MenuItem { id: id.to_owned(), title: title.to_owned(), accelerator } }
}

/// The application's menu bar: "My app" holds Copy and a submenu with the
/// "Disable menu" item; "Other menu" holds "Selected and disabled", a
/// separator and "Test".
pub fn get_menu() -> (r: Vec<MenuEntry>)
    ensures
        r@.len() == 2,
        entry_is_submenu(r@[0], "My app"@, 2),
        submenu_entries(r@[0])[0] is Copy,
        entry_is_submenu(submenu_entries(r@[0])[1], "Sub menu"@, 1),
        entry_is_item(
            submenu_entries(submenu_entries(r@[0])[1])[0],
            "disable-menu"@,
            "Disable menu"@,
            Some("CmdOrControl+D"@),
        ),
        entry_is_submenu(r@[1], "Other menu"@, 3),
        entry_is_item(
            submenu_entries(r@[1])[0],
            "selected/disabled"@,
            "Selected and disabled"@,
            None,
        ),
        submenu_entries(r@[1])[1] is Separator,
        entry_is_item(submenu_entries(r@[1])[2], "test"@, "Test"@, Some("CmdOrControl+T"@)),
{
    let sub_menu = MenuEntry::Submenu {
        title: "Sub menu".to_owned(),
        entries: vec![item("disable-menu", "Disable menu", Some("CmdOrControl+D"))],
    };
    let app_menu = MenuEntry::Submenu {
        title: "My app".to_owned(),
        entries: vec![MenuEntry::Copy, sub_menu],
    };
    let other_menu = MenuEntry::Submenu {
        title: "Other menu".to_owned(),
        entries: vec![
            item("selected/disabled", "Selected and disabled", None),
            MenuEntry::Separator,
            item("test", "Test", Some("CmdOrControl+T")),
        ],
    };
    vec![app_menu, other_menu]
}

/// The tray icon's menu: "Show" and "Quit".
pub fn tray_menu() -> (r: Vec<MenuItem>)
    ensures
        r@.len() == 2,
        item_is(r@[0], SHOW_ITEM_ID@, "Show"@, None),
        item_is(r@[1], EXIT_ITEM_ID@, "Quit"@, None),
{
    vec![
        MenuItem { id: SHOW_ITEM_ID.to_owned(), title: "Show".to_owned(), accelerator: None },
        MenuItem { id: EXIT_ITEM_ID.to_owned(), title: "Quit".to_owned(), accelerator: None },
    ]
}

} // verus!
