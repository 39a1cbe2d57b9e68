//! Window menus, as plain data.
//!
//! A menu is described here and built by the host runtime: the types below
//! hold what the runtime needs to know of an entry, and nothing of how it is
//! drawn.

use vstd::prelude::*;

verus! {

/// Title of the one submenu that an editor window carries.
pub const FILE_MENU_TITLE: &'static str = "File";

/// Command id of the export item; the front end listens for it.
pub const EXPORT_ID: &'static str = "export";

/// Label of the export item.
pub const EXPORT_TITLE: &'static str = "Export file";

/// Keyboard shortcut of the export item: Cmd+E or Ctrl+E, as the platform has it.
pub const EXPORT_ACCELERATOR: &'static str = "cmdOrControl+E";

/// A menu item that raises a command when it is activated.
#[derive(Debug)]
pub struct MenuItem {
    /// The command id that the host runtime reports on activation.
    pub id: String,
    /// The label shown to the user.
    pub title: String,
    /// The keyboard shortcut that activates the item.
    pub accelerator: String,
}

/// What a [`MenuItem`] holds, as sequences of characters.
pub ghost struct MenuItemView {
    pub id: Seq<char>,
    pub title: Seq<char>,
    pub accelerator: Seq<char>,
}

impl View for MenuItem {
    type V = MenuItemView;

    open spec fn view(&self) -> MenuItemView {
        MenuItemView { id: self.id@, title: self.title@, accelerator: self.accelerator@ }
    }
}

/// A titled group of menu items.
#[derive(Debug)]
pub struct Submenu {
    /// The title under which the group opens.
    pub title: String,
    /// The items, in the order in which they are shown.
    pub items: Vec<MenuItem>,
}

/// What a [`Submenu`] holds: its title and the views of its items, in order.
pub ghost struct SubmenuView {
    pub title: Seq<char>,
    pub items: Seq<MenuItemView>,
}

impl View for Submenu {
    type V = SubmenuView;

    open spec fn view(&self) -> SubmenuView {
        SubmenuView { title: self.title@, items: self.items@.map_values(|item: MenuItem| item@) }
    }
}

/// The export item: command `export`, labelled "Export file", on Cmd/Ctrl+E.
pub open spec fn export_item_view() -> MenuItemView {
    MenuItemView { id: EXPORT_ID@, title: EXPORT_TITLE@, accelerator: EXPORT_ACCELERATOR@ }
}

/// The "File" submenu: the export item and nothing else.
pub open spec fn file_menu_view() -> SubmenuView {
    SubmenuView { title: FILE_MENU_TITLE@, items: seq![export_item_view()] }
}

/// Builds the export item.
pub fn export_item() -> (item: MenuItem)
    ensures
        item@ == export_item_view(),
{
    MenuItem {
        id: EXPORT_ID.to_string(),
        title: EXPORT_TITLE.to_string(),
        accelerator: EXPORT_ACCELERATOR.to_string(),
    }
}

/// Builds the "File" submenu of an editor window.
pub fn file_menu() -> (menu: Submenu)
    ensures
        menu@ == file_menu_view(),
{
    let mut items: Vec<MenuItem> = Vec::new();
    items.push(export_item());
    let menu = Submenu { title: FILE_MENU_TITLE.to_string(), items };
    assert(menu@.items =~= file_menu_view().items);
    menu
}

} // verus!
