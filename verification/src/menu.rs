//! The decisions of the native menu-bar glue: which entries the
//! application menu holds, and what the application does when one is
//! picked. The registration of these entries with the operating system's
//! UI toolkit lives outside the verified library.

use vstd::prelude::*;
use vstd::string::StringExecFns;

verus! {

/// The tag of the menu item that quits the application.
pub const TERMINATE_TAG: u32 = 0;

/// The tag of the menu item that opens the about panel.
pub const SHOW_ABOUT_TAG: u32 = 1;

/// The tag of the menu item that opens the settings panel.
pub const SHOW_SETTINGS_TAG: u32 = 2;

/// The tag of the menu item that launches another window.
pub const RUN_ME_TAG: u32 = 3;

/// What the application does in response to a picked menu item.
#[derive(Clone, Copy, Debug, PartialEq, Eq, Structural)]
pub enum MenuAction {
    Terminate,
    RunMe,
    ShowAbout,
    ShowSettings,
    Ignore,
}

/// The action behind a tag: launching comes first, then termination,
/// then the two panels; any other tag does nothing.
pub open spec fn spec_action_for_tag(tag: u32) -> MenuAction {
    if tag == RUN_ME_TAG {
        MenuAction::RunMe
    } else if tag == TERMINATE_TAG {
        MenuAction::Terminate
    } else if tag == SHOW_ABOUT_TAG {
        MenuAction::ShowAbout
    } else if tag == SHOW_SETTINGS_TAG {
        MenuAction::ShowSettings
    } else {
        MenuAction::Ignore
    }
}

/// Decides what a picked menu item does, as the application delegate
/// dispatches it.
pub fn action_for_tag(tag: u32) -> (r: MenuAction)
    ensures
        r == spec_action_for_tag(tag),
{
    if tag == RUN_ME_TAG {
        MenuAction::RunMe
    } else if tag == TERMINATE_TAG {
        MenuAction::Terminate
    } else if tag == SHOW_ABOUT_TAG {
        MenuAction::ShowAbout
    } else if tag == SHOW_SETTINGS_TAG {
        MenuAction::ShowSettings
    } else {
        MenuAction::Ignore
    }
}

/// One entry of the application menu: a titled item with a key
/// equivalent and a tag, or a separator line.
#[derive(Debug)]
pub enum MenuEntry {
    Item { title: String, key: String, tag: u32 },
    Separator,
}

/// Whether an entry is the titled item with the given title, key and tag.
pub open spec fn item_is(e: MenuEntry, title: Seq<char>, key: Seq<char>, tag: u32) -> bool {
    e matches MenuEntry::Item { title: t, key: k, tag: g } && t@ == title && k@ == key && g == tag
}

/// Builds one titled entry.
fn make_item(title: &str, key: &str, tag: u32) -> (r: MenuEntry)
    ensures
        item_is(r, title@, key@, tag),
{
    let mut t = String::new();
    t.append(title);
    let mut k = String::new();
    k.append(key);
    MenuEntry::Item { title: t, key: k, tag }
}

/// The entries of the application menu, top to bottom. A process started
/// with extra arguments is a secondary window and only offers a new
/// window; the main panel offers the about and settings panels. Both end
/// with a separator and the quit item naming the application.
pub fn app_menu_entries(multi_window: bool, app_name: &str) -> (r: Vec<MenuEntry>)
    ensures
        multi_window ==> r@.len() == 3,
        multi_window ==> item_is(r@[0], "New Window"@, "n"@, RUN_ME_TAG),
        !multi_window ==> r@.len() == 5,
        !multi_window ==> item_is(r@[0], "About"@, "a"@, SHOW_ABOUT_TAG),
        !multi_window ==> r@[1] is Separator,
        !multi_window ==> item_is(r@[2], "Settings"@, "s"@, SHOW_SETTINGS_TAG),
        r@[r@.len() - 2] is Separator,
        item_is(r@[r@.len() - 1], "Quit "@ + app_name@, "q"@, TERMINATE_TAG),
{
    let mut entries: Vec<MenuEntry> = Vec::new();
    if multi_window {
        entries.push(make_item("New Window", "n", RUN_ME_TAG));
    } else {
        // When the app is launched without arguments, it is the main panel.
        entries.push(make_item("About", "a", SHOW_ABOUT_TAG));
        entries.push(MenuEntry::Separator);
        entries.push(make_item("Settings", "s", SHOW_SETTINGS_TAG));
    }
    entries.push(MenuEntry::Separator);
    let mut quit_title = String::new();
    quit_title.append("Quit ");
    quit_title.append(app_name);
    let mut quit_key = String::new();
    quit_key.append("q");
    entries.push(MenuEntry::Item { title: quit_title, key: quit_key, tag: TERMINATE_TAG });
    entries
}

} // verus!
