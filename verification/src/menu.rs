//! The menu, and what its commands do.
//!
//! A webview provides no editing commands of its own. On macOS that is not a rough edge but a
//! blocker: without an Edit menu carrying the standard roles, the system shortcuts for copy, paste
//! and select all do nothing at all. Zoom is here for the same reason.

use crate::http::VERSION;
use crate::text::same_text;
use crate::zoom::{NO_STEP, STEP_DOWN, STEP_UP};
use vstd::prelude::*;

verus! {

/// Something that the system does by itself.
#[derive(Debug, Clone, Copy, PartialEq, Eq, Structural)]
pub enum Role {
    Separator,
    Hide,
    HideOthers,
    ShowAll,
    Quit,
    Undo,
    Redo,
    Cut,
    Copy,
    Paste,
    SelectAll,
    Fullscreen,
    Minimize,
    Maximize,
    CloseWindow,
}

/// A line of a menu.
#[derive(Debug)]
pub enum MenuEntry {
    /// Opens the panel that names the app and its version.
    About { name: String, version: String },
    /// Done by the system.
    Standard(Role),
    /// Done by the shell, which is told the identifier.
    Command { id: String, label: String, accelerator: String },
}

/// One menu of the menu bar.
#[derive(Debug)]
pub struct Submenu {
    pub title: String,
    pub entries: Vec<MenuEntry>,
}

/// A line of a menu, with its text as characters.
pub enum EntryModel {
    About { name: Seq<char>, version: Seq<char> },
    Standard(Role),
    Command { id: Seq<char>, label: Seq<char>, accelerator: Seq<char> },
}

/// One menu of the menu bar, with its text as characters.
pub struct SubmenuModel {
    pub title: Seq<char>,
    pub entries: Seq<EntryModel>,
}

/// How the zoom changes: by a step, or back to the actual size.
#[derive(Debug, Clone, Copy, PartialEq, Eq, Structural)]
pub struct ZoomCommand {
    /// The bits of the number that is added to the factor in force.
    pub change: u64,
    pub reset: bool,
}

impl View for MenuEntry {
    type V = EntryModel;

    open spec fn view(&self) -> EntryModel {
        match self {
            MenuEntry::About { name, version } => EntryModel::About {
                name: name@,
                version: version@,
            },
            MenuEntry::Standard(role) => EntryModel::Standard(*role),
            MenuEntry::Command { id, label, accelerator } => EntryModel::Command {
                id: id@,
                label: label@,
                accelerator: accelerator@,
            },
        }
    }
}

impl View for Submenu {
    type V = SubmenuModel;

    open spec fn view(&self) -> SubmenuModel {
        SubmenuModel { title: self.title@, entries: entry_models(self.entries@) }
    }
}

/// The lines of a menu, with their text as characters.
pub open spec fn entry_models(entries: Seq<MenuEntry>) -> Seq<EntryModel> {
    entries.map_values(|entry: MenuEntry| entry@)
}

/// The menus of a menu bar, with their text as characters.
pub open spec fn submenu_models(submenus: Seq<Submenu>) -> Seq<SubmenuModel> {
    submenus.map_values(|submenu: Submenu| submenu@)
}

/// The menu that goes by the name of the app.
pub open spec fn app_menu() -> SubmenuModel {
    SubmenuModel {
        title: "Scalar"@,
        entries: seq![
            EntryModel::About { name: "Scalar"@, version: VERSION@ },
            EntryModel::Standard(Role::Separator),
            EntryModel::Standard(Role::Hide),
            EntryModel::Standard(Role::HideOthers),
            EntryModel::Standard(Role::ShowAll),
            EntryModel::Standard(Role::Separator),
            EntryModel::Standard(Role::Quit),
        ],
    }
}

/// The menu with the editing commands.
pub open spec fn edit_menu() -> SubmenuModel {
    SubmenuModel {
        title: "Edit"@,
        entries: seq![
            EntryModel::Standard(Role::Undo),
            EntryModel::Standard(Role::Redo),
            EntryModel::Standard(Role::Separator),
            EntryModel::Standard(Role::Cut),
            EntryModel::Standard(Role::Copy),
            EntryModel::Standard(Role::Paste),
            EntryModel::Standard(Role::SelectAll),
        ],
    }
}

/// The menu with the zoom.
pub open spec fn view_menu() -> SubmenuModel {
    SubmenuModel {
        title: "View"@,
        entries: seq![
            EntryModel::Command {
                id: "zoom-in"@,
                label: "Zoom In"@,
                accelerator: "CmdOrCtrl+="@,
            },
            EntryModel::Command {
                id: "zoom-out"@,
                label: "Zoom Out"@,
                accelerator: "CmdOrCtrl+-"@,
            },
            EntryModel::Command {
                id: "zoom-reset"@,
                label: "Actual Size"@,
                accelerator: "CmdOrCtrl+0"@,
            },
            EntryModel::Standard(Role::Separator),
            EntryModel::Standard(Role::Fullscreen),
        ],
    }
}

/// The menu with what a window can do.
pub open spec fn window_menu() -> SubmenuModel {
    SubmenuModel {
        title: "Window"@,
        entries: seq![
            EntryModel::Standard(Role::Minimize),
            EntryModel::Standard(Role::Maximize),
            EntryModel::Standard(Role::Separator),
            EntryModel::Standard(Role::CloseWindow),
        ],
    }
}

/// The whole menu bar, from left to right.
pub open spec fn menu_bar() -> Seq<SubmenuModel> {
    seq![app_menu(), edit_menu(), view_menu(), window_menu()]
}

/// What the command called `id` does to the zoom.
pub open spec fn zoom_command(id: Seq<char>) -> Option<ZoomCommand> {
    if id == "zoom-in"@ {
        Some(ZoomCommand { change: STEP_UP, reset: false })
    } else if id == "zoom-out"@ {
        Some(ZoomCommand { change: STEP_DOWN, reset: false })
    } else if id == "zoom-reset"@ {
        Some(ZoomCommand { change: NO_STEP, reset: true })
    } else {
        None
    }
}

/// A line of the menu that the shell is told of.
fn command(id: &str, label: &str, accelerator: &str) -> (r: MenuEntry)
    ensures
        r@ == (EntryModel::Command { id: id@, label: label@, accelerator: accelerator@ }),
{
    MenuEntry::Command {
        id: id.to_owned(),
        label: label.to_owned(),
        accelerator: accelerator.to_owned(),
    }
}

/// The menu that goes by the name of the app.
fn build_app_menu() -> (r: Submenu)
    ensures
        r@ == app_menu(),
{
    let mut entries: Vec<MenuEntry> = Vec::new();
    entries.push(MenuEntry::About { name: "Scalar".to_owned(), version: VERSION.to_owned() });
    entries.push(MenuEntry::Standard(Role::Separator));
    entries.push(MenuEntry::Standard(Role::Hide));
    entries.push(MenuEntry::Standard(Role::HideOthers));
    entries.push(MenuEntry::Standard(Role::ShowAll));
    entries.push(MenuEntry::Standard(Role::Separator));
    entries.push(MenuEntry::Standard(Role::Quit));
    assert(entry_models(entries@) =~= app_menu().entries);
    Submenu { title: "Scalar".to_owned(), entries }
}

/// The menu with the editing commands.
fn build_edit_menu() -> (r: Submenu)
    ensures
        r@ == edit_menu(),
{
    let mut entries: Vec<MenuEntry> = Vec::new();
    entries.push(MenuEntry::Standard(Role::Undo));
    entries.push(MenuEntry::Standard(Role::Redo));
    entries.push(MenuEntry::Standard(Role::Separator));
    entries.push(MenuEntry::Standard(Role::Cut));
    entries.push(MenuEntry::Standard(Role::Copy));
    entries.push(MenuEntry::Standard(Role::Paste));
    entries.push(MenuEntry::Standard(Role::SelectAll));
    assert(entry_models(entries@) =~= edit_menu().entries);
    Submenu { title: "Edit".to_owned(), entries }
}

/// The menu with the zoom.
fn build_view_menu() -> (r: Submenu)
    ensures
        r@ == view_menu(),
{
    let mut entries: Vec<MenuEntry> = Vec::new();
    // Equal rather than Plus: the plus character needs Shift on most layouts, and Tauri does not
    // parse "Plus" as a key at all, which silently left Zoom In with no shortcut. Ctrl+= is what
    // browsers bind, and it is reached without a modifier dance.
    entries.push(command("zoom-in", "Zoom In", "CmdOrCtrl+="));
    entries.push(command("zoom-out", "Zoom Out", "CmdOrCtrl+-"));
    entries.push(command("zoom-reset", "Actual Size", "CmdOrCtrl+0"));
    entries.push(MenuEntry::Standard(Role::Separator));
    entries.push(MenuEntry::Standard(Role::Fullscreen));
    assert(entry_models(entries@) =~= view_menu().entries);
    Submenu { title: "View".to_owned(), entries }
}

/// The menu with what a window can do.
fn build_window_menu() -> (r: Submenu)
    ensures
        r@ == window_menu(),
{
    let mut entries: Vec<MenuEntry> = Vec::new();
    entries.push(MenuEntry::Standard(Role::Minimize));
    entries.push(MenuEntry::Standard(Role::Maximize));
    entries.push(MenuEntry::Standard(Role::Separator));
    entries.push(MenuEntry::Standard(Role::CloseWindow));
    assert(entry_models(entries@) =~= window_menu().entries);
    Submenu { title: "Window".to_owned(), entries }
}

/// The menu.
pub fn build_menu() -> (r: Vec<Submenu>)
    ensures
        submenu_models(r@) == menu_bar(),
{
    let mut submenus: Vec<Submenu> = Vec::new();
    submenus.push(build_app_menu());
    submenus.push(build_edit_menu());
    submenus.push(build_view_menu());
    submenus.push(build_window_menu());
    assert(submenu_models(submenus@) =~= menu_bar());
    submenus
}

/// What the command called `id` does to the zoom, where it is one of the zoom commands.
pub fn on_menu_event(id: &str) -> (r: Option<ZoomCommand>)
    ensures
        r == zoom_command(id@),
{
    if same_text(id, "zoom-in") {
        Some(ZoomCommand { change: STEP_UP, reset: false })
    } else if same_text(id, "zoom-out") {
        Some(ZoomCommand { change: STEP_DOWN, reset: false })
    } else if same_text(id, "zoom-reset") {
        Some(ZoomCommand { change: NO_STEP, reset: true })
    } else {
        None
    }
}

/// Whether some menu of a menu bar has this line.
pub open spec fn offers(bar: Seq<SubmenuModel>, entry: EntryModel) -> bool {
    exists|i: int, j: int|
        0 <= i < bar.len() && 0 <= j < bar[i].entries.len() && #[trigger] bar[i].entries[j] == entry
}

/// Every editing command that a webview lacks is in the menu.
pub proof fn editing_is_offered()
    ensures
        offers(menu_bar(), EntryModel::Standard(Role::Undo)),
        offers(menu_bar(), EntryModel::Standard(Role::Redo)),
        offers(menu_bar(), EntryModel::Standard(Role::Cut)),
        offers(menu_bar(), EntryModel::Standard(Role::Copy)),
        offers(menu_bar(), EntryModel::Standard(Role::Paste)),
        offers(menu_bar(), EntryModel::Standard(Role::SelectAll)),
{
    let bar = menu_bar();
    assert(bar[1].entries[0] == EntryModel::Standard(Role::Undo));
    assert(bar[1].entries[1] == EntryModel::Standard(Role::Redo));
    assert(bar[1].entries[3] == EntryModel::Standard(Role::Cut));
    assert(bar[1].entries[4] == EntryModel::Standard(Role::Copy));
    assert(bar[1].entries[5] == EntryModel::Standard(Role::Paste));
    assert(bar[1].entries[6] == EntryModel::Standard(Role::SelectAll));
}

/// The menu and the shell agree on the commands: each one in the menu does something, and each one
/// that does something is in the menu, with a shortcut.
pub proof fn menu_commands_are_understood(id: Seq<char>)
    ensures
        zoom_command(id) is Some <==> exists|label: Seq<char>, accelerator: Seq<char>|
            accelerator.len() > 0 && #[trigger] offers(
                menu_bar(),
                EntryModel::Command { id, label, accelerator },
            ),
        forall|label: Seq<char>, accelerator: Seq<char>| #[trigger]
            offers(menu_bar(), EntryModel::Command { id, label, accelerator }) ==> accelerator.len()
                > 0,
{
    let bar = menu_bar();
    reveal_strlit("CmdOrCtrl+=");
    reveal_strlit("CmdOrCtrl+-");
    reveal_strlit("CmdOrCtrl+0");
    assert forall|label: Seq<char>, accelerator: Seq<char>| #[trigger]
        offers(bar, EntryModel::Command { id, label, accelerator }) implies accelerator.len() > 0
        && zoom_command(id) is Some by {
        let entry = EntryModel::Command { id, label, accelerator };
        let (i, j) = choose|i: int, j: int|
            0 <= i < bar.len() && 0 <= j < bar[i].entries.len() && #[trigger] bar[i].entries[j]
                == entry;
        if i == 0 {
            assert(bar[i] == app_menu());
        } else if i == 1 {
            assert(bar[i] == edit_menu());
        } else if i == 2 {
            assert(bar[i] == view_menu());
        } else {
            assert(bar[i] == window_menu());
        }
    }
    if id == "zoom-in"@ {
        let entry = EntryModel::Command {
            id,
            label: "Zoom In"@,
            accelerator: "CmdOrCtrl+="@,
        };
        assert(bar[2].entries[0] == entry);
        assert(offers(bar, entry));
    } else if id == "zoom-out"@ {
        let entry = EntryModel::Command {
            id,
            label: "Zoom Out"@,
            accelerator: "CmdOrCtrl+-"@,
        };
        assert(bar[2].entries[1] == entry);
        assert(offers(bar, entry));
    } else if id == "zoom-reset"@ {
        let entry = EntryModel::Command {
            id,
            label: "Actual Size"@,
            accelerator: "CmdOrCtrl+0"@,
        };
        assert(bar[2].entries[2] == entry);
        assert(offers(bar, entry));
    }
}

/// A menu has the lines of its model, one for one.
proof fn lemma_entries(submenu: Submenu, model: SubmenuModel)
    requires
        submenu@ == model,
    ensures
        submenu.title@ == model.title,
        submenu.entries@.len() == model.entries.len(),
        forall|j: int|
            0 <= j < model.entries.len() ==> (#[trigger] submenu.entries@[j])@ == model.entries[j],
{
    assert forall|j: int| 0 <= j < model.entries.len() implies (#[trigger] submenu.entries@[j])@
        == model.entries[j] by {
        assert(entry_models(submenu.entries@)[j] == model.entries[j]);
    }
}

/// A menu bar that is made as it should be has these menus with these lines, from left to right and
/// from top to bottom.
pub proof fn menu_bar_is_complete(submenus: Seq<Submenu>)
    requires
        submenu_models(submenus) == menu_bar(),
    ensures
        submenus.len() == 4,
        submenus[0].title@ == "Scalar"@,
        submenus[0].entries@.len() == 7,
        submenus[0].entries@[0] matches MenuEntry::About { name, version } && name@ == "Scalar"@
            && version@ == "0.1.0"@,
        submenus[0].entries@[1] == MenuEntry::Standard(Role::Separator),
        submenus[0].entries@[2] == MenuEntry::Standard(Role::Hide),
        submenus[0].entries@[3] == MenuEntry::Standard(Role::HideOthers),
        submenus[0].entries@[4] == MenuEntry::Standard(Role::ShowAll),
        submenus[0].entries@[5] == MenuEntry::Standard(Role::Separator),
        submenus[0].entries@[6] == MenuEntry::Standard(Role::Quit),
        submenus[1].title@ == "Edit"@,
        submenus[1].entries@.len() == 7,
        submenus[1].entries@[0] == MenuEntry::Standard(Role::Undo),
        submenus[1].entries@[1] == MenuEntry::Standard(Role::Redo),
        submenus[1].entries@[2] == MenuEntry::Standard(Role::Separator),
        submenus[1].entries@[3] == MenuEntry::Standard(Role::Cut),
        submenus[1].entries@[4] == MenuEntry::Standard(Role::Copy),
        submenus[1].entries@[5] == MenuEntry::Standard(Role::Paste),
        submenus[1].entries@[6] == MenuEntry::Standard(Role::SelectAll),
        submenus[2].title@ == "View"@,
        submenus[2].entries@.len() == 5,
        submenus[2].entries@[0] matches MenuEntry::Command { id, label, accelerator } && id@
            == "zoom-in"@ && label@ == "Zoom In"@ && accelerator@ == "CmdOrCtrl+="@,
        submenus[2].entries@[1] matches MenuEntry::Command { id, label, accelerator } && id@
            == "zoom-out"@ && label@ == "Zoom Out"@ && accelerator@ == "CmdOrCtrl+-"@,
        submenus[2].entries@[2] matches MenuEntry::Command { id, label, accelerator } && id@
            == "zoom-reset"@ && label@ == "Actual Size"@ && accelerator@ == "CmdOrCtrl+0"@,
        submenus[2].entries@[3] == MenuEntry::Standard(Role::Separator),
        submenus[2].entries@[4] == MenuEntry::Standard(Role::Fullscreen),
        submenus[3].title@ == "Window"@,
        submenus[3].entries@.len() == 4,
        submenus[3].entries@[0] == MenuEntry::Standard(Role::Minimize),
        submenus[3].entries@[1] == MenuEntry::Standard(Role::Maximize),
        submenus[3].entries@[2] == MenuEntry::Standard(Role::Separator),
        submenus[3].entries@[3] == MenuEntry::Standard(Role::CloseWindow),
{
    let bar = submenu_models(submenus);
    assert(bar.len() == submenus.len());
    assert(bar[0] == submenus[0]@ && bar[1] == submenus[1]@);
    assert(bar[2] == submenus[2]@ && bar[3] == submenus[3]@);
    lemma_entries(submenus[0], app_menu());
    lemma_entries(submenus[1], edit_menu());
    lemma_entries(submenus[2], view_menu());
    lemma_entries(submenus[3], window_menu());
}

/// Zooming in adds 0.1, zooming out takes as much away, which differs in the sign bit alone, and
/// the actual size is a reset, which adds nothing. No other command changes the zoom.
pub proof fn commands_step_the_zoom(id: Seq<char>)
    ensures
        id == "zoom-in"@ ==> (zoom_command(id) matches Some(command) && command.change
            == 0x3FB9_9999_9999_999A && !command.reset),
        id == "zoom-out"@ ==> (zoom_command(id) matches Some(command) && command.change
            == 0x3FB9_9999_9999_999A + 0x8000_0000_0000_0000 && !command.reset),
        id == "zoom-reset"@ ==> (zoom_command(id) matches Some(command) && command.change == 0
            && command.reset),
        id != "zoom-in"@ && id != "zoom-out"@ && id != "zoom-reset"@ ==> zoom_command(id) is None,
{
    reveal_strlit("zoom-in");
    reveal_strlit("zoom-out");
    reveal_strlit("zoom-reset");
    assert("zoom-in"@.len() < "zoom-out"@.len() < "zoom-reset"@.len());
}

} // verus!
