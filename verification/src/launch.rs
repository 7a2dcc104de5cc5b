//! What a launch sets up, and what becomes of the events that follow it.

use crate::menu::{build_menu, menu_bar, submenu_models, Submenu};
use crate::platform::Platform;
use crate::text::join;
use crate::window::{plan_window, remembered, remembered_state};
use crate::window::{StateFlags, WindowAction, WindowPlan};
use vstd::prelude::*;

verus! {

/// Everything a launch sets up.
#[derive(Debug)]
pub struct LaunchPlan {
    /// What is remembered of windows between launches. Meaningless on a phone, where the system
    /// owns the window.
    pub remembered: Option<StateFlags>,
    /// Whether launching again comes back to the copy that runs. Meaningless on a phone, where
    /// only one copy of an app ever runs.
    pub single_instance: bool,
    pub menu: Option<Vec<Submenu>>,
    pub window: WindowPlan,
}

/// Something that happens to the running app.
#[derive(Debug, Clone, Copy, PartialEq, Eq, Structural)]
pub enum RunEvent {
    /// The app is about to end.
    Exit,
    Other,
}

/// Whether a platform has the menu.
///
/// Everywhere on the desktop but on Windows. On macOS the menu lives in the system menu bar, where
/// it is the only way copy and paste work at all in a webview, and Linux keeps its system
/// decorations so a menu bar sits where one is expected. On Windows a menu set on the window is a
/// Win32 menu bar, and with the decorations off it draws in the wrong place, behind the webview,
/// unclickable until Alt is pressed. A broken menu bar is worse than none, and WebView2 handles
/// editing and zoom keys itself, so nothing is lost by leaving it off there.
pub open spec fn has_menu(platform: Platform) -> bool {
    platform.is_desktop() && platform != Platform::Windows
}

/// What is done to the window when the app is launched again.
pub open spec fn second_launch(window_open: bool) -> Seq<WindowAction> {
    if window_open {
        seq![WindowAction::Unminimize, WindowAction::Show, WindowAction::Focus]
    } else {
        seq![]
    }
}

impl LaunchPlan {
    /// Whether this is the launch for a platform.
    pub open spec fn suits(&self, platform: Platform, debug: bool) -> bool {
        &&& self.remembered == remembered(platform)
        &&& self.single_instance == platform.is_desktop()
        &&& match self.menu {
            Some(menu) => has_menu(platform) && submenu_models(menu@) == menu_bar(),
            None => !has_menu(platform),
        }
        &&& self.window.suits(platform, debug)
    }
}

/// Everything a launch sets up on a platform, in a debug build or not.
pub fn plan_launch(platform: Platform, debug: bool) -> (r: LaunchPlan)
    ensures
        r.suits(platform, debug),
{
    let menu = if platform.has_windows() && platform != Platform::Windows {
        Some(build_menu())
    } else {
        None
    };
    LaunchPlan {
        remembered: remembered_state(platform),
        single_instance: platform.has_windows(),
        menu,
        window: plan_window(platform, debug),
    }
}

/// What is done to the window when the app is launched again.
///
/// Launching again should bring the window you already have to the front rather than opening a
/// second one with the same session.
pub fn on_second_launch(window_open: bool) -> (r: Vec<WindowAction>)
    ensures
        r@ == second_launch(window_open),
{
    let mut actions: Vec<WindowAction> = Vec::new();
    if window_open {
        actions.push(WindowAction::Unminimize);
        actions.push(WindowAction::Show);
        actions.push(WindowAction::Focus);
    }
    actions
}

/// Whether the jar is written out on this event, where there is one.
///
/// Signing in already saves the jar. This covers the rest: cookies the server rotated or expired
/// during the session, which would otherwise be lost on the way out.
pub fn on_run_event(event: RunEvent, has_jar: bool) -> (r: bool)
    ensures
        r == (event == RunEvent::Exit && has_jar),
{
    event == RunEvent::Exit && has_jar
}

/// What is said where the platform gives the app no directory for its own data.
pub fn data_directory_error(error: &str) -> (r: String)
    ensures
        r@ == "no app data directory: "@ + error@,
{
    join("no app data directory: ", error)
}

/// No launch sets a menu over a title bar that the app draws all of.
pub proof fn no_menu_on_an_undecorated_window(plan: LaunchPlan, platform: Platform, debug: bool)
    requires
        plan.suits(platform, debug),
        plan.window.title_bar == crate::window::TitleBar::Undecorated,
    ensures
        plan.menu is None,
{
}

/// A window is restored by the same properties that were remembered of it.
pub proof fn restored_as_remembered(plan: LaunchPlan, platform: Platform, debug: bool)
    requires
        plan.suits(platform, debug),
    ensures
        plan.window.restored == plan.remembered,
{
}

/// On the desktop an app has one running copy, and its windows are remembered by size and place; on
/// a phone neither is kept. The menu is there on macOS and Linux alone.
pub proof fn launch_goes_by_the_platform(plan: LaunchPlan, platform: Platform, debug: bool)
    requires
        plan.suits(platform, debug),
    ensures
        plan.menu is Some <==> platform == Platform::Macos || platform == Platform::Linux,
        plan.menu matches Some(menu) ==> submenu_models(menu@) == menu_bar(),
        plan.single_instance <==> platform == Platform::Macos || platform == Platform::Windows
            || platform == Platform::Linux,
        plan.remembered is Some <==> plan.single_instance,
        plan.remembered matches Some(flags) ==> flags.size && flags.position && flags.maximized
            && flags.fullscreen && !flags.visible && !flags.decorations,
        plan.window.suits(platform, debug),
{
}

/// Launching again brings a minimized or hidden window back, and only then to the front, in three
/// steps; without a window nothing is done.
pub proof fn launching_again_ends_in_front(window_open: bool)
    ensures
        !window_open ==> second_launch(window_open).len() == 0,
        window_open ==> {
            &&& second_launch(window_open).len() == 3
            &&& second_launch(window_open)[0] == WindowAction::Unminimize
            &&& second_launch(window_open)[1] == WindowAction::Show
            &&& second_launch(window_open)[2] == WindowAction::Focus
        },
{
}

} // verus!
