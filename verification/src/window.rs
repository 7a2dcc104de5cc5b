//! What a window has, and what is done to it.

use crate::platform::Platform;
use crate::script::{boot, boot_script, chrome, BOOTSTRAP};
use crate::script::{CHROME_REST, CHROME_UP_TO_HEIGHT, CHROME_UP_TO_PLATFORM};
use vstd::prelude::*;

verus! {

/// What the shell finds the app's window by.
pub const MAIN_WINDOW: &'static str = "main";

/// The screen the app starts on.
///
/// Not `/`. In the browser build that path is a server redirect to Today, and a static export has
/// no server to perform it: `/` exports as an error document, so opening it showed an empty window.
/// The app starts on the screen the redirect pointed at, and the shell sends anyone signed out to
/// the sign in screen from there.
pub const START_PAGE: &'static str = "today/";

/// What the window is called.
pub const TITLE: &'static str = "Scalar";

/// Something done to a window.
#[derive(Debug, Clone, Copy, PartialEq, Eq, Structural)]
pub enum WindowAction {
    Maximize,
    Unmaximize,
    Unminimize,
    Show,
    Focus,
}

/// What the button that maximizes a window does.
#[derive(Debug, Clone, Copy, PartialEq, Eq, Structural)]
pub struct Toggle {
    pub action: WindowAction,
    /// The state it leaves the window in, so the button can show the right icon without asking.
    pub maximized: bool,
}

/// Which properties of a window are remembered between launches.
#[derive(Debug, Clone, Copy, PartialEq, Eq, Structural)]
pub struct StateFlags {
    pub size: bool,
    pub position: bool,
    pub maximized: bool,
    pub visible: bool,
    pub decorations: bool,
    pub fullscreen: bool,
}

/// Sizes in logical pixels.
#[derive(Debug, Clone, Copy, PartialEq, Eq, Structural)]
pub struct Sizing {
    pub width: u32,
    pub height: u32,
    pub min_width: u32,
    pub min_height: u32,
    pub resizable: bool,
}

/// Who draws the title bar.
#[derive(Debug, Clone, Copy, PartialEq, Eq, Structural)]
pub enum TitleBar {
    /// The system, in its own way.
    System,
    /// The app, behind the buttons that the system keeps in place, with the title hidden.
    Overlay,
    /// The app, all of it, with the drop shadow that an undecorated window would lack.
    Undecorated,
}

/// A window as it is to be built.
#[derive(Debug)]
pub struct WindowPlan {
    pub label: String,
    pub page: String,
    pub title: String,
    /// Attached to the window so that it runs before the app's own scripts.
    pub script: String,
    /// Meaningless on a phone, where the window is the screen.
    pub sizing: Option<Sizing>,
    pub title_bar: TitleBar,
    pub devtools: bool,
    /// What is restored explicitly, over the default size. A window that is built rather than
    /// declared is not restored otherwise.
    pub restored: Option<StateFlags>,
}

/// Geometry, not chrome. Whether there are decorations is the build's decision, not a preference
/// to remember: restoring them puts the system title bar back over the one the app draws.
pub open spec fn geometry() -> StateFlags {
    StateFlags {
        size: true,
        position: true,
        maximized: true,
        visible: false,
        decorations: false,
        fullscreen: true,
    }
}

/// The size a window opens at, and the least it can be made.
pub open spec fn default_sizing() -> Sizing {
    Sizing { width: 1100, height: 760, min_width: 380, min_height: 560, resizable: true }
}

/// Who draws the title bar on a platform.
pub open spec fn title_bar(platform: Platform) -> TitleBar {
    match platform {
        Platform::Macos => TitleBar::Overlay,
        Platform::Windows => TitleBar::Undecorated,
        _ => TitleBar::System,
    }
}

/// What is remembered of windows on a platform.
pub open spec fn remembered(platform: Platform) -> Option<StateFlags> {
    if platform.is_desktop() {
        Some(geometry())
    } else {
        None
    }
}

/// What the button does to a window that is, or is not, maximized.
pub open spec fn toggled(maximized: bool) -> Toggle {
    Toggle {
        action: if maximized {
            WindowAction::Unmaximize
        } else {
            WindowAction::Maximize
        },
        maximized: !maximized,
    }
}

impl WindowPlan {
    /// Whether this is the window for a platform.
    pub open spec fn suits(&self, platform: Platform, debug: bool) -> bool {
        &&& self.label@ == MAIN_WINDOW@
        &&& self.page@ == START_PAGE@
        &&& self.title@ == TITLE@
        &&& self.script@ == boot(platform)
        &&& self.sizing == if platform.is_desktop() {
            Some(default_sizing())
        } else {
            None
        }
        &&& self.title_bar == title_bar(platform)
        &&& self.devtools == (platform.is_desktop() && debug)
        &&& self.restored == remembered(platform)
    }
}

/// The button that maximizes a window, or brings it back.
pub fn window_toggle_maximize(maximized: bool) -> (r: Toggle)
    ensures
        r == toggled(maximized),
{
    if maximized {
        Toggle { action: WindowAction::Unmaximize, maximized: false }
    } else {
        Toggle { action: WindowAction::Maximize, maximized: true }
    }
}

/// What is remembered of windows on a platform.
pub fn remembered_state(platform: Platform) -> (r: Option<StateFlags>)
    ensures
        r == remembered(platform),
{
    if platform.has_windows() {
        Some(
            StateFlags {
                size: true,
                position: true,
                maximized: true,
                visible: false,
                decorations: false,
                fullscreen: true,
            },
        )
    } else {
        None
    }
}

/// Who draws the title bar on a platform.
///
/// On macOS the traffic lights stay where every Mac user expects them and the bar slides behind
/// them. Windows draws its own chrome. Linux keeps the system decorations: undecorated windows are
/// the least consistent there across desktop environments, and a window that cannot be moved or
/// resized on somebody's compositor is a worse outcome than a title bar that does not match.
pub fn choose_title_bar(platform: Platform) -> (r: TitleBar)
    ensures
        r == title_bar(platform),
{
    match platform {
        Platform::Macos => TitleBar::Overlay,
        Platform::Windows => TitleBar::Undecorated,
        _ => TitleBar::System,
    }
}

/// The window for a platform. `debug` is whether this is a debug build, which opens the developer
/// tools: a webview with no address bar gives you nothing at all when a script fails.
pub fn plan_window(platform: Platform, debug: bool) -> (r: WindowPlan)
    ensures
        r.suits(platform, debug),
{
    let sizing = if platform.has_windows() {
        Some(Sizing { width: 1100, height: 760, min_width: 380, min_height: 560, resizable: true })
    } else {
        None
    };
    WindowPlan {
        label: MAIN_WINDOW.to_owned(),
        page: START_PAGE.to_owned(),
        title: TITLE.to_owned(),
        script: boot_script(platform),
        sizing,
        title_bar: choose_title_bar(platform),
        devtools: platform.has_windows() && debug,
        restored: remembered_state(platform),
    }
}

/// Pressing the button twice brings the window back to the state it was in, by opposite actions,
/// each of which leaves the window in the state that the button then shows.
pub proof fn toggling_twice_restores(maximized: bool)
    ensures
        toggled(toggled(maximized).maximized).maximized == maximized,
        toggled(toggled(maximized).maximized).action != toggled(maximized).action,
        toggled(maximized).maximized != maximized,
        toggled(maximized).action == WindowAction::Maximize <==> toggled(maximized).maximized,
        toggled(maximized).action == WindowAction::Unmaximize <==> !toggled(maximized).maximized,
{
}

/// A remembered window never brings the system's title bar back over one the app draws: no
/// platform restores decorations. Every one but a phone restores the rest of the geometry.
pub proof fn decorations_are_never_restored(platform: Platform)
    ensures
        remembered(platform) matches Some(flags) ==> !flags.decorations,
        remembered(platform) matches Some(flags) ==> flags.size && flags.position && flags.maximized
            && flags.fullscreen && !flags.visible,
        remembered(platform) is None <==> platform == Platform::Ios || platform
            == Platform::Android,
{
}

/// The interface is told of a title bar to draw exactly where the system's is gone: behind the
/// buttons on macOS, and entirely on Windows.
pub proof fn drawn_bar_replaces_the_systems(platform: Platform)
    ensures
        platform.draws_title_bar() <==> title_bar(platform) != TitleBar::System,
        title_bar(platform) == TitleBar::Overlay <==> platform == Platform::Macos,
        title_bar(platform) == TitleBar::Undecorated <==> platform == Platform::Windows,
{
}

/// Wherever the system's title bar is gone, the interface gets what replaces it: after the transport
/// comes all of the chrome script, with the platform's name and the height of the bar. Everywhere
/// else there is the transport alone.
pub proof fn interface_gets_what_replaces_the_title_bar(platform: Platform)
    ensures
        title_bar(platform) == TitleBar::System ==> boot(platform) == BOOTSTRAP@,
        title_bar(platform) != TitleBar::System ==> boot(platform) == BOOTSTRAP@
            + CHROME_UP_TO_PLATFORM@ + platform.name() + CHROME_UP_TO_HEIGHT@ + "36px"@
            + CHROME_REST@,
        title_bar(platform) != TitleBar::System ==> boot(platform) == BOOTSTRAP@ + chrome(platform),
        title_bar(platform) != TitleBar::System ==> platform.name() == if title_bar(platform)
            == TitleBar::Overlay {
            "macos"@
        } else {
            "windows"@
        },
{
    assert(title_bar(platform) != TitleBar::System ==> boot(platform) =~= BOOTSTRAP@
        + CHROME_UP_TO_PLATFORM@ + platform.name() + CHROME_UP_TO_HEIGHT@ + "36px"@ + CHROME_REST@);
}

/// Every window opens on Today under the app's name. Its title bar goes by the platform: behind the
/// system's buttons on macOS, all of it the app's on Windows, and the system's elsewhere. On the
/// desktop it has a size, which it can be given back along with its place, and in a debug build the
/// developer tools; on a phone it has none of these.
pub proof fn window_goes_by_the_platform(plan: WindowPlan, platform: Platform, debug: bool)
    requires
        plan.suits(platform, debug),
    ensures
        plan.label@ == "main"@,
        plan.page@ == "today/"@,
        plan.title@ == "Scalar"@,
        platform == Platform::Macos <==> plan.title_bar == TitleBar::Overlay,
        platform == Platform::Windows <==> plan.title_bar == TitleBar::Undecorated,
        plan.title_bar == TitleBar::System ==> plan.script@ == BOOTSTRAP@,
        plan.title_bar != TitleBar::System ==> plan.script@ == BOOTSTRAP@ + CHROME_UP_TO_PLATFORM@
            + platform.name() + CHROME_UP_TO_HEIGHT@ + "36px"@ + CHROME_REST@,
        platform == Platform::Macos || platform == Platform::Windows || platform == Platform::Linux
            ==> {
            &&& plan.sizing matches Some(sizing)
            &&& sizing.width == 1100
            &&& sizing.height == 760
            &&& sizing.min_width == 380
            &&& sizing.min_height == 560
            &&& sizing.resizable
            &&& plan.restored matches Some(flags)
            &&& flags.size
            &&& flags.position
            &&& flags.maximized
            &&& flags.fullscreen
            &&& !flags.visible
            &&& !flags.decorations
            &&& plan.devtools == debug
        },
        platform == Platform::Ios || platform == Platform::Android ==> {
            &&& plan.sizing is None
            &&& plan.restored is None
            &&& !plan.devtools
        },
{
    interface_gets_what_replaces_the_title_bar(platform);
}

} // verus!
