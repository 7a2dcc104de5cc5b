//! The systems that the shell runs on.

use vstd::prelude::*;

verus! {

/// The systems that the shell runs on.
#[derive(Debug, Clone, Copy, PartialEq, Eq, Structural)]
pub enum Platform {
    Macos,
    Windows,
    Linux,
    Ios,
    Android,
}

impl Platform {
    /// What the interface calls the platform.
    pub open spec fn name(self) -> Seq<char> {
        match self {
            Platform::Macos => "macos"@,
            Platform::Windows => "windows"@,
            Platform::Linux => "linux"@,
            Platform::Ios => "ios"@,
            Platform::Android => "android"@,
        }
    }

    /// Whether windows can be moved about, rather than filling a phone's screen.
    pub open spec fn is_desktop(self) -> bool {
        self != Platform::Ios && self != Platform::Android
    }

    /// Whether the app draws the title bar.
    pub open spec fn draws_title_bar(self) -> bool {
        self == Platform::Macos || self == Platform::Windows
    }

    /// What the interface calls the platform.
    pub fn as_str(self) -> (r: &'static str)
        ensures
            r@ == self.name(),
    {
        match self {
            Platform::Macos => "macos",
            Platform::Windows => "windows",
            Platform::Linux => "linux",
            Platform::Ios => "ios",
            Platform::Android => "android",
        }
    }

    /// Whether windows can be moved about, rather than filling a phone's screen.
    pub fn has_windows(self) -> (r: bool)
        ensures
            r == self.is_desktop(),
    {
        self != Platform::Ios && self != Platform::Android
    }

    /// Whether the app draws the title bar.
    pub fn draws_its_title_bar(self) -> (r: bool)
        ensures
            r == self.draws_title_bar(),
    {
        self == Platform::Macos || self == Platform::Windows
    }
}

/// The five platforms, by name and kind: the title bar is drawn by the app on macOS and Windows
/// alone, and phones are the two that have no windows to move about.
pub proof fn platforms_differ(platform: Platform)
    ensures
        platform.draws_title_bar() <==> platform == Platform::Macos || platform
            == Platform::Windows,
        !platform.is_desktop() <==> platform == Platform::Ios || platform == Platform::Android,
        platform == Platform::Macos ==> platform.name() == "macos"@,
        platform == Platform::Windows ==> platform.name() == "windows"@,
        platform == Platform::Linux ==> platform.name() == "linux"@,
        platform == Platform::Ios ==> platform.name() == "ios"@,
        platform == Platform::Android ==> platform.name() == "android"@,
{
}

} // verus!
