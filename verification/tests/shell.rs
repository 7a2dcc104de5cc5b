use scalar_desktop::launch::{data_directory_error, on_run_event, on_second_launch, plan_launch};
use scalar_desktop::launch::RunEvent;
use scalar_desktop::menu::{build_menu, on_menu_event, MenuEntry, Role, ZoomCommand};
use scalar_desktop::platform::Platform;
use scalar_desktop::script::{boot_script, chrome_script, BOOTSTRAP};
use scalar_desktop::window::{plan_window, window_toggle_maximize, TitleBar, WindowAction};
use scalar_desktop::zoom::{apply_zoom, current_zoom};

const ALL: [Platform; 5] = [
    Platform::Macos,
    Platform::Windows,
    Platform::Linux,
    Platform::Ios,
    Platform::Android,
];

fn step(stored: u64, command: ZoomCommand) -> u64 {
    let moved = f64::from_bits(current_zoom(stored)) + f64::from_bits(command.change);
    apply_zoom(moved.to_bits(), command.reset)
}

#[test]
fn zoom_commands_step_by_a_tenth() {
    let up = on_menu_event("zoom-in").expect("a command");
    let down = on_menu_event("zoom-out").expect("a command");
    let reset = on_menu_event("zoom-reset").expect("a command");
    assert_eq!(f64::from_bits(up.change), 0.1);
    assert_eq!(f64::from_bits(down.change), -0.1);
    assert_eq!(f64::from_bits(reset.change), 0.0);
    assert_eq!((up.reset, down.reset, reset.reset), (false, false, true));
    assert_eq!(on_menu_event("quit"), None);
    assert_eq!(on_menu_event("zoom-in "), None);
}

#[test]
fn zoom_starts_at_the_actual_size() {
    assert_eq!(f64::from_bits(current_zoom(0)), 1.0);
    assert_eq!(f64::from_bits(current_zoom(1.3f64.to_bits())), 1.3);
}

#[test]
fn zoom_cannot_be_driven_to_something_unreadable() {
    let up = on_menu_event("zoom-in").expect("a command");
    let down = on_menu_event("zoom-out").expect("a command");
    let mut zoom = 0;
    for _ in 0..20 {
        zoom = step(zoom, up);
    }
    assert_eq!(f64::from_bits(zoom), 2.0);
    for _ in 0..40 {
        zoom = step(zoom, down);
    }
    assert_eq!(f64::from_bits(zoom), 0.5);
    zoom = step(zoom, on_menu_event("zoom-reset").expect("a command"));
    assert_eq!(f64::from_bits(zoom), 1.0);
}

#[test]
fn zoom_is_clamped_as_floats_are() {
    let samples = [
        0.0, -0.0, 0.4, 0.5, 0.50001, 0.9, 1.0, 1.1, 1.999999, 2.0, 2.1, 1e300, -1.0, -1e-300,
        1e-310, f64::INFINITY, f64::NEG_INFINITY, f64::MIN, f64::MAX,
    ];
    for sample in samples {
        assert_eq!(f64::from_bits(apply_zoom(sample.to_bits(), false)), sample.clamp(0.5, 2.0));
        assert_eq!(f64::from_bits(apply_zoom(sample.to_bits(), true)), 1.0);
    }
}

#[test]
fn what_is_no_number_zooms_to_the_actual_size() {
    for bits in [f64::NAN.to_bits(), (-f64::NAN).to_bits(), 0x7FF0_0000_0000_0001, u64::MAX] {
        assert!(f64::from_bits(bits).is_nan());
        assert_eq!(f64::from_bits(apply_zoom(bits, false)), 1.0);
        assert_eq!(f64::from_bits(apply_zoom(bits, true)), 1.0);
    }
}

fn describe(entry: &MenuEntry) -> String {
    match entry {
        MenuEntry::About { name, version } => format!("About {name} {version}"),
        MenuEntry::Standard(role) => format!("{role:?}"),
        MenuEntry::Command { id, label, accelerator } => format!("{id}|{label}|{accelerator}"),
    }
}

#[test]
fn the_menu_is_complete() {
    let menu = build_menu();
    let titles: Vec<&str> = menu.iter().map(|submenu| submenu.title.as_str()).collect();
    assert_eq!(titles, vec!["Scalar", "Edit", "View", "Window"]);
    let lines: Vec<Vec<String>> =
        menu.iter().map(|submenu| submenu.entries.iter().map(describe).collect()).collect();
    assert_eq!(
        lines[0],
        vec!["About Scalar 0.1.0", "Separator", "Hide", "HideOthers", "ShowAll", "Separator", "Quit"]
    );
    assert_eq!(
        lines[1],
        vec!["Undo", "Redo", "Separator", "Cut", "Copy", "Paste", "SelectAll"]
    );
    assert_eq!(
        lines[2],
        vec![
            "zoom-in|Zoom In|CmdOrCtrl+=",
            "zoom-out|Zoom Out|CmdOrCtrl+-",
            "zoom-reset|Actual Size|CmdOrCtrl+0",
            "Separator",
            "Fullscreen",
        ]
    );
    assert_eq!(lines[3], vec!["Minimize", "Maximize", "Separator", "CloseWindow"]);
}

#[test]
fn every_command_in_the_menu_does_something() {
    for submenu in build_menu() {
        for entry in submenu.entries {
            if let MenuEntry::Command { id, .. } = entry {
                assert!(on_menu_event(&id).is_some());
            }
        }
    }
}

#[test]
fn editing_is_in_the_menu() {
    let menu = build_menu();
    for role in [Role::Undo, Role::Redo, Role::Cut, Role::Copy, Role::Paste, Role::SelectAll] {
        assert!(menu[1].entries.iter().any(|entry| matches!(entry, MenuEntry::Standard(r) if *r == role)));
    }
}

#[test]
fn the_button_maximizes_and_brings_back() {
    let up = window_toggle_maximize(false);
    assert_eq!((up.action, up.maximized), (WindowAction::Maximize, true));
    let down = window_toggle_maximize(up.maximized);
    assert_eq!((down.action, down.maximized), (WindowAction::Unmaximize, false));
}

#[test]
fn launching_again_brings_the_window_to_the_front() {
    assert_eq!(
        on_second_launch(true),
        vec![WindowAction::Unminimize, WindowAction::Show, WindowAction::Focus]
    );
    assert!(on_second_launch(false).is_empty());
}

#[test]
fn the_jar_is_saved_on_the_way_out() {
    assert!(on_run_event(RunEvent::Exit, true));
    assert!(!on_run_event(RunEvent::Exit, false));
    assert!(!on_run_event(RunEvent::Other, true));
}

#[test]
fn a_platform_without_a_data_directory_is_an_error() {
    assert_eq!(data_directory_error("unknown path"), "no app data directory: unknown path");
}

#[test]
fn the_window_opens_on_today() {
    let plan = plan_window(Platform::Linux, true);
    assert_eq!(plan.label, "main");
    assert_eq!(plan.page, "today/");
    assert_eq!(plan.title, "Scalar");
    assert_eq!(plan.script, BOOTSTRAP);
    let sizing = plan.sizing.expect("a desktop");
    assert_eq!((sizing.width, sizing.height), (1100, 760));
    assert_eq!((sizing.min_width, sizing.min_height), (380, 560));
    assert!(sizing.resizable);
    assert!(plan.devtools);
    assert!(!plan_window(Platform::Linux, false).devtools);
}

#[test]
fn title_bars_are_drawn_where_the_platform_lets_them() {
    let bars: Vec<TitleBar> =
        ALL.iter().map(|platform| plan_window(*platform, false).title_bar).collect();
    assert_eq!(
        bars,
        vec![
            TitleBar::Overlay,
            TitleBar::Undecorated,
            TitleBar::System,
            TitleBar::System,
            TitleBar::System,
        ]
    );
}

#[test]
fn a_phone_has_no_window_to_remember() {
    for platform in [Platform::Ios, Platform::Android] {
        let plan = plan_launch(platform, true);
        assert!(plan.remembered.is_none());
        assert!(plan.window.restored.is_none());
        assert!(plan.window.sizing.is_none());
        assert!(!plan.window.devtools);
        assert!(!plan.single_instance);
        assert!(plan.menu.is_none());
    }
}

#[test]
fn geometry_is_remembered_and_decorations_are_not() {
    for platform in [Platform::Macos, Platform::Windows, Platform::Linux] {
        let plan = plan_launch(platform, false);
        let flags = plan.remembered.expect("a desktop");
        assert!(flags.size && flags.position && flags.maximized && flags.fullscreen);
        assert!(!flags.decorations && !flags.visible);
        assert_eq!(plan.window.restored, Some(flags));
        assert!(plan.single_instance);
    }
}

#[test]
fn windows_has_no_menu() {
    assert!(plan_launch(Platform::Windows, false).menu.is_none());
    assert_eq!(plan_launch(Platform::Macos, false).menu.expect("a menu bar").len(), 4);
    assert_eq!(plan_launch(Platform::Linux, false).menu.expect("a menu bar").len(), 4);
}

#[test]
fn the_interface_is_told_its_platform() {
    let script = chrome_script(Platform::Windows);
    assert!(script.starts_with("\n(() => {\n  const invoke = "));
    assert!(script.contains("\n  window.__SCALAR_PLATFORM__ = 'windows';\n"));
    assert!(script.contains("toggleMaximize: () => invoke('window_toggle_maximize'),\n"));
    assert!(script.contains("style.setProperty('--sc-titlebar', '36px');\n  };\n"));
    assert!(script.contains("reserve, { once: true });\n})();\n"));
    assert!(chrome_script(Platform::Macos).contains("= 'macos';"));
}

#[test]
fn every_window_has_its_transport() {
    for platform in ALL {
        assert!(boot_script(platform).starts_with(BOOTSTRAP));
    }
    assert_eq!(boot_script(Platform::Linux), BOOTSTRAP);
    assert_eq!(
        boot_script(Platform::Macos),
        format!("{BOOTSTRAP}{}", chrome_script(Platform::Macos))
    );
    assert!(BOOTSTRAP.contains("window.__SCALAR_FETCH__ = async (url, init = {}) => {"));
}
