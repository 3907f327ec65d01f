use winbridge::cli::WindowMode;
use winbridge::config::QuitPolicy;
use winbridge::lifecycle::TrayAction;
use winbridge::tray::{rgba_to_argb, TrayCategory, TrayMenuItem, WinbridgeAppTray, WinbridgeTray};

fn labels(menu: Vec<TrayMenuItem>) -> Vec<String> {
    menu.into_iter()
        .filter_map(|item| match item {
            TrayMenuItem::Standard { label, .. } => Some(label),
            _ => None,
        })
        .collect()
}

#[test]
fn app_tray_uses_winbridge_icon_and_title() {
    let tray = WinbridgeAppTray { quit_policy: QuitPolicy::ManagedSave };

    assert_eq!(tray.icon_name(), "");
    assert_eq!(tray.title(), "winbridge");
    assert_eq!(tray.id(), "winbridge");
    assert_eq!(tray.category(), TrayCategory::Communications);
    assert_eq!(tray.activate(), TrayAction::Open { mode: WindowMode::App });
}

#[test]
fn winbridge_app_tray_menu_can_quit_winbridge() {
    let tray = WinbridgeAppTray { quit_policy: QuitPolicy::ManagedSave };
    let labels = labels(tray.menu());

    assert_eq!(labels, vec!["Open Winbridge", "Repair Winbridge", "Pause VM and Quit winbridge"]);
}

#[test]
fn winbridge_tray_menu_can_repair_winbridge() {
    let tray = WinbridgeTray { quit_policy: QuitPolicy::ManagedSave };
    let labels = labels(tray.menu());

    assert!(labels.contains(&"Repair Winbridge".to_string()));
    assert!(labels.contains(&"Repair Wallpaper".to_string()));
}

#[test]
fn tray_menus_send_the_matching_actions() {
    let tray = WinbridgeTray { quit_policy: QuitPolicy::KeepRunning };
    assert_eq!(tray.icon_name(), "computer");
    assert_eq!(tray.title(), "winbridge - Windows VM");
    let menu = tray.menu();
    assert_eq!(menu.len(), 8);
    assert_eq!(menu[6], TrayMenuItem::Separator);
    assert_eq!(
        menu[1],
        TrayMenuItem::Standard {
            label: "Open Windows Desktop".to_string(),
            action: TrayAction::Open { mode: WindowMode::Desktop }
        }
    );
    assert_eq!(
        menu[7],
        TrayMenuItem::Standard { label: "Pause VM and Quit winbridge".to_string(), action: TrayAction::Quit }
    );
    let app_menu = WinbridgeAppTray { quit_policy: QuitPolicy::ManagedSave }.menu();
    assert_eq!(
        app_menu[3],
        TrayMenuItem::Standard {
            label: "Pause VM and Quit winbridge".to_string(),
            action: TrayAction::ManagedSaveThenQuit
        }
    );
}

#[test]
fn icon_pixels_are_reordered_to_argb() {
    assert_eq!(rgba_to_argb(&[1, 2, 3, 4, 5, 6, 7, 8, 9]), vec![4, 1, 2, 3, 8, 5, 6, 7]);
    assert!(rgba_to_argb(&[1, 2]).is_empty());
}
