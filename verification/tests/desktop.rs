use winbridge::desktop::{
    kakaotalk_autostart_entry, kakaotalk_command, kakaotalk_desktop_entry, kakaotalk_install_layout,
    quote_exec_path, shell_quote_path,
};

#[test]
fn desktop_entry_uses_kakaotalk_identity_and_icon() {
    let entry = kakaotalk_desktop_entry("/opt/winbridge/bin/winbridge");

    assert!(entry.contains("Name=KakaoTalk"));
    assert!(entry.contains("Icon=winbridge-kakaotalk"));
    assert!(entry.contains("StartupWMClass=dev.winbridge.KakaoTalk"));
    assert!(entry.contains(
        "Exec=\"/opt/winbridge/bin/winbridge\" start --mode app --display stable-slots"
    ));
}

#[test]
fn desktop_entry_quotes_executable_paths_with_spaces() {
    let entry = kakaotalk_desktop_entry("/opt/win bridge/bin/winbridge");

    assert!(entry.contains(
        "Exec=\"/opt/win bridge/bin/winbridge\" start --mode app --display stable-slots"
    ));
}

#[test]
fn autostart_entry_launches_kakaotalk_on_login() {
    let entry = kakaotalk_autostart_entry("/opt/winbridge/bin/winbridge");

    assert!(entry.contains("Name=KakaoTalk"));
    assert!(entry.contains("X-GNOME-Autostart-enabled=true"));
    assert!(entry.contains(
        "Exec=\"/opt/winbridge/bin/winbridge\" start --mode app --display stable-slots"
    ));
}

#[test]
fn terminal_command_launches_kakaotalk_app_mode() {
    let command = kakaotalk_command("/opt/win bridge/bin/winbridge");

    assert_eq!(
        command,
        "#!/usr/bin/env sh\nexec '/opt/win bridge/bin/winbridge' start --mode app --display stable-slots\n"
    );
}

#[test]
fn terminal_command_quotes_single_quotes() {
    let command = kakaotalk_command("/opt/win'bridge/bin/winbridge");

    assert!(command.contains("exec '/opt/win'\\''bridge/bin/winbridge' start"));
}

#[test]
fn kakaotalk_desktop_entry_launches_app_mode_with_icon_identity() {
    let entry = kakaotalk_desktop_entry("/opt/winbridge/bin/winbridge");

    assert!(entry.contains("Name=KakaoTalk"));
    assert!(entry.contains("Icon=winbridge-kakaotalk"));
    assert!(entry.contains("StartupWMClass=dev.winbridge.KakaoTalk"));
    assert!(entry.contains(
        "Exec=\"/opt/winbridge/bin/winbridge\" start --mode app --display stable-slots"
    ));
}

#[test]
fn installer_writes_terminal_command_next_to_user_executables() {
    let installed = kakaotalk_install_layout("/tmp/t/share", "/tmp/t/config", Some("/tmp/t/bin")).unwrap();

    assert_eq!(installed.command_path, "/tmp/t/bin/kakaotalk");
    assert!(kakaotalk_command("/opt/winbridge/bin/winbridge")
        .contains("exec '/opt/winbridge/bin/winbridge' start --mode app"));
    assert_eq!(
        installed.autostart_entry_path,
        "/tmp/t/config/autostart/dev.winbridge.KakaoTalk.desktop"
    );
    assert!(kakaotalk_autostart_entry("/opt/winbridge/bin/winbridge").contains("X-GNOME-Autostart-enabled=true"));
}

#[test]
fn install_layout_places_entry_and_icon_under_data_dir() {
    let installed = kakaotalk_install_layout("/home/u/.local/share", "/home/u/.config", Some("/home/u/.local/bin"))
        .unwrap();
    assert_eq!(
        installed.desktop_entry_path,
        "/home/u/.local/share/applications/dev.winbridge.KakaoTalk.desktop"
    );
    assert_eq!(
        installed.icon_path,
        "/home/u/.local/share/icons/hicolor/256x256/apps/winbridge-kakaotalk.png"
    );
}

#[test]
fn install_layout_needs_an_executable_dir() {
    let err = kakaotalk_install_layout("/home/u/.local/share", "/home/u/.config", None).unwrap_err();
    assert_eq!(err.message(), "사용자 실행 파일 디렉터리를 확인할 수 없습니다");
}

#[test]
fn exec_quoting_escapes_quotes_backslashes_and_specials() {
    assert_eq!(quote_exec_path("/a b/\"c\"\\d$`"), "\"/a b/\\\"c\\\"\\\\d\\$\\`\"");
    assert_eq!(shell_quote_path("it's"), "'it'\\''s'");
    assert_eq!(shell_quote_path(""), "''");
}
