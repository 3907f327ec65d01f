use winbridge::config::{
    CloseWindowPolicy, ConfigFile, EnvOverrides, FileConfig, FileRead, LifecycleConfig,
    LifecycleFileConfig, LifecycleSource, QuitPolicy, WinbridgeConfig,
};
use winbridge::error::{ConfigError, WinbridgeError};

fn no_env() -> EnvOverrides {
    EnvOverrides { vm_name: None, vm_ip: None, libvirt_uri: None }
}

fn contents(text: &str) -> FileRead {
    FileRead::Contents(text.to_string())
}

#[test]
fn parses_password_from_credentials_file() {
    let text = "# winbridge credentials\nWINBRIDGE_ADMIN_PASSWORD=deadbeef1234567890abcdef\n";
    let cfg = WinbridgeConfig::load_from("/tmp/credentials", contents(text), no_env()).unwrap();
    assert_eq!(cfg.admin_password, "deadbeef1234567890abcdef");
    assert_eq!(cfg.vm_name, WinbridgeConfig::DEFAULT_VM_NAME);
    assert_eq!(cfg.lifecycle, LifecycleConfig::default());
}

#[test]
fn missing_file_returns_credentials_missing() {
    let path = "/nonexistent/winbridge/credentials";
    let err = WinbridgeConfig::load_from(path, FileRead::NotFound, no_env()).unwrap_err();
    let msg = err.message();
    assert!(msg.contains("install.sh"));
}

#[test]
fn missing_password_field_returns_password_missing() {
    let err = WinbridgeConfig::load_from("/tmp/credentials", contents("OTHER_FIELD=foo\n"), no_env())
        .unwrap_err();
    let msg = err.message();
    assert!(msg.contains("WINBRIDGE_ADMIN_PASSWORD"));
}

#[test]
fn quoted_password_is_unquoted() {
    let cfg = WinbridgeConfig::load_from(
        "/tmp/credentials",
        contents("WINBRIDGE_ADMIN_PASSWORD=\"abc123\"\n"),
        no_env(),
    )
    .unwrap();
    assert_eq!(cfg.admin_password, "abc123");
}

#[test]
fn parses_lifecycle_config_from_toml() {
    // The lifecycle file
    //   [lifecycle]
    //   close-window = "managed-save"
    //   quit = "keep-running"
    //   idle-timeout-minutes = 20
    // decodes to this value.
    let decoded = FileConfig {
        lifecycle: Some(LifecycleFileConfig {
            close_window: Some(CloseWindowPolicy::ManagedSave),
            quit: Some(QuitPolicy::KeepRunning),
            idle_timeout_minutes: Some(20),
        }),
    };
    let cfg = WinbridgeConfig::load_from_paths(
        "/tmp/credentials",
        contents("WINBRIDGE_ADMIN_PASSWORD=dummy\n"),
        Some(ConfigFile { path: "/tmp/config.toml".to_string(), source: LifecycleSource::Parsed(decoded) }),
        no_env(),
    )
    .unwrap();

    assert_eq!(cfg.lifecycle.close_window, CloseWindowPolicy::ManagedSave);
    assert_eq!(cfg.lifecycle.quit, QuitPolicy::KeepRunning);
    assert_eq!(cfg.lifecycle.idle_timeout_minutes, Some(20));
}

#[test]
fn missing_lifecycle_config_uses_defaults() {
    let cfg = WinbridgeConfig::load_from_paths(
        "/tmp/credentials",
        contents("WINBRIDGE_ADMIN_PASSWORD=dummy\n"),
        Some(ConfigFile {
            path: "/nonexistent/winbridge/config.toml".to_string(),
            source: LifecycleSource::NotFound,
        }),
        no_env(),
    )
    .unwrap();

    assert_eq!(cfg.lifecycle, LifecycleConfig::default());
}

#[test]
fn last_password_line_wins_and_comments_are_skipped() {
    let text = "WINBRIDGE_ADMIN_PASSWORD=first\n# WINBRIDGE_ADMIN_PASSWORD=commented\n  WINBRIDGE_ADMIN_PASSWORD=  second  \r\n\n";
    let cfg = WinbridgeConfig::load_from("/tmp/credentials", contents(text), no_env()).unwrap();
    assert_eq!(cfg.admin_password, "second");
}

#[test]
fn unreadable_credentials_file_is_a_parse_error() {
    let err = WinbridgeConfig::load_from(
        "/tmp/credentials",
        FileRead::Failed("Permission denied (os error 13)".to_string()),
        no_env(),
    )
    .unwrap_err();
    match &err {
        WinbridgeError::Config(ConfigError::ParseError { path, reason }) => {
            assert_eq!(path, "/tmp/credentials");
            assert_eq!(reason, "Permission denied (os error 13)");
        }
        other => panic!("unexpected error {other:?}"),
    }
    assert_eq!(
        err.message(),
        "설정 로드 실패: 자격 증명 파일 파싱 오류 (/tmp/credentials): Permission denied (os error 13)"
    );
}

#[test]
fn broken_lifecycle_file_names_its_path() {
    let err = WinbridgeConfig::load(
        Some("/tmp/credentials".to_string()),
        Some("/tmp/config.toml".to_string()),
        "/home/u/.config",
        contents("WINBRIDGE_ADMIN_PASSWORD=dummy\n"),
        LifecycleSource::ParseFailed("invalid type".to_string()),
        no_env(),
    )
    .unwrap_err();
    assert!(matches!(
        err,
        WinbridgeError::Config(ConfigError::ParseError { ref path, .. }) if path == "/tmp/config.toml"
    ));
}

#[test]
fn environment_overrides_replace_defaults() {
    let env = EnvOverrides {
        vm_name: Some("other-vm".to_string()),
        vm_ip: None,
        libvirt_uri: Some("qemu:///session".to_string()),
    };
    let cfg = WinbridgeConfig::load_from("/tmp/credentials", contents("WINBRIDGE_ADMIN_PASSWORD=x"), env)
        .unwrap();
    assert_eq!(cfg.vm_name, "other-vm");
    assert_eq!(cfg.vm_ip, WinbridgeConfig::DEFAULT_VM_IP);
    assert_eq!(cfg.libvirt_uri, "qemu:///session");
}

#[test]
fn partial_lifecycle_table_keeps_other_defaults() {
    let file = FileConfig {
        lifecycle: Some(LifecycleFileConfig { close_window: None, quit: None, idle_timeout_minutes: Some(5) }),
    };
    let lifecycle = LifecycleConfig::from_file(file);
    assert_eq!(lifecycle.close_window, CloseWindowPolicy::KeepRunning);
    assert_eq!(lifecycle.quit, QuitPolicy::ManagedSave);
    assert_eq!(lifecycle.idle_timeout_minutes, Some(5));
}

#[test]
fn config_paths_follow_overrides_then_config_dir() {
    assert_eq!(
        WinbridgeConfig::credentials_path(None, "/home/u/.config"),
        "/home/u/.config/winbridge/credentials"
    );
    assert_eq!(
        WinbridgeConfig::config_path(None, "/home/u/.config/"),
        "/home/u/.config/winbridge/config.toml"
    );
    assert_eq!(
        WinbridgeConfig::credentials_path(Some("/etc/creds".to_string()), "/home/u/.config"),
        "/etc/creds"
    );
}

#[test]
fn load_reads_the_standard_places() {
    let err = WinbridgeConfig::load(
        None,
        None,
        "/home/u/.config",
        FileRead::NotFound,
        LifecycleSource::NotFound,
        no_env(),
    )
    .unwrap_err();
    assert!(matches!(
        err,
        WinbridgeError::Config(ConfigError::CredentialsMissing { ref path })
            if path == "/home/u/.config/winbridge/credentials"
    ));
    let err = WinbridgeConfig::load(
        None,
        None,
        "/home/u/.config",
        contents("WINBRIDGE_ADMIN_PASSWORD=dummy\n"),
        LifecycleSource::ReadFailed("denied".to_string()),
        no_env(),
    )
    .unwrap_err();
    assert!(matches!(
        err,
        WinbridgeError::Config(ConfigError::ParseError { ref path, ref reason })
            if path == "/home/u/.config/winbridge/config.toml" && reason == "denied"
    ));
    let cfg = WinbridgeConfig::load(
        None,
        None,
        "/home/u/.config",
        contents("WINBRIDGE_ADMIN_PASSWORD=dummy\n"),
        LifecycleSource::NotFound,
        no_env(),
    )
    .unwrap();
    let same = WinbridgeConfig::load_from_paths(
        "/home/u/.config/winbridge/credentials",
        contents("WINBRIDGE_ADMIN_PASSWORD=dummy\n"),
        Some(ConfigFile {
            path: "/home/u/.config/winbridge/config.toml".to_string(),
            source: LifecycleSource::NotFound,
        }),
        no_env(),
    )
    .unwrap();
    assert_eq!(cfg.admin_password, same.admin_password);
    assert_eq!(cfg.lifecycle, same.lifecycle);
    assert_eq!(cfg.vm_name, same.vm_name);
}
