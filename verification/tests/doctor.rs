use winbridge::doctor::{
    add_guest_diagnostic_checks, add_guest_manual_check, format_report, DiagnoseEvent, DiagnoseStage,
    Diagnosis, DoctorCheck, DoctorReport, DoctorStatus, TcpProbe,
};
use winbridge::vm::{
    GuestDiagnostics, GuestDiskDiagnostics, GuestKakaoTalkDiagnostics, GuestServiceDiagnostics,
    GuestUpdateDiagnostics, GuestWallpaperDiagnostics, VmState,
};

fn disk(free_gb: f64) -> GuestDiskDiagnostics {
    GuestDiskDiagnostics { free_gb_bits: free_gb.to_bits(), free_gb_text: format!("{free_gb:.1}") }
}

fn updates() -> GuestUpdateDiagnostics {
    GuestUpdateDiagnostics { reboot_pending: false, windows_update_reboot_required: false }
}

#[test]
fn report_formats_status_detail_and_next_action() {
    let mut report = DoctorReport::default();
    report.push(DoctorCheck::new(DoctorStatus::Fail, "rdp tcp", "connect failed").with_next_action("start VM"));

    let text = format_report(&report);

    assert!(text.contains("winbridge doctor"));
    assert!(text.contains("[FAIL] rdp tcp - connect failed"));
    assert!(text.contains("next: start VM"));
}

#[test]
fn report_exposes_checks_in_order() {
    let mut report = DoctorReport::default();
    report.push(DoctorCheck::new(DoctorStatus::Pass, "first", "done"));
    report.push(DoctorCheck::new(DoctorStatus::Skip, "second", "blocked"));

    let checks = report.checks();

    assert_eq!(checks[0].name, "first");
    assert_eq!(checks[1].status, DoctorStatus::Skip);
}

#[test]
fn guest_diagnostics_warns_when_wallpaper_source_is_missing_but_cached() {
    let mut report = DoctorReport::default();
    let diagnostics = GuestDiagnostics {
        wallpaper: GuestWallpaperDiagnostics {
            path: "W:\\Downloads\\winbridge_desktop".to_string(),
            source_reachable: false,
            theme_cache_reachable: true,
            theme_cache_bytes: 1_696_236,
        },
        themes: GuestServiceDiagnostics { status: "Running".to_string() },
        kakaotalk: GuestKakaoTalkDiagnostics { process_count: 1, has_main_window: true },
        disk: disk(12.0),
        updates: updates(),
    };

    add_guest_diagnostic_checks(&mut report, &diagnostics);

    let checks = report.checks();
    assert_eq!(checks[0].name, "guest service-session wallpaper");
    assert_eq!(checks[0].status, DoctorStatus::Warn);
    assert!(checks[0].detail.contains("qemu-ga service session"));
    assert_eq!(checks[1].status, DoctorStatus::Pass);
    assert_eq!(checks[2].status, DoctorStatus::Pass);
    assert_eq!(checks[3].status, DoctorStatus::Pass);
}

#[test]
fn guest_diagnostics_flags_missing_kakaotalk_window() {
    let mut report = DoctorReport::default();
    let diagnostics = GuestDiagnostics {
        wallpaper: GuestWallpaperDiagnostics {
            path: "C:\\winbridge\\wallpaper.jpg".to_string(),
            source_reachable: true,
            theme_cache_reachable: true,
            theme_cache_bytes: 100,
        },
        themes: GuestServiceDiagnostics { status: "Stopped".to_string() },
        kakaotalk: GuestKakaoTalkDiagnostics { process_count: 2, has_main_window: false },
        disk: disk(3.0),
        updates: updates(),
    };

    add_guest_diagnostic_checks(&mut report, &diagnostics);

    let checks = report.checks();
    assert_eq!(checks[1].name, "guest service-session kakaotalk");
    assert_eq!(checks[1].status, DoctorStatus::Warn);
    assert!(checks[1].detail.contains("qemu-ga service session"));
    assert!(checks[1].next_action.as_ref().unwrap().contains("tray Open KakaoTalk"));
    assert_eq!(checks[2].status, DoctorStatus::Warn);
    assert_eq!(checks[3].status, DoctorStatus::Warn);
}

#[test]
fn guest_diagnostics_does_not_fail_when_service_session_cannot_see_kakaotalk() {
    let mut report = DoctorReport::default();
    let diagnostics = GuestDiagnostics {
        wallpaper: GuestWallpaperDiagnostics {
            path: "C:\\winbridge\\wallpaper.jpg".to_string(),
            source_reachable: true,
            theme_cache_reachable: true,
            theme_cache_bytes: 100,
        },
        themes: GuestServiceDiagnostics { status: "Running".to_string() },
        kakaotalk: GuestKakaoTalkDiagnostics { process_count: 0, has_main_window: false },
        disk: disk(12.0),
        updates: updates(),
    };

    add_guest_diagnostic_checks(&mut report, &diagnostics);

    let checks = report.checks();
    assert_eq!(checks[1].name, "guest service-session kakaotalk");
    assert_eq!(checks[1].status, DoctorStatus::Warn);
    assert!(checks[1].detail.contains("qemu-ga service session"));
    assert!(checks[1].next_action.as_ref().unwrap().contains("open KakaoTalk"));
}

#[test]
fn guest_check_details_quote_the_measurements() {
    let mut report = DoctorReport::default();
    let diagnostics = GuestDiagnostics {
        wallpaper: GuestWallpaperDiagnostics {
            path: "  ".to_string(),
            source_reachable: false,
            theme_cache_reachable: false,
            theme_cache_bytes: 0,
        },
        themes: GuestServiceDiagnostics { status: " running ".to_string() },
        kakaotalk: GuestKakaoTalkDiagnostics { process_count: 3, has_main_window: true },
        disk: disk(4.9),
        updates: updates(),
    };
    add_guest_diagnostic_checks(&mut report, &diagnostics);
    let checks = report.checks();
    assert_eq!(checks[0].status, DoctorStatus::Warn);
    assert!(checks[0].detail.starts_with("no wallpaper path configured"));
    assert_eq!(checks[1].detail, "3 process(es), main window visible to qemu-ga service session");
    assert_eq!(checks[2].status, DoctorStatus::Pass);
    assert_eq!(checks[3].detail, "C: low free space 4.9 GiB");
    assert_eq!(checks[3].status, DoctorStatus::Warn);
}

#[test]
fn unreachable_wallpaper_without_cache_fails() {
    let mut report = DoctorReport::default();
    let diagnostics = GuestDiagnostics {
        wallpaper: GuestWallpaperDiagnostics {
            path: "D:\\pics\\a.jpg".to_string(),
            source_reachable: false,
            theme_cache_reachable: false,
            theme_cache_bytes: 0,
        },
        themes: GuestServiceDiagnostics { status: "Running".to_string() },
        kakaotalk: GuestKakaoTalkDiagnostics { process_count: 1, has_main_window: true },
        disk: disk(5.0),
        updates: updates(),
    };
    add_guest_diagnostic_checks(&mut report, &diagnostics);
    let checks = report.checks();
    assert_eq!(checks[0].status, DoctorStatus::Fail);
    assert_eq!(
        checks[0].detail,
        "source missing and theme cache unavailable in qemu-ga service session: D:\\pics\\a.jpg"
    );
    assert_eq!(checks[3].detail, "C: free space 5.0 GiB");
}

#[test]
fn manual_guest_check_points_to_windows_scripts() {
    let mut report = DoctorReport::default();
    add_guest_manual_check(&mut report);
    let text = format_report(&report);
    assert_eq!(
        text,
        "winbridge doctor\n[WARN] guest checks - visible RDP user checks require running scripts/windows/diagnose-winbridge.ps1 inside Windows\n      next: wallpaper: C:\\winbridge\\repair-wallpaper.ps1; KakaoTalk: C:\\winbridge\\position-kakaotalk.ps1 -Restart\n"
    );
}

#[test]
fn diagnosis_stops_at_missing_credentials() {
    let mut diagnosis = Diagnosis::new();
    assert_eq!(diagnosis.next_probe(), DiagnoseStage::LoadConfig);
    diagnosis.record(DiagnoseEvent::ConfigFailed("no file".to_string()));
    assert_eq!(diagnosis.next_probe(), DiagnoseStage::Done);
    let checks = diagnosis.report().checks();
    assert_eq!(checks.len(), 4);
    assert_eq!(checks[0].status, DoctorStatus::Fail);
    assert_eq!(checks[1].status, DoctorStatus::Skip);
    assert_eq!(checks[3].name, "guest checks");
}

#[test]
fn diagnosis_of_inactive_vm_skips_guest_and_probes_rdp() {
    let mut diagnosis = Diagnosis::new();
    diagnosis.record(DiagnoseEvent::ConfigLoaded {
        credentials_path: "/c".to_string(),
        libvirt_uri: "qemu:///system".to_string(),
        vm_name: "vm1".to_string(),
        vm_ip: "10.0.0.5".to_string(),
    });
    assert_eq!(diagnosis.next_probe(), DiagnoseStage::OpenLibvirt);
    diagnosis.record(DiagnoseEvent::LibvirtOpened);
    assert_eq!(diagnosis.next_probe(), DiagnoseStage::QueryVmState);
    diagnosis.record(DiagnoseEvent::VmStateRead(VmState::Off));
    let names: Vec<String> = diagnosis.report().checks().iter().map(|c| c.name.clone()).collect();
    assert!(names.contains(&"vm state".to_string()));
    assert_eq!(diagnosis.next_probe(), DiagnoseStage::CheckRdpTcp);
    diagnosis.record(DiagnoseEvent::RdpTcp(TcpProbe::Failed("refused".to_string())));
    let text = format_report(diagnosis.report());
    assert!(text.contains("10.0.0.5:3389 connect failed: refused"));
    assert!(text.contains("[OK] credentials - /c loaded"));
    assert!(text.contains("[OK] libvirt - connected to qemu:///system"));
    assert!(text.contains("vm1 is Off"));
    assert_eq!(diagnosis.next_probe(), DiagnoseStage::Done);
}

#[test]
fn disk_check_compares_the_exact_free_space() {
    let cases: [(f64, DoctorStatus, &str); 5] = [
        (4.96, DoctorStatus::Warn, "C: low free space 5.0 GiB"),
        (4.999, DoctorStatus::Warn, "C: low free space 5.0 GiB"),
        (5.0, DoctorStatus::Pass, "C: free space 5.0 GiB"),
        (5.04, DoctorStatus::Pass, "C: free space 5.0 GiB"),
        (-1.0, DoctorStatus::Warn, "C: low free space -1.0 GiB"),
    ];
    for (free_gb, status, detail) in cases {
        let mut report = DoctorReport::default();
        winbridge::doctor::add_disk_check(&mut report, &disk(free_gb));
        assert_eq!(report.checks()[0].status, status);
        assert_eq!(report.checks()[0].detail, detail);
    }
}
