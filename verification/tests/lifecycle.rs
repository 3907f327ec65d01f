use winbridge::cli::{DisplayStrategy, WindowMode};
use winbridge::config::{CloseWindowPolicy, LifecycleConfig, QuitPolicy};
use winbridge::desktop::KAKAOTALK_APPLICATION_ID;
use winbridge::error::{RdpError, WinbridgeError};
use winbridge::lifecycle::{
    action_notification_body, gtk_application_id, lifecycle_idle_timeout, lifecycle_summary,
    managed_save_then_quit_action, open_outcome_actions, process_signal_action, rdp_probe_timed_out,
    rdp_window_close_action, rdp_window_options, ready_step, repair_notification_body,
    repair_outcome_action, start_process_policy, tcp_connect_failed, tcp_connect_timed_out,
    tray_quit_action, window_close_actions, OpenOutcome, ProcessSignalAction, RdpWindowCloseAction,
    ReadyStep, RepairOutcome, RepairTarget, StartProcessPolicy, TrayAction, TrayEffect, TrayLoop,
    TrayOpenGate,
};
use winbridge::rdp::{RdpDisplayStrategy, RdpViewport, RdpVirtualDesktopLayout};

#[test]
fn rdp_window_close_keeps_vm_running_for_mvp_testing() {
    assert_eq!(rdp_window_close_action(CloseWindowPolicy::KeepRunning), RdpWindowCloseAction::CloseWindowOnly);
}

#[test]
fn rdp_window_close_can_managed_save_from_config() {
    assert_eq!(rdp_window_close_action(CloseWindowPolicy::ManagedSave), RdpWindowCloseAction::ManagedSave);
}

#[test]
fn process_signal_saves_vm_before_quitting_for_host_shutdown() {
    assert_eq!(process_signal_action(), ProcessSignalAction::ManagedSaveThenQuit);
}

#[test]
fn tray_quit_saves_vm_before_quitting() {
    assert_eq!(tray_quit_action(QuitPolicy::ManagedSave), TrayAction::ManagedSaveThenQuit);
}

#[test]
fn tray_quit_can_leave_vm_running_from_config() {
    assert_eq!(tray_quit_action(QuitPolicy::KeepRunning), TrayAction::Quit);
}

#[test]
fn managed_save_then_quit_sends_quit_after_save() {
    assert_eq!(managed_save_then_quit_action(Ok(())), TrayAction::Quit);
    assert_eq!(
        managed_save_then_quit_action(Err(WinbridgeError::Other("save failed".to_string()))),
        TrayAction::Quit
    );
}

#[test]
fn process_signal_handler_managed_saves_then_sends_quit() {
    let mut tray = TrayLoop::new(LifecycleConfig::default(), DisplayStrategy::StableSlots);
    assert_eq!(process_signal_action(), ProcessSignalAction::ManagedSaveThenQuit);
    assert!(matches!(
        tray.handle(TrayAction::ManagedSaveThenQuit, false),
        Some(TrayEffect::StartManagedSaveThenQuit)
    ));
    let after_save = managed_save_then_quit_action(Ok(()));
    assert!(matches!(tray.handle(after_save, false), Some(TrayEffect::QuitApp)));
}

#[test]
fn app_start_keeps_process_alive_as_tray_after_window_close() {
    assert_eq!(start_process_policy(WindowMode::App), StartProcessPolicy::HoldTrayAfterWindowClose);
}

#[test]
fn desktop_start_exits_after_last_window_close() {
    assert_eq!(start_process_policy(WindowMode::Desktop), StartProcessPolicy::ExitWithLastWindow);
}

#[test]
fn lifecycle_idle_timeout_is_disabled_by_default() {
    assert_eq!(lifecycle_idle_timeout(LifecycleConfig::default()), None);
}

#[test]
fn lifecycle_idle_timeout_converts_minutes_to_duration() {
    let lifecycle = LifecycleConfig { idle_timeout_minutes: Some(30), ..LifecycleConfig::default() };

    assert_eq!(lifecycle_idle_timeout(lifecycle), Some(1800));
}

#[test]
fn lifecycle_idle_timeout_of_zero_is_disabled_and_large_values_saturate() {
    let zero = LifecycleConfig { idle_timeout_minutes: Some(0), ..LifecycleConfig::default() };
    assert_eq!(lifecycle_idle_timeout(zero), None);
    let huge = LifecycleConfig { idle_timeout_minutes: Some(u64::MAX), ..LifecycleConfig::default() };
    assert_eq!(lifecycle_idle_timeout(huge), Some(u64::MAX));
}

#[test]
fn status_lifecycle_summary_explains_defaults() {
    assert_eq!(
        lifecycle_summary(LifecycleConfig::default()),
        "close-window=keep-running, quit=managed-save, idle-timeout=disabled"
    );
}

#[test]
fn status_lifecycle_summary_explains_configured_timeout() {
    let lifecycle = LifecycleConfig {
        close_window: CloseWindowPolicy::ManagedSave,
        quit: QuitPolicy::KeepRunning,
        idle_timeout_minutes: Some(20),
    };

    assert_eq!(lifecycle_summary(lifecycle), "close-window=managed-save, quit=keep-running, idle-timeout=20m");
}

#[test]
fn tray_repair_notification_body_includes_next_action() {
    let body = repair_notification_body("KakaoTalk repair", Err("boom"));

    assert!(body.contains("KakaoTalk repair failed"));
    assert!(body.contains("run doctor"));
    assert!(body.contains("open Windows desktop"));
}

#[test]
fn tray_action_notification_body_includes_next_action() {
    let body = action_notification_body("Open KakaoTalk", Err("boom"));

    assert!(body.contains("Open KakaoTalk failed"));
    assert!(body.contains("run doctor"));
    assert!(body.contains("open Windows desktop"));
}

#[test]
fn notification_bodies_trim_success_details() {
    assert_eq!(
        repair_notification_body("Wallpaper repair", Ok("  Wallpaper repaired: C:\\w.jpg \n")),
        "Wallpaper repair completed: Wallpaper repaired: C:\\w.jpg. Next: open KakaoTalk or run doctor if the issue remains."
    );
    assert_eq!(
        action_notification_body("VM pause", Ok("   ")),
        "VM pause completed. Next: run status or doctor if needed."
    );
}

#[test]
fn tray_open_gate_blocks_duplicate_open_until_finished() {
    let mut gate = TrayOpenGate::default();

    assert!(gate.try_begin());
    assert!(!gate.try_begin());
    gate.finish();
    assert!(gate.try_begin());
}

#[test]
fn desktop_experimental_multimon_uses_full_two_monitor_viewport() {
    let options = rdp_window_options(WindowMode::Desktop, DisplayStrategy::ExperimentalMultimon);

    assert_eq!(options.title, "Windows Desktop");
    assert_eq!(options.display_strategy, RdpDisplayStrategy::ExperimentalMultimon);
    assert_eq!(
        options.virtual_desktop_layout,
        Some(RdpVirtualDesktopLayout::TwoHorizontalSlots { slot_width: 1280, slot_height: 720 })
    );
    assert_eq!(options.viewport, RdpViewport::new(0, 0, 2560, 720));
}

#[test]
fn app_mode_uses_kakaotalk_application_identity() {
    assert_eq!(gtk_application_id(WindowMode::App), KAKAOTALK_APPLICATION_ID);
    assert_eq!(gtk_application_id(WindowMode::Desktop), "dev.winbridge.Winbridge");
}

#[test]
fn window_close_sends_close_then_pause_when_saving() {
    assert_eq!(window_close_actions(RdpWindowCloseAction::CloseWindowOnly), vec![TrayAction::WindowClosed]);
    assert_eq!(
        window_close_actions(RdpWindowCloseAction::ManagedSave),
        vec![TrayAction::WindowClosed, TrayAction::Pause]
    );
}

#[test]
fn tray_loop_runs_an_open_once_and_schedules_idle_save() {
    let lifecycle = LifecycleConfig { idle_timeout_minutes: Some(1), ..LifecycleConfig::default() };
    let mut tray = TrayLoop::new(lifecycle, DisplayStrategy::StableSlots);
    assert!(matches!(
        tray.handle(TrayAction::Open { mode: WindowMode::App }, false),
        Some(TrayEffect::StartOpen { mode: WindowMode::App })
    ));
    assert!(tray.handle(TrayAction::Open { mode: WindowMode::App }, false).is_none());
    let ready = open_outcome_actions(WindowMode::App, OpenOutcome::Ready, "10.0.0.5".to_string(), "pw".to_string());
    assert_eq!(ready.len(), 1);
    match tray.handle(ready[0].clone(), false) {
        Some(TrayEffect::OpenWindow { vm_ip, close_action, .. }) => {
            assert_eq!(vm_ip, "10.0.0.5");
            assert_eq!(close_action, RdpWindowCloseAction::CloseWindowOnly);
        }
        other => panic!("unexpected {other:?}"),
    }
    assert!(tray.handle(TrayAction::WindowOpened, false).is_none());
    let generation = match tray.handle(TrayAction::WindowClosed, false) {
        Some(TrayEffect::ScheduleIdleTimeout { generation, after_secs }) => {
            assert_eq!(after_secs, 60);
            generation
        }
        other => panic!("unexpected {other:?}"),
    };
    assert!(tray.handle(TrayAction::IdleTimeout { generation: generation.wrapping_sub(1) }, false).is_none());
    assert!(matches!(
        tray.handle(TrayAction::IdleTimeout { generation }, false),
        Some(TrayEffect::IdleManagedSave)
    ));
}

#[test]
fn failed_open_notifies_and_releases_the_gate() {
    let actions = open_outcome_actions(
        WindowMode::App,
        OpenOutcome::RdpNotReady("timeout".to_string()),
        String::new(),
        String::new(),
    );
    assert_eq!(actions.len(), 2);
    match &actions[0] {
        TrayAction::Notify { title, body } => {
            assert_eq!(title, "Open KakaoTalk failed");
            assert_eq!(body, "Open KakaoTalk failed: timeout. Next: run doctor or open Windows desktop.");
        }
        other => panic!("unexpected {other:?}"),
    }
    assert_eq!(actions[1], TrayAction::OpenFinished);
    match repair_outcome_action(RepairTarget::Wallpaper, RepairOutcome::Repaired(String::new())) {
        TrayAction::Notify { title, .. } => assert_eq!(title, "Wallpaper repair completed"),
        other => panic!("unexpected {other:?}"),
    }
}

#[test]
fn readiness_retry_keeps_trying_until_operation_succeeds() {
    let mut attempts = 0;
    loop {
        attempts += 1;
        let attempt = if attempts < 3 {
            Err(WinbridgeError::Rdp(RdpError::Handshake("not ready yet".to_string())))
        } else {
            Ok(())
        };
        match ready_step("test readiness", 1, attempt, false) {
            ReadyStep::Ready => break,
            ReadyStep::Retry => continue,
            ReadyStep::GiveUp(err) => panic!("gave up: {err:?}"),
        }
    }
    assert_eq!(attempts, 3);
}

#[test]
fn tcp_port_wait_times_out_when_port_stays_closed() {
    let last = tcp_connect_failed("Connection refused (os error 111)");
    let err = match ready_step("TCP 포트", 30, Err(last), true) {
        ReadyStep::GiveUp(err) => err,
        other => panic!("unexpected {other:?}"),
    };
    assert!(err.message().contains("TCP 포트 준비 시간 초과"));
    assert_eq!(
        err.message(),
        "RDP 연결 실패: RDP 핸드셰이크 실패: TCP 포트 준비 시간 초과 (timeout=30s, last_error=RDP 연결 실패: RDP 핸드셰이크 실패: TCP 연결 실패: Connection refused (os error 111))"
    );
}

#[test]
fn connection_attempt_timeouts_have_their_own_messages() {
    assert_eq!(tcp_connect_timed_out().message(), "RDP 연결 실패: RDP 핸드셰이크 실패: TCP 연결 시도 시간 초과");
    assert_eq!(
        rdp_probe_timed_out(15).message(),
        "RDP 연결 실패: RDP 핸드셰이크 실패: RDP probe 시도 시간 초과 (15s)"
    );
}
