use winbridge::error::{VmError, WinbridgeError};
use winbridge::vm::{
    attached_cdroms_from_domain_xml, cdrom_disks_from_domain_xml, classify_state, exited_command_result,
    guest_diagnostics_powershell_command, guest_exec_pid, guest_exec_status, guest_exec_status_command,
    kakaotalk_repair_guest_exec_command, powershell_guest_exec_command, repair_wallpaper_powershell_command,
    xml_attr_value, AttachedCdrom, CdromDisk, GuestCommandPoll, GuestExecStatus, GuestPollStep, PollStep,
    ShutdownStep, VmManager, VmState, WakeStep, VIR_DOMAIN_RUNNING, VIR_DOMAIN_SHUTOFF,
};

#[test]
fn off_requires_start() {
    assert!(VmState::Off.requires_start());
}

#[test]
fn saved_requires_resume() {
    assert!(VmState::Saved.requires_resume());
}

#[test]
fn active_needs_no_action() {
    assert!(VmState::Active.is_active());
}

#[test]
fn classify_running_as_active() {
    assert_eq!(classify_state(VIR_DOMAIN_RUNNING, false), VmState::Active);
}

#[test]
fn classify_shutoff_with_managed_save_as_saved() {
    assert_eq!(classify_state(VIR_DOMAIN_SHUTOFF, true), VmState::Saved);
}

#[test]
fn classify_shutoff_without_managed_save_as_off() {
    assert_eq!(classify_state(VIR_DOMAIN_SHUTOFF, false), VmState::Off);
}

#[test]
fn classify_paused_as_other() {
    assert_eq!(classify_state(3, true), VmState::Other);
}

#[test]
fn kakaotalk_repair_command_runs_position_script_with_restart() {
    let command = kakaotalk_repair_guest_exec_command();

    assert!(command.contains("guest-exec"));
    assert!(command.contains("powershell.exe"));
    assert!(command.contains("\"capture-output\":true"));
    assert!(command.contains("C:\\\\winbridge\\\\position-kakaotalk.ps1"));
    assert!(command.contains("repair-kakaotalk-interactive.ps1"));
    assert!(command.contains("Register-ScheduledTask"));
    assert!(command.contains("Start-ScheduledTask"));
    assert!(command.contains("LogonType Interactive"));
    assert!(command.contains("-Restart"));
    assert!(command.contains("Stop-Process"));
}

#[test]
fn guest_exec_pid_reads_qga_response() {
    assert_eq!(guest_exec_pid(r#"{"return":{"pid":42}}"#).unwrap(), 42);
}

#[test]
fn guest_exec_pid_reports_missing_pid_and_bad_json() {
    let err = guest_exec_pid(r#"{"return":{}}"#).unwrap_err();
    assert!(matches!(
        err,
        WinbridgeError::Vm(VmError::GuestAgent(ref m)) if m == r#"guest-exec response missing pid: {"return":{}}"#
    ));
    let err = guest_exec_pid("not json").unwrap_err();
    assert!(matches!(err, WinbridgeError::Vm(VmError::GuestAgent(_))));
}

#[test]
fn guest_exec_status_reports_pending_and_exitcode() {
    assert_eq!(guest_exec_status(r#"{"return":{"exited":false}}"#).unwrap(), None);

    let status = guest_exec_status(r#"{"return":{"exited":true,"exitcode":0}}"#).unwrap().unwrap();
    assert_eq!(status.exitcode, 0);
    assert_eq!(status.stdout, "");
    assert_eq!(status.stderr, "");
}

#[test]
fn guest_exec_status_decodes_captured_output() {
    let status = guest_exec_status(
        r#"{"return":{"exited":true,"exitcode":0,"out-data":"aGVsbG8=","err-data":"d2Fybgo="}}"#,
    )
    .unwrap()
    .unwrap();

    assert_eq!(status.stdout, "hello");
    assert_eq!(status.stderr, "warn\n");
}

#[test]
fn guest_exec_status_errors_on_missing_return_exitcode_or_bad_base64() {
    let err = guest_exec_status(r#"{"error":{}}"#).unwrap_err();
    assert!(matches!(
        err,
        WinbridgeError::Vm(VmError::GuestAgent(ref m)) if m == r#"guest-exec-status response missing return: {"error":{}}"#
    ));
    let err = guest_exec_status(r#"{"return":{"exited":true}}"#).unwrap_err();
    assert!(matches!(
        err,
        WinbridgeError::Vm(VmError::GuestAgent(ref m)) if m.starts_with("guest-exec-status missing exitcode: ")
    ));
    let err = guest_exec_status(r#"{"return":{"exited":true,"exitcode":1,"out-data":"%%%"}}"#).unwrap_err();
    assert!(matches!(
        err,
        WinbridgeError::Vm(VmError::GuestAgent(ref m)) if m.starts_with("guest-exec base64 decode failed: ")
    ));
}

#[test]
fn attached_cdroms_parse_domain_xml_sources() {
    let cdroms = attached_cdroms_from_domain_xml(
        r#"
            <domain>
              <devices>
                <disk type='file' device='disk'>
                  <source file='/tmp/disk.qcow2'/>
                  <target dev='sda' bus='sata'/>
                </disk>
                <disk type='file' device='cdrom'>
                  <source file='/missing/server.iso'/>
                  <target dev='sdb' bus='sata'/>
                </disk>
                <disk type="file" device="cdrom">
                  <target dev="sdc" bus="sata"/>
                </disk>
              </devices>
            </domain>
            "#,
    );

    assert_eq!(cdroms.len(), 2);
    assert_eq!(cdroms[0].target, "sdb");
    assert_eq!(cdroms[0].source, Some("/missing/server.iso".to_string()));
    assert!(!cdroms[0].source_exists);
    assert_eq!(cdroms[1].target, "sdc");
    assert_eq!(cdroms[1].source, None);
}

#[test]
fn live_attached_cdroms_uses_live_domain_xml() {
    let cdroms = attached_cdroms_from_domain_xml(
        r#"<domain><devices><disk type="file" device="cdrom"><source file="/tmp/live.iso"/><target dev="sdc"/></disk></devices></domain>"#,
    );

    assert_eq!(cdroms.len(), 1);
    assert_eq!(cdroms[0].target, "sdc");
    assert_eq!(cdroms[0].source, Some("/tmp/live.iso".to_string()));
}

#[test]
fn cdrom_without_target_is_unknown() {
    let disks = cdrom_disks_from_domain_xml("<disk device='cdrom'><source file='/x.iso'/></disk><disk device='disk'/>");
    assert_eq!(disks, vec![CdromDisk { target: "unknown".to_string(), source: Some("/x.iso".to_string()) }]);
    let attached = AttachedCdrom::from_disk(&disks[0], true);
    assert!(attached.source_exists);
    let without_source = AttachedCdrom::from_disk(&CdromDisk { target: "sdc".to_string(), source: None }, true);
    assert!(!without_source.source_exists);
}

#[test]
fn xml_attr_value_reads_either_quote_style() {
    assert_eq!(xml_attr_value("<a><target dev='sdb' bus='x'/>", "target", "dev"), Some("sdb".to_string()));
    assert_eq!(xml_attr_value("<target dev=\"sdc\"/>", "target", "dev"), Some("sdc".to_string()));
    assert_eq!(xml_attr_value("<target bus='x'/>", "target", "dev"), None);
    assert_eq!(xml_attr_value("<targets dev='x'/>", "target", "dev"), None);
    assert_eq!(xml_attr_value("<target dev='unterminated>", "target", "dev"), None);
}

#[test]
fn guest_diagnostics_command_captures_output() {
    let command = powershell_guest_exec_command(guest_diagnostics_powershell_command(), true);

    assert!(command.contains("guest-exec"));
    assert!(command.contains("\"capture-output\":true"));
    assert!(command.contains("TranscodedWallpaper"));
    assert!(command.contains("KakaoTalk"));
    assert!(command.contains("RebootRequired"));
    assert!(command.contains("PendingFileRenameOperations"));
}

#[test]
fn repair_wallpaper_command_uses_stable_path_and_theme_cache() {
    let command = powershell_guest_exec_command(repair_wallpaper_powershell_command(), true);

    assert!(command.contains("guest-exec"));
    assert!(command.contains("C:\\\\winbridge\\\\wallpaper.jpg"));
    assert!(command.contains("TranscodedWallpaper"));
    assert!(command.contains("SystemParametersInfo"));
}

#[test]
fn guest_exec_request_escapes_the_command_as_json() {
    assert_eq!(
        powershell_guest_exec_command("a\\b\n\t\r\u{8}\u{c}\u{1}\u{1f}\"é", true),
        r#"{"arguments":{"arg":["-ExecutionPolicy","Bypass","-NoProfile","-WindowStyle","Hidden","-Command","a\\b\n\t\r\b\f\u0001\u001f\"é"],"capture-output":true,"path":"powershell.exe"},"execute":"guest-exec"}"#
    );
}

#[test]
fn guest_exec_request_is_compact_json_with_sorted_keys() {
    assert_eq!(
        powershell_guest_exec_command("Write-Host \"hi\"", false),
        r#"{"arguments":{"arg":["-ExecutionPolicy","Bypass","-NoProfile","-WindowStyle","Hidden","-Command","Write-Host \"hi\""],"capture-output":false,"path":"powershell.exe"},"execute":"guest-exec"}"#
    );
    assert_eq!(
        guest_exec_status_command(-7),
        r#"{"arguments":{"pid":-7},"execute":"guest-exec-status"}"#
    );
}

#[test]
fn exited_command_yields_trimmed_output_or_error() {
    let ok = exited_command_result(
        "PowerShell",
        GuestExecStatus { exitcode: 0, stdout: "\0 done \n\0".to_string(), stderr: String::new() },
    )
    .unwrap();
    assert_eq!(ok, "done");
    let err = exited_command_result(
        "KakaoTalk repair",
        GuestExecStatus { exitcode: 2, stdout: "o".to_string(), stderr: "e".to_string() },
    )
    .unwrap_err();
    assert!(matches!(
        err,
        WinbridgeError::Vm(VmError::GuestAgent(ref m)) if m == "KakaoTalk repair exited with code 2; stderr=e; stdout=o"
    ));
}

#[test]
fn manager_steps_follow_vm_state() {
    let manager = VmManager::new("test-vm");
    assert_eq!(manager.vm_name(), "test-vm");
    assert_eq!(manager.wake_step(VmState::Active), WakeStep::AlreadyActive);
    assert_eq!(manager.wake_step(VmState::Saved), WakeStep::Resume);
    assert_eq!(manager.wake_step(VmState::Off), WakeStep::Start);
    assert_eq!(manager.wake_step(VmState::Other), WakeStep::Start);
    assert!(matches!(manager.poll_until_active_step(VmState::Active, true, 0), PollStep::Reached));
    assert!(matches!(manager.poll_until_active_step(VmState::Other, false, 60), PollStep::Wait));
    match manager.poll_until_active_step(VmState::Other, true, 0) {
        PollStep::GiveUp(err) => assert!(WinbridgeError::Vm(err).message().contains("시간 초과")),
        other => panic!("unexpected {other:?}"),
    }
    assert_eq!(manager.shutdown_step(VmState::Off, true), ShutdownStep::Off);
    assert_eq!(manager.shutdown_step(VmState::Active, false), ShutdownStep::Wait);
    assert_eq!(manager.shutdown_step(VmState::Active, true), ShutdownStep::Destroy);
}

#[test]
fn guest_command_poll_times_out_after_the_allowed_polls() {
    let mut poll = GuestCommandPoll::new(2);
    assert!(poll.should_poll());
    assert!(matches!(poll.on_status(None), GuestPollStep::PollAgain));
    assert!(poll.should_poll());
    assert!(matches!(poll.on_status(None), GuestPollStep::TimedOut));
    assert!(!poll.should_poll());
    let mut poll = GuestCommandPoll::new(40);
    let status = GuestExecStatus { exitcode: 0, stdout: String::new(), stderr: String::new() };
    assert!(matches!(poll.on_status(Some(status.clone())), GuestPollStep::Finished(s) if s == status));
}
