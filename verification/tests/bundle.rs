use winbridge::bundle::{
    append_command_snapshot, cdrom_status, command_line, diagnostic_bundle_text, host_snapshot_commands,
    libvirt_snapshot_commands, qemu_ga_status, rdp_tcp_status, tcp_timeout_message, truncate_for_bundle,
    BundleConfig, CommandOutcome, CommandSnapshot, SnapshotCommand, VmStatus,
};
use winbridge::config::LifecycleConfig;
use winbridge::doctor::{DoctorCheck, DoctorReport, DoctorStatus};
use winbridge::error::{VmError, WinbridgeError};
use winbridge::vm::{AttachedCdrom, VmState};

#[test]
fn diagnostic_bundle_snapshot_reports_missing_command() {
    let mut out = String::new();

    // Spawning "/definitely/missing-winbridge-command" fails with this error.
    let outcome = CommandOutcome::FailedToRun("No such file or directory (os error 2)".to_string());
    let command = command_line("/definitely/missing-winbridge-command", &Vec::new());
    append_command_snapshot(&mut out, "missing", &command, &outcome);

    assert!(out.contains("## missing"));
    assert!(out.contains("failed to run"));
    assert_eq!(
        out,
        "## missing\n$ /definitely/missing-winbridge-command\nfailed to run: No such file or directory (os error 2)\n\n"
    );
}

#[test]
fn diagnostic_bundle_truncates_large_output_on_char_boundary() {
    let input = format!("{}한글", "a".repeat(12_500));
    let output = truncate_for_bundle(&input);

    assert!(output.contains("truncated after"));
    assert!(std::str::from_utf8(output.as_bytes()).is_ok());
    assert_eq!(output, format!("{}\n... truncated after 12000 bytes ...", "a".repeat(12_000)));
}

#[test]
fn truncation_backs_off_to_a_character_boundary() {
    let input = format!("{}한글", "a".repeat(11_999));
    let output = truncate_for_bundle(&input);
    assert_eq!(output, format!("{}\n... truncated after 11999 bytes ...", "a".repeat(11_999)));
    let short = "한글 text";
    assert_eq!(truncate_for_bundle(short), short);
    let exact = "a".repeat(12_000);
    assert_eq!(truncate_for_bundle(&exact), exact);
}

#[test]
fn snapshot_shows_exit_and_non_blank_streams() {
    let mut out = String::new();
    let outcome = CommandOutcome::Ran {
        status: "exit status: 0".to_string(),
        stdout: b"Linux host 6.1\n".to_vec(),
        stderr: b"  \n".to_vec(),
    };
    let args = vec!["-a".to_string()];
    append_command_snapshot(&mut out, "uname", &command_line("uname", &args), &outcome);
    assert_eq!(out, "## uname\n$ uname -a\nexit: exit status: 0\nstdout:\nLinux host 6.1\n\n\n");
}

#[test]
fn snapshot_commands_cover_host_and_libvirt() {
    let host = host_snapshot_commands();
    assert_eq!(host[0].label, "uname");
    assert_eq!(command_line(&host[1].program, &host[1].args), "df -h /home");
    let virsh = libvirt_snapshot_commands("qemu:///system", "vm1");
    assert_eq!(virsh.len(), 3);
    assert_eq!(command_line(&virsh[0].program, &virsh[0].args), "virsh --connect qemu:///system list --all");
    assert_eq!(virsh[2].label, "virsh-domblklist");
    assert_eq!(command_line(&virsh[2].program, &virsh[2].args), "virsh --connect qemu:///system domblklist vm1");
}

#[test]
fn status_lines_describe_rdp_guest_agent_and_cdroms() {
    assert_eq!(rdp_tcp_status("10.0.0.5", Ok(())), "10.0.0.5:3389 reachable");
    assert_eq!(
        rdp_tcp_status("10.0.0.5", Err(tcp_timeout_message(1))),
        "10.0.0.5:3389 unreachable (timeout after 1s)"
    );
    assert_eq!(qemu_ga_status(VmState::Saved, &Ok(())), "skipped (VM not active)");
    assert_eq!(qemu_ga_status(VmState::Active, &Ok(())), "guest-ping ok");
    let ping_err = Err(WinbridgeError::Vm(VmError::GuestAgent("x".to_string())));
    assert_eq!(
        qemu_ga_status(VmState::Active, &ping_err),
        "guest-ping failed (VM 작업 실패: QEMU guest agent 오류: x)"
    );
    let one = vec![AttachedCdrom { target: "sdb".to_string(), source: None, source_exists: false }];
    assert_eq!(
        cdrom_status(VmState::Off, &Ok(Vec::new()), &Ok(one.clone())),
        "persistent=none, live=skipped (VM not active)"
    );
    assert_eq!(
        cdrom_status(VmState::Active, &Ok(one.clone()), &Err(WinbridgeError::Other("no xml".to_string()))),
        "persistent=1 attachment(s), live=inspect failed (no xml)"
    );
}

#[test]
fn bundle_text_holds_header_sections_and_report() {
    let host = vec![CommandSnapshot {
        command: SnapshotCommand { label: "uname".to_string(), program: "uname".to_string(), args: vec!["-a".to_string()] },
        outcome: CommandOutcome::FailedToRun("denied".to_string()),
    }];
    let mut report = DoctorReport::default();
    report.push(DoctorCheck::new(DoctorStatus::Pass, "credentials", "ok"));
    let failed = BundleConfig::Failed(WinbridgeError::Other("no credentials".to_string()));
    let text = diagnostic_bundle_text("0.1.0", 42, &host, &failed, &report);
    assert_eq!(
        text,
        "winbridge diagnostic bundle\nversion: 0.1.0\ngenerated-unix-seconds: 42\n\n[host]\n## uname\n$ uname -a\nfailed to run: denied\n\n[status]\nconfig error: no credentials\n\n[doctor]\nwinbridge doctor\n[OK] credentials - ok\n"
    );
    let loaded = BundleConfig::Loaded {
        libvirt: Vec::new(),
        status: VmStatus::Known {
            vm_name: "vm1".to_string(),
            state: VmState::Active,
            lifecycle: LifecycleConfig::default(),
            rdp: "r".to_string(),
            qemu_ga: "q".to_string(),
            cdrom: "c".to_string(),
        },
    };
    let text = diagnostic_bundle_text("0.1.0", 42, &Vec::new(), &loaded, &DoctorReport::default());
    assert!(text.contains("[host]\n\n[libvirt]\n\n[status]\nvm: vm1 Active\nlifecycle: close-window=keep-running, quit=managed-save, idle-timeout=disabled\nrdp: r\nqemu-ga: q\ncdrom: c\n\n[doctor]\n"));
    let broken = BundleConfig::Loaded {
        libvirt: Vec::new(),
        status: VmStatus::StateError(WinbridgeError::Other("gone".to_string())),
    };
    let text = diagnostic_bundle_text("0.1.0", 0, &Vec::new(), &broken, &DoctorReport::default());
    assert!(text.contains("[status]\nvm state error: gone\n"));
}
