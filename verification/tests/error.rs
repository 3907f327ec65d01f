use winbridge::error::{RdpError, VmError, WinbridgeError};

#[test]
fn vm_error_displays_korean_guidance_for_libvirt_connect() {
    let err = VmError::LibvirtConnect("권한 거부".into());
    let msg = err.message();
    assert!(msg.contains("libvirt 그룹"));
    assert!(msg.contains("권한 거부"));
}

#[test]
fn winbridge_error_wraps_vm_error_via_from() {
    let inner = VmError::DomainNotFound { name: "winbridge-srv2022".into() };
    let outer: WinbridgeError = inner.into();
    let msg = outer.message();
    assert!(msg.contains("winbridge-srv2022"));
}

#[test]
fn state_timeout_message_names_operation_and_seconds() {
    let err: WinbridgeError = VmError::StateTimeout { operation: "ensure_active".into(), timeout_secs: 60 }.into();
    assert_eq!(err.message(), "VM 작업 실패: VM 상태 전환 시간 초과 (ensure_active, 60s)");
}

#[test]
fn rdp_error_messages_carry_their_cause() {
    let err: WinbridgeError = RdpError::Disconnected("gone".into()).into();
    assert_eq!(err.message(), "RDP 연결 실패: RDP 연결 끊김: gone");
    assert_eq!(WinbridgeError::Other("plain".into()).message(), "plain");
}
