use winbridge::error::{RdpError, WinbridgeError};
use winbridge::rdp::{InputRequest, PointerInput, RdpDesktopSize, RdpDisplayStrategy, RdpViewport, RdpVirtualDesktopLayout};
use winbridge::session::{
    admin_user, bgra_from_pixels, client_settings, display_control_request, pdu_read_failed, plan_active_outputs,
    ActiveOutput, OutputAction, PduRoute, PixelLayout, ReactivationResult, SessionPhase,
};

#[test]
fn outputs_are_planned_in_order_until_termination() {
    let outputs = vec![
        ActiveOutput::ResponseFrame { len: 0 },
        ActiveOutput::ResponseFrame { len: 12 },
        ActiveOutput::Pointer,
        ActiveOutput::GraphicsUpdate,
        ActiveOutput::DeactivateAll,
    ];
    let plan = plan_active_outputs(&outputs);
    assert_eq!(
        plan.actions,
        vec![OutputAction::WriteResponse { index: 1 }, OutputAction::PresentFrame, OutputAction::BeginReactivation]
    );
    assert!(plan.terminated.is_none());

    let outputs = vec![
        ActiveOutput::GraphicsUpdate,
        ActiveOutput::Terminate("logoff".to_string()),
        ActiveOutput::GraphicsUpdate,
    ];
    let plan = plan_active_outputs(&outputs);
    assert_eq!(plan.actions, vec![OutputAction::PresentFrame]);
    match plan.terminated {
        Some(WinbridgeError::Rdp(RdpError::Disconnected(m))) => assert_eq!(m, "server terminated session: logoff"),
        other => panic!("unexpected {other:?}"),
    }
}

#[test]
fn reactivation_drops_input_and_routes_pdus() {
    let mut phase = SessionPhase::new();
    let viewport = RdpViewport::new(0, 0, 1280, 720);
    let click = InputRequest::Pointer { input: PointerInput::Press { button: 1 }, position: Some((1, 1)) };
    assert_eq!(phase.input_for(click, viewport).len(), 1);
    assert_eq!(phase.route_pdu(ReactivationResult::Continuing), PduRoute::ToActiveStage);

    let plan = plan_active_outputs(&vec![ActiveOutput::DeactivateAll]);
    phase.after_outputs(&plan);
    assert!(phase.reactivating);
    assert!(phase.input_for(click, viewport).is_empty());
    assert!(!phase.accepts_clipboard());
    assert_eq!(phase.route_pdu(ReactivationResult::Continuing), PduRoute::Consumed);
    assert_eq!(phase.route_pdu(ReactivationResult::Unhandled), PduRoute::ToActiveStage);
    assert_eq!(
        phase.route_pdu(ReactivationResult::Finished { width: 1920, height: 1080 }),
        PduRoute::Resize { width: 1920, height: 1080 }
    );
    assert!(!phase.reactivating);
    assert!(phase.accepts_clipboard());
}

#[test]
fn decoded_pixels_become_opaque_bgra() {
    let rgba = [10, 20, 30, 40];
    assert_eq!(bgra_from_pixels(PixelLayout::RgbA32, &rgba), vec![30, 20, 10, 255]);
    assert_eq!(bgra_from_pixels(PixelLayout::BgrX32, &rgba), vec![10, 20, 30, 255]);
    assert_eq!(bgra_from_pixels(PixelLayout::ARgb32, &rgba), vec![40, 30, 20, 255]);
    assert_eq!(bgra_from_pixels(PixelLayout::XBgr32, &[1, 2, 3, 4, 5]), vec![2, 3, 4, 255]);
}

#[test]
fn client_settings_use_credssp_and_a_us_keyboard() {
    let settings = client_settings("Administrator", "pw", RdpDesktopSize::new(960, 720));
    assert!(settings.enable_credssp);
    assert!(!settings.enable_tls);
    assert_eq!(settings.keyboard_layout, 0x409);
    assert_eq!((settings.desktop_width, settings.desktop_height), (960, 720));
    assert_eq!(settings.client_dir, "C:\\Windows\\System32\\mstscax.dll");
    assert_eq!(admin_user(None), "Administrator");
    assert_eq!(admin_user(Some("me".to_string())), "me");
}

#[test]
fn display_control_is_requested_only_for_the_multimon_experiment() {
    let layout = Some(RdpVirtualDesktopLayout::TwoHorizontalSlots { slot_width: 1280, slot_height: 720 });
    assert!(display_control_request(RdpDisplayStrategy::StableSlots, layout).is_none());
    assert!(display_control_request(RdpDisplayStrategy::ExperimentalMultimon, None).is_none());
    assert_eq!(display_control_request(RdpDisplayStrategy::ExperimentalMultimon, layout).unwrap().len(), 2);
    assert_eq!(pdu_read_failed("eof").message(), "RDP 연결 실패: RDP 연결 끊김: RDP PDU read 실패: eof");
}
