//! What the RDP session loop decides: how server output is handled, when input is dropped
//! during a deactivation/reactivation sequence, and how decoded frames are converted for
//! painting.
use crate::error::{RdpError, WinbridgeError};
use crate::rdp::{
    build_display_control_layout, display_layout, input_events_in_viewport, spec_input_events, InputRequest,
    MonitorLayout, RdpDesktopSize, RdpDisplayStrategy, RdpInput, RdpViewport, RdpVirtualDesktopLayout,
};
use crate::text::{owned, push_str};
use vstd::prelude::*;

verus! {

/// One output of the RDP active stage, as the session loop tells them apart.
#[derive(Debug, Clone, PartialEq, Eq)]
pub enum ActiveOutput {
    /// A frame to send back to the server, of the given length in bytes.
    ResponseFrame { len: usize },
    /// The decoded image changed.
    GraphicsUpdate,
    /// The server ended the session, for the given reason.
    Terminate(String),
    /// The server started a deactivation/reactivation sequence.
    DeactivateAll,
    /// A pointer shape or position update.
    Pointer,
}

/// Work that one active stage output asks of the loop.
#[derive(Debug, Clone, Copy, PartialEq, Eq, Structural)]
pub enum OutputAction {
    /// Send the response frame at this index of the outputs to the server.
    WriteResponse { index: usize },
    /// Hand the decoded image to the window.
    PresentFrame,
    /// Enter the deactivation/reactivation sequence.
    BeginReactivation,
}

/// The work for the outputs from index `i` on, up to the first termination.
pub open spec fn output_actions_from(outputs: Seq<ActiveOutput>, i: int) -> Seq<OutputAction>
    decreases outputs.len() - i,
{
    if i < 0 || i >= outputs.len() {
        Seq::empty()
    } else {
        let rest = output_actions_from(outputs, i + 1);
        match outputs[i] {
            ActiveOutput::ResponseFrame { len } => if len == 0 {
                rest
            } else {
                seq![OutputAction::WriteResponse { index: i as usize }] + rest
            },
            ActiveOutput::GraphicsUpdate => seq![OutputAction::PresentFrame] + rest,
            ActiveOutput::Terminate(_) => Seq::empty(),
            ActiveOutput::DeactivateAll => seq![OutputAction::BeginReactivation] + rest,
            ActiveOutput::Pointer => rest,
        }
    }
}

/// The reason of the first termination among the outputs from index `i` on, if any.
pub open spec fn termination_from(outputs: Seq<ActiveOutput>, i: int) -> Option<Seq<char>>
    decreases outputs.len() - i,
{
    if i < 0 || i >= outputs.len() {
        None
    } else {
        match outputs[i] {
            ActiveOutput::Terminate(reason) => Some(reason@),
            _ => termination_from(outputs, i + 1),
        }
    }
}

/// The plan for a batch of active stage outputs: the work in order, stopping at the first
/// termination, and the error that termination ends the session with.
#[derive(Debug)]
pub struct OutputPlan {
    pub actions: Vec<OutputAction>,
    pub terminated: Option<WinbridgeError>,
}

/// Plans a batch of active stage outputs: non-empty response frames are written, graphics
/// updates presented, a deactivation begins a reactivation, pointer updates are ignored, and
/// a termination ends the session with a disconnection error quoting its reason.
pub fn plan_active_outputs(outputs: &Vec<ActiveOutput>) -> (r: OutputPlan)
    ensures
        r.actions@ == output_actions_from(outputs@, 0),
        termination_from(outputs@, 0) is None ==> r.terminated is None,
        termination_from(outputs@, 0) matches Some(reason) ==> (r.terminated matches Some(
            WinbridgeError::Rdp(RdpError::Disconnected(m)),
        ) && m@ == "server terminated session: "@ + reason),
{
    let mut actions: Vec<OutputAction> = Vec::new();
    let mut i: usize = 0;
    while i < outputs.len()
        invariant
            i <= outputs@.len(),
            output_actions_from(outputs@, 0) == actions@ + output_actions_from(outputs@, i as int),
            termination_from(outputs@, 0) == termination_from(outputs@, i as int),
        decreases outputs@.len() - i,
    {
        let ghost before = actions@;
        match &outputs[i] {
            ActiveOutput::ResponseFrame { len } => {
                if *len != 0 {
                    actions.push(OutputAction::WriteResponse { index: i });
                }
            },
            ActiveOutput::GraphicsUpdate => {
                actions.push(OutputAction::PresentFrame);
            },
            ActiveOutput::Terminate(reason) => {
                let mut m = owned("server terminated session: ");
                push_str(&mut m, reason.as_str());
                assert(output_actions_from(outputs@, i as int) == Seq::<OutputAction>::empty());
                assert(actions@ + Seq::<OutputAction>::empty() == actions@);
                return OutputPlan {
                    actions,
                    terminated: Some(WinbridgeError::Rdp(RdpError::Disconnected(m))),
                };
            },
            ActiveOutput::DeactivateAll => {
                actions.push(OutputAction::BeginReactivation);
            },
            ActiveOutput::Pointer => {},
        }
        assert(actions@ + output_actions_from(outputs@, i + 1) =~= before + output_actions_from(
            outputs@,
            i as int,
        ));
        i = i + 1;
    }
    assert(actions@ + Seq::<OutputAction>::empty() == actions@);
    OutputPlan { actions, terminated: None }
}

/// A server PDU as the reactivation sequence saw it.
#[derive(Debug, Clone, Copy, PartialEq, Eq, Structural)]
pub enum ReactivationResult {
    /// The PDU belonged to the sequence, which finished with this desktop size.
    Finished { width: u16, height: u16 },
    /// The PDU belonged to the sequence, which goes on.
    Continuing,
    /// The PDU is for the active stage.
    Unhandled,
}

/// What the loop does with a server PDU after the reactivation sequence looked at it.
#[derive(Debug, Clone, Copy, PartialEq, Eq, Structural)]
pub enum PduRoute {
    /// Resize the decoded image to the new desktop and leave the sequence.
    Resize { width: u16, height: u16 },
    /// Nothing more to do with this PDU.
    Consumed,
    /// Hand the PDU to the active stage.
    ToActiveStage,
}

/// The phase of an RDP session: active, or inside a deactivation/reactivation sequence.
#[derive(Debug, Clone, Copy, PartialEq, Eq, Structural)]
pub struct SessionPhase {
    pub reactivating: bool,
}

impl SessionPhase {
    /// A session that has just connected is active.
    pub fn new() -> (r: Self)
        ensures
            !r.reactivating,
    {
        SessionPhase { reactivating: false }
    }

    /// The RDP input for a window event: none during a reactivation; otherwise the translated
    /// events (none when the event maps to nothing).
    pub fn input_for(&self, event: InputRequest, viewport: RdpViewport) -> (r: Vec<RdpInput>)
        ensures
            self.reactivating ==> r@.len() == 0,
            !self.reactivating ==> r@ == spec_input_events(event, viewport),
    {
        if self.reactivating {
            return Vec::new();
        }
        input_events_in_viewport(event, viewport)
    }

    /// Whether clipboard work is carried out now: not during a reactivation.
    pub fn accepts_clipboard(&self) -> (r: bool)
        ensures
            r == !self.reactivating,
    {
        !self.reactivating
    }

    /// Records a planned batch of outputs: a deactivation among them starts a reactivation.
    pub fn after_outputs(&mut self, plan: &OutputPlan)
        ensures
            final(self).reactivating == (old(self).reactivating || plan.actions@.contains(
                OutputAction::BeginReactivation,
            )),
    {
        let mut i: usize = 0;
        let mut begins = false;
        while i < plan.actions.len()
            invariant
                i <= plan.actions@.len(),
                begins == exists|j: int| 0 <= j < i && plan.actions@[j] == OutputAction::BeginReactivation,
            decreases plan.actions@.len() - i,
        {
            if plan.actions[i] == OutputAction::BeginReactivation {
                begins = true;
            }
            i = i + 1;
        }
        if begins {
            self.reactivating = true;
        }
    }

    /// Routes a server PDU during a reactivation by what the sequence made of it; an active
    /// session hands every PDU to the active stage.
    pub fn route_pdu(&mut self, result: ReactivationResult) -> (r: PduRoute)
        ensures
            !old(self).reactivating ==> r == PduRoute::ToActiveStage && !final(self).reactivating,
            old(self).reactivating ==> match result {
                ReactivationResult::Finished { width, height } => r == (PduRoute::Resize { width, height })
                    && !final(self).reactivating,
                ReactivationResult::Continuing => r == PduRoute::Consumed && final(self).reactivating,
                ReactivationResult::Unhandled => r == PduRoute::ToActiveStage && final(self).reactivating,
            },
    {
        if !self.reactivating {
            return PduRoute::ToActiveStage;
        }
        match result {
            ReactivationResult::Finished { width, height } => {
                self.reactivating = false;
                PduRoute::Resize { width, height }
            },
            ReactivationResult::Continuing => PduRoute::Consumed,
            ReactivationResult::Unhandled => PduRoute::ToActiveStage,
        }
    }
}

/// The error when reading a server PDU failed.
pub fn pdu_read_failed(err: &str) -> (r: WinbridgeError)
    ensures
        r matches WinbridgeError::Rdp(RdpError::Disconnected(m)) && m@ == "RDP PDU read 실패: "@ + err@,
{
    let mut m = owned("RDP PDU read 실패: ");
    push_str(&mut m, err);
    WinbridgeError::Rdp(RdpError::Disconnected(m))
}

/// The byte order of the pixels of a decoded image.
#[derive(Debug, Clone, Copy, PartialEq, Eq, Structural)]
pub enum PixelLayout {
    RgbA32,
    RgbX32,
    BgrA32,
    BgrX32,
    ARgb32,
    XRgb32,
    ABgr32,
    XBgr32,
}

/// The red, green and blue of a four-byte pixel in a layout.
pub open spec fn pixel_rgb(layout: PixelLayout, p0: u8, p1: u8, p2: u8, p3: u8) -> (u8, u8, u8) {
    match layout {
        PixelLayout::RgbA32 | PixelLayout::RgbX32 => (p0, p1, p2),
        PixelLayout::BgrA32 | PixelLayout::BgrX32 => (p2, p1, p0),
        PixelLayout::ARgb32 | PixelLayout::XRgb32 => (p1, p2, p3),
        PixelLayout::ABgr32 | PixelLayout::XBgr32 => (p3, p2, p1),
    }
}

/// Decoded pixels as opaque BGRA bytes for painting; a trailing partial pixel is dropped.
pub open spec fn spec_bgra(layout: PixelLayout, data: Seq<u8>) -> Seq<u8> {
    Seq::new(
        data.len() / 4 * 4,
        |i: int| {
            let p = i / 4 * 4;
            let rgb = pixel_rgb(layout, data[p], data[p + 1], data[p + 2], data[p + 3]);
            let k = i % 4;
            if k == 0 {
                rgb.2
            } else if k == 1 {
                rgb.1
            } else if k == 2 {
                rgb.0
            } else {
                0xffu8
            }
        },
    )
}

fn rgb_exec(layout: PixelLayout, p0: u8, p1: u8, p2: u8, p3: u8) -> (r: (u8, u8, u8))
    ensures
        r == pixel_rgb(layout, p0, p1, p2, p3),
{
    match layout {
        PixelLayout::RgbA32 | PixelLayout::RgbX32 => (p0, p1, p2),
        PixelLayout::BgrA32 | PixelLayout::BgrX32 => (p2, p1, p0),
        PixelLayout::ARgb32 | PixelLayout::XRgb32 => (p1, p2, p3),
        PixelLayout::ABgr32 | PixelLayout::XBgr32 => (p3, p2, p1),
    }
}

/// Converts decoded pixels to opaque BGRA (see `spec_bgra`).
pub fn bgra_from_pixels(layout: PixelLayout, data: &[u8]) -> (r: Vec<u8>)
    ensures
        r@ == spec_bgra(layout, data@),
{
    let mut out: Vec<u8> = Vec::new();
    let len = data.len();
    let n = len / 4;
    let mut p: usize = 0;
    while p < n
        invariant
            len == data@.len(),
            n == len / 4,
            p <= n,
            out@.len() == p * 4,
            forall|i: int| 0 <= i < out@.len() ==> #[trigger] out@[i] == spec_bgra(layout, data@)[i],
        decreases n - p,
    {
        assert(p * 4 + 4 <= len) by (nonlinear_arith)
            requires
                p < n,
                n == len / 4,
        ;
        let base = p * 4;
        let (r, g, b) = rgb_exec(layout, data[base], data[base + 1], data[base + 2], data[base + 3]);
        out.push(b);
        out.push(g);
        out.push(r);
        out.push(0xff);
        assert forall|i: int| 0 <= i < out@.len() implies #[trigger] out@[i] == spec_bgra(layout, data@)[i] by {
            if i >= base {
                assert(i / 4 == p && i % 4 == i - base) by (nonlinear_arith)
                    requires
                        base == p * 4,
                        base <= i < base + 4,
                ;
            }
        }
        p = p + 1;
    }
    assert(out@ =~= spec_bgra(layout, data@));
    out
}

/// The settings the RDP client connects with.
#[derive(Debug, Clone)]
pub struct ClientSettings {
    pub username: String,
    pub password: String,
    pub enable_tls: bool,
    pub enable_credssp: bool,
    /// The keyboard layout id (US English).
    pub keyboard_layout: u32,
    pub keyboard_subtype: u32,
    pub keyboard_functional_keys_count: u32,
    pub desktop_width: u16,
    pub desktop_height: u16,
    pub client_name: String,
    pub client_dir: String,
    pub enable_server_pointer: bool,
    pub pointer_software_rendering: bool,
    pub autologon: bool,
    pub enable_audio_playback: bool,
}

/// The client settings for a user and a requested desktop size: CredSSP without plain TLS
/// security, a US keyboard with 12 function keys, software pointer rendering, no server
/// pointer, no autologon and no audio.
pub fn client_settings(username: &str, password: &str, desktop: RdpDesktopSize) -> (r: ClientSettings)
    ensures
        r.username@ == username@,
        r.password@ == password@,
        !r.enable_tls,
        r.enable_credssp,
        r.keyboard_layout == 0x409,
        r.keyboard_subtype == 0,
        r.keyboard_functional_keys_count == 12,
        r.desktop_width == desktop.width,
        r.desktop_height == desktop.height,
        r.client_name@ == "winbridge"@,
        r.client_dir@ == "C:\\Windows\\System32\\mstscax.dll"@,
        !r.enable_server_pointer,
        r.pointer_software_rendering,
        !r.autologon,
        !r.enable_audio_playback,
{
    ClientSettings {
        username: owned(username),
        password: owned(password),
        enable_tls: false,
        enable_credssp: true,
        keyboard_layout: 0x409,
        keyboard_subtype: 0,
        keyboard_functional_keys_count: 12,
        desktop_width: desktop.width,
        desktop_height: desktop.height,
        client_name: owned("winbridge"),
        client_dir: owned("C:\\Windows\\System32\\mstscax.dll"),
        enable_server_pointer: false,
        pointer_software_rendering: true,
        autologon: false,
        enable_audio_playback: false,
    }
}

/// The Windows account the client signs in with: `WINBRIDGE_ADMIN_USER` when set, otherwise
/// `Administrator`.
pub fn admin_user(env_value: Option<String>) -> (r: String)
    ensures
        env_value matches Some(v) ==> r@ == v@,
        env_value is None ==> r@ == "Administrator"@,
{
    match env_value {
        Some(v) => v,
        None => owned("Administrator"),
    }
}

/// The monitors to request through display control: only for the experimental multi-monitor
/// strategy with a virtual desktop layout.
pub fn display_control_request(strategy: RdpDisplayStrategy, layout: Option<RdpVirtualDesktopLayout>) -> (r: Option<Vec<MonitorLayout>>)
    ensures
        strategy == RdpDisplayStrategy::ExperimentalMultimon && layout is Some ==> (r matches Some(
            m,
        ) && m@ == display_layout(layout->0)),
        !(strategy == RdpDisplayStrategy::ExperimentalMultimon && layout is Some) ==> r is None,
{
    if strategy != RdpDisplayStrategy::ExperimentalMultimon {
        return None;
    }
    match layout {
        Some(l) => Some(build_display_control_layout(l)),
        None => None,
    }
}

/// Every planned write names a response frame of the batch that has bytes to send, so the
/// loop writes only frames that exist and are not empty.
pub proof fn planned_writes_are_nonempty_frames(outputs: Seq<ActiveOutput>, i: int, k: int)
    requires
        0 <= i,
        outputs.len() <= usize::MAX,
        0 <= k < output_actions_from(outputs, i).len(),
        output_actions_from(outputs, i)[k] is WriteResponse,
    ensures
        ({
            let index = output_actions_from(outputs, i)[k]->index as int;
            &&& i <= index < outputs.len()
            &&& outputs[index] matches ActiveOutput::ResponseFrame { len } && len > 0
        }),
    decreases outputs.len() - i,
{
    if i < outputs.len() {
        let rest = output_actions_from(outputs, i + 1);
        match outputs[i] {
            ActiveOutput::ResponseFrame { len } => {
                if len != 0 && k == 0 {
                    assert(output_actions_from(outputs, i)[k] == (OutputAction::WriteResponse {
                        index: i as usize,
                    }));
                } else if len != 0 {
                    assert(output_actions_from(outputs, i)[k] == rest[k - 1]);
                    planned_writes_are_nonempty_frames(outputs, i + 1, k - 1);
                } else {
                    planned_writes_are_nonempty_frames(outputs, i + 1, k);
                }
            },
            ActiveOutput::GraphicsUpdate => {
                if k > 0 {
                    assert(output_actions_from(outputs, i)[k] == rest[k - 1]);
                    planned_writes_are_nonempty_frames(outputs, i + 1, k - 1);
                }
            },
            ActiveOutput::DeactivateAll => {
                if k > 0 {
                    assert(output_actions_from(outputs, i)[k] == rest[k - 1]);
                    planned_writes_are_nonempty_frames(outputs, i + 1, k - 1);
                }
            },
            ActiveOutput::Pointer => {
                planned_writes_are_nonempty_frames(outputs, i + 1, k);
            },
            ActiveOutput::Terminate(_) => {},
        }
    }
}

} // verus!
