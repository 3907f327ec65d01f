//! What the tray manager and the `start` command decide: how closing and quitting treat the
//! VM, the idle timeout, notifications, and the tray action loop as a state machine from
//! action to effect.
use crate::cli::{DisplayStrategy, WindowMode};
use crate::config::{CloseWindowPolicy, LifecycleConfig, QuitPolicy};
use crate::desktop::KAKAOTALK_APPLICATION_ID;
use crate::error::{RdpError, WinbridgeError};
use crate::rdp::{RdpDisplayStrategy, RdpViewport, RdpDesktopSize, RdpVirtualDesktopLayout, RdpWindowOptions};
use crate::text::{
    decimal, owned, push_decimal, push_str, slice_range, strip_bounds_ws, to_chars, trim, push_chars,
};
use vstd::prelude::*;

verus! {

broadcast use vstd::string::group_string_axioms;

/// The application id of the tray manager and of desktop mode.
pub const WINBRIDGE_APPLICATION_ID: &'static str = "dev.winbridge.Winbridge";

/// What closing the RDP window does to the VM.
#[derive(Debug, Clone, Copy, PartialEq, Eq, Structural)]
pub enum RdpWindowCloseAction {
    CloseWindowOnly,
    ManagedSave,
}

/// What a termination signal does.
#[derive(Debug, Clone, Copy, PartialEq, Eq, Structural)]
pub enum ProcessSignalAction {
    ManagedSaveThenQuit,
}

/// Whether the process outlives its last window.
#[derive(Debug, Clone, Copy, PartialEq, Eq, Structural)]
pub enum StartProcessPolicy {
    ExitWithLastWindow,
    HoldTrayAfterWindowClose,
}

pub fn rdp_window_close_action(policy: CloseWindowPolicy) -> (r: RdpWindowCloseAction)
    ensures
        policy == CloseWindowPolicy::KeepRunning ==> r == RdpWindowCloseAction::CloseWindowOnly,
        policy == CloseWindowPolicy::ManagedSave ==> r == RdpWindowCloseAction::ManagedSave,
{
    match policy {
        CloseWindowPolicy::KeepRunning => RdpWindowCloseAction::CloseWindowOnly,
        CloseWindowPolicy::ManagedSave => RdpWindowCloseAction::ManagedSave,
    }
}

/// A termination signal always saves the VM before quitting, so a host shutdown does not lose
/// the guest's state.
pub fn process_signal_action() -> (r: ProcessSignalAction)
    ensures
        r == ProcessSignalAction::ManagedSaveThenQuit,
{
    ProcessSignalAction::ManagedSaveThenQuit
}

pub fn start_process_policy(mode: WindowMode) -> (r: StartProcessPolicy)
    ensures
        mode == WindowMode::App ==> r == StartProcessPolicy::HoldTrayAfterWindowClose,
        mode == WindowMode::Desktop ==> r == StartProcessPolicy::ExitWithLastWindow,
{
    match mode {
        WindowMode::App => StartProcessPolicy::HoldTrayAfterWindowClose,
        WindowMode::Desktop => StartProcessPolicy::ExitWithLastWindow,
    }
}

/// The idle timeout in seconds: the configured minutes times 60 (saturating), none when not
/// configured or zero.
pub open spec fn idle_timeout_secs(lifecycle: LifecycleConfig) -> Option<u64> {
    match lifecycle.idle_timeout_minutes {
        None => None,
        Some(m) => if m == 0 {
            None
        } else if m * 60 > u64::MAX {
            Some(u64::MAX)
        } else {
            Some((m * 60) as u64)
        },
    }
}

pub fn lifecycle_idle_timeout(lifecycle: LifecycleConfig) -> (r: Option<u64>)
    ensures
        r == idle_timeout_secs(lifecycle),
{
    match lifecycle.idle_timeout_minutes {
        None => None,
        Some(minutes) => {
            let secs = if minutes > u64::MAX / 60 {
                u64::MAX
            } else {
                minutes * 60
            };
            if secs == 0 {
                None
            } else {
                Some(secs)
            }
        },
    }
}

pub open spec fn spec_close_label(policy: CloseWindowPolicy) -> Seq<char> {
    match policy {
        CloseWindowPolicy::KeepRunning => "keep-running"@,
        CloseWindowPolicy::ManagedSave => "managed-save"@,
    }
}

pub open spec fn spec_quit_label(policy: QuitPolicy) -> Seq<char> {
    match policy {
        QuitPolicy::ManagedSave => "managed-save"@,
        QuitPolicy::KeepRunning => "keep-running"@,
    }
}

pub fn close_window_policy_label(policy: CloseWindowPolicy) -> (r: &'static str)
    ensures
        r@ == spec_close_label(policy),
{
    match policy {
        CloseWindowPolicy::KeepRunning => "keep-running",
        CloseWindowPolicy::ManagedSave => "managed-save",
    }
}

pub fn quit_policy_label(policy: QuitPolicy) -> (r: &'static str)
    ensures
        r@ == spec_quit_label(policy),
{
    match policy {
        QuitPolicy::ManagedSave => "managed-save",
        QuitPolicy::KeepRunning => "keep-running",
    }
}

/// The one-line lifecycle summary that `status` prints.
pub open spec fn spec_lifecycle_summary(lifecycle: LifecycleConfig) -> Seq<char> {
    "close-window="@ + spec_close_label(lifecycle.close_window) + ", quit="@ + spec_quit_label(
        lifecycle.quit,
    ) + ", idle-timeout="@ + match lifecycle.idle_timeout_minutes {
        Some(m) => decimal(m as nat) + "m"@,
        None => "disabled"@,
    }
}

pub fn lifecycle_summary(lifecycle: LifecycleConfig) -> (r: String)
    ensures
        r@ == spec_lifecycle_summary(lifecycle),
{
    let mut out = owned("close-window=");
    push_str(&mut out, close_window_policy_label(lifecycle.close_window));
    push_str(&mut out, ", quit=");
    push_str(&mut out, quit_policy_label(lifecycle.quit));
    push_str(&mut out, ", idle-timeout=");
    match lifecycle.idle_timeout_minutes {
        Some(minutes) => {
            push_decimal(&mut out, minutes);
            push_str(&mut out, "m");
        },
        None => {
            push_str(&mut out, "disabled");
        },
    }
    out
}

/// A result as text.
pub open spec fn result_view(result: Result<&str, &str>) -> Result<Seq<char>, Seq<char>> {
    match result {
        Ok(d) => Ok(d@),
        Err(e) => Err(e@),
    }
}

/// The body of a notification about a repair.
pub open spec fn spec_repair_body(action: Seq<char>, result: Result<Seq<char>, Seq<char>>) -> Seq<
    char,
> {
    match result {
        Ok(detail) => if trim(detail).len() == 0 {
            action + " completed. Next: open KakaoTalk or run doctor if the issue remains."@
        } else {
            action + " completed: "@ + trim(detail)
                + ". Next: open KakaoTalk or run doctor if the issue remains."@
        },
        Err(err) => action + " failed: "@ + err + ". Next: run doctor or open Windows desktop."@,
    }
}

/// The body of a notification about any other tray action.
pub open spec fn spec_action_body(action: Seq<char>, result: Result<Seq<char>, Seq<char>>) -> Seq<
    char,
> {
    match result {
        Ok(detail) => if trim(detail).len() == 0 {
            action + " completed. Next: run status or doctor if needed."@
        } else {
            action + " completed: "@ + trim(detail) + ". Next: run status or doctor if needed."@
        },
        Err(err) => action + " failed: "@ + err + ". Next: run doctor or open Windows desktop."@,
    }
}

/// Appends `detail` trimmed; tells whether the trimmed detail is empty.
fn push_trimmed(out: &mut String, detail: &str) -> (empty: bool)
    ensures
        final(out)@ == old(out)@ + trim(detail@),
        empty == (trim(detail@).len() == 0),
{
    let cs = to_chars(detail);
    let (lo, hi) = strip_bounds_ws(cs.as_slice(), 0, cs.len());
    assert(cs@.subrange(0, cs@.len() as int) == cs@);
    push_chars(out, slice_range(cs.as_slice(), lo, hi));
    lo == hi
}

/// The trimmed form of a string is empty.
fn trims_to_empty(detail: &str) -> (b: bool)
    ensures
        b == (trim(detail@).len() == 0),
{
    let cs = to_chars(detail);
    let (lo, hi) = strip_bounds_ws(cs.as_slice(), 0, cs.len());
    assert(cs@.subrange(0, cs@.len() as int) == cs@);
    lo == hi
}

pub fn repair_notification_body(action: &str, result: Result<&str, &str>) -> (r: String)
    ensures
        r@ == spec_repair_body(action@, result_view(result)),
{
    let mut out = owned(action);
    match result {
        Ok(detail) => {
            if trims_to_empty(detail) {
                push_str(
                    &mut out,
                    " completed. Next: open KakaoTalk or run doctor if the issue remains.",
                );
            } else {
                push_str(&mut out, " completed: ");
                push_trimmed(&mut out, detail);
                push_str(&mut out, ". Next: open KakaoTalk or run doctor if the issue remains.");
            }
        },
        Err(err) => {
            push_str(&mut out, " failed: ");
            push_str(&mut out, err);
            push_str(&mut out, ". Next: run doctor or open Windows desktop.");
        },
    }
    out
}

pub fn action_notification_body(action: &str, result: Result<&str, &str>) -> (r: String)
    ensures
        r@ == spec_action_body(action@, result_view(result)),
{
    let mut out = owned(action);
    match result {
        Ok(detail) => {
            if trims_to_empty(detail) {
                push_str(&mut out, " completed. Next: run status or doctor if needed.");
            } else {
                push_str(&mut out, " completed: ");
                push_trimmed(&mut out, detail);
                push_str(&mut out, ". Next: run status or doctor if needed.");
            }
        },
        Err(err) => {
            push_str(&mut out, " failed: ");
            push_str(&mut out, err);
            push_str(&mut out, ". Next: run doctor or open Windows desktop.");
        },
    }
    out
}

/// The GTK application id for a window mode.
pub fn gtk_application_id(mode: WindowMode) -> (r: &'static str)
    ensures
        mode == WindowMode::App ==> r@ == KAKAOTALK_APPLICATION_ID@,
        mode == WindowMode::Desktop ==> r@ == WINBRIDGE_APPLICATION_ID@,
{
    match mode {
        WindowMode::App => KAKAOTALK_APPLICATION_ID,
        WindowMode::Desktop => WINBRIDGE_APPLICATION_ID,
    }
}

pub open spec fn spec_rdp_display_strategy(display: DisplayStrategy) -> RdpDisplayStrategy {
    match display {
        DisplayStrategy::StableSlots => RdpDisplayStrategy::StableSlots,
        DisplayStrategy::ExperimentalMultimon => RdpDisplayStrategy::ExperimentalMultimon,
    }
}

pub fn rdp_display_strategy(display: DisplayStrategy) -> (r: RdpDisplayStrategy)
    ensures
        r == spec_rdp_display_strategy(display),
{
    match display {
        DisplayStrategy::StableSlots => RdpDisplayStrategy::StableSlots,
        DisplayStrategy::ExperimentalMultimon => RdpDisplayStrategy::ExperimentalMultimon,
    }
}

/// The window options for a mode and display strategy: the app window keeps its viewport and
/// only takes the strategy; desktop mode is the plain desktop or, for the multi-monitor
/// experiment, the two-monitor desktop.
pub open spec fn spec_window_options(mode: WindowMode, display: DisplayStrategy, o: RdpWindowOptions) -> bool {
    match mode {
        WindowMode::App => {
            &&& o.title@ == "winbridge"@
            &&& o.icon_name == Some(crate::desktop::WINBRIDGE_ICON_NAME)
            &&& o.viewport == (RdpViewport { left: 0, top: 0, width: 960, height: 720 })
            &&& o.desktop_size == (RdpDesktopSize { width: 960, height: 720 })
            &&& o.virtual_desktop_layout is None
            &&& o.display_strategy == spec_rdp_display_strategy(display)
        },
        WindowMode::Desktop => match display {
            DisplayStrategy::StableSlots => {
                &&& o.title@ == "Windows Desktop"@
                &&& o.icon_name is None
                &&& o.viewport == (RdpViewport { left: 0, top: 0, width: 1280, height: 720 })
                &&& o.desktop_size == (RdpDesktopSize { width: 1280, height: 720 })
                &&& o.virtual_desktop_layout is None
                &&& o.display_strategy == RdpDisplayStrategy::StableSlots
            },
            DisplayStrategy::ExperimentalMultimon => {
                &&& o.title@ == "Windows Desktop"@
                &&& o.icon_name is None
                &&& o.viewport == (RdpViewport { left: 0, top: 0, width: 2560, height: 720 })
                &&& o.desktop_size == (RdpDesktopSize { width: 2560, height: 720 })
                &&& o.virtual_desktop_layout == Some(
                    (RdpVirtualDesktopLayout::TwoHorizontalSlots {
                        slot_width: 1280,
                        slot_height: 720,
                    }),
                )
                &&& o.display_strategy == RdpDisplayStrategy::ExperimentalMultimon
            },
        },
    }
}

pub fn rdp_window_options(mode: WindowMode, display: DisplayStrategy) -> (r: RdpWindowOptions)
    ensures
        spec_window_options(mode, display, r),
{
    match mode {
        WindowMode::App => RdpWindowOptions::kakaotalk_app().with_display_strategy(
            rdp_display_strategy(display),
        ),
        WindowMode::Desktop => match display {
            DisplayStrategy::StableSlots => RdpWindowOptions::new("Windows Desktop"),
            DisplayStrategy::ExperimentalMultimon => RdpWindowOptions::experimental_multimon_desktop(),
        },
    }
}

/// A request handled by the tray action loop.
#[derive(Debug, Clone, PartialEq, Eq)]
pub enum TrayAction {
    Open { mode: WindowMode },
    OpenReady { mode: WindowMode, vm_ip: String, password: String },
    OpenFinished,
    WindowOpened,
    WindowClosed,
    IdleTimeout { generation: u64 },
    RepairKakao,
    RepairWallpaper,
    Pause,
    Shutdown,
    ManagedSaveThenQuit,
    Notify { title: String, body: String },
    Quit,
}

/// The tray action for quitting winbridge.
pub fn tray_quit_action(policy: QuitPolicy) -> (r: TrayAction)
    ensures
        policy == QuitPolicy::ManagedSave ==> r is ManagedSaveThenQuit,
        policy == QuitPolicy::KeepRunning ==> r is Quit,
{
    match policy {
        QuitPolicy::ManagedSave => TrayAction::ManagedSaveThenQuit,
        QuitPolicy::KeepRunning => TrayAction::Quit,
    }
}

/// The tray actions sent when the RDP window is closed.
pub fn window_close_actions(action: RdpWindowCloseAction) -> (r: Vec<TrayAction>)
    ensures
        action == RdpWindowCloseAction::CloseWindowOnly ==> r@.len() == 1 && r@[0] is WindowClosed,
        action == RdpWindowCloseAction::ManagedSave ==> r@.len() == 2 && r@[0] is WindowClosed
            && r@[1] is Pause,
{
    let mut actions = Vec::new();
    actions.push(TrayAction::WindowClosed);
    if action == RdpWindowCloseAction::ManagedSave {
        actions.push(TrayAction::Pause);
    }
    actions
}

/// Guards against opening a second window while one is being opened.
#[derive(Debug, Clone, Copy, PartialEq, Eq, Structural)]
pub struct TrayOpenGate {
    pub in_progress: bool,
}

impl Default for TrayOpenGate {
    fn default() -> (r: Self)
        ensures
            !r.in_progress,
    {
        TrayOpenGate { in_progress: false }
    }
}

impl TrayOpenGate {
    /// Starts an open unless one is pending; tells whether it started.
    pub fn try_begin(&mut self) -> (r: bool)
        ensures
            r == !old(self).in_progress,
            final(self).in_progress,
    {
        if self.in_progress {
            return false;
        }
        self.in_progress = true;
        true
    }

    /// Ends the pending open.
    pub fn finish(&mut self)
        ensures
            !final(self).in_progress,
    {
        self.in_progress = false;
    }
}

/// Which guest repair to run.
#[derive(Debug, Clone, Copy, PartialEq, Eq, Structural)]
pub enum RepairTarget {
    KakaoTalk,
    Wallpaper,
}

/// Work that the tray action loop asks its host to carry out.
#[derive(Debug, Clone)]
pub enum TrayEffect {
    /// Wake the VM and wait for RDP, then report with `open_outcome_actions`.
    StartOpen { mode: WindowMode },
    /// Bring the existing window to the front.
    PresentWindow,
    /// Open an RDP window; report with `window_open_outcome`; closing it sends
    /// `window_close_actions(close_action)`.
    OpenWindow {
        mode: WindowMode,
        vm_ip: String,
        password: String,
        options: RdpWindowOptions,
        close_action: RdpWindowCloseAction,
    },
    /// After `after_secs` seconds, send `IdleTimeout { generation }`.
    ScheduleIdleTimeout { generation: u64, after_secs: u64 },
    /// The VM sat idle with no window: managed-save it.
    IdleManagedSave,
    /// Wake the VM and run a guest repair, then report with `repair_outcome_action`.
    StartRepair { target: RepairTarget },
    /// Managed-save the VM, then report with `pause_outcome_action`.
    StartPause,
    /// Shut the VM down, then report with `shutdown_outcome_action`.
    StartShutdown,
    /// Managed-save the VM, then send `Quit` whatever came of it.
    StartManagedSaveThenQuit,
    /// Show a desktop notification.
    ShowNotification { title: String, body: String },
    /// Quit the application.
    QuitApp,
}

/// The state of the tray action loop.
#[derive(Debug, Clone, Copy)]
pub struct TrayLoop {
    open_gate: TrayOpenGate,
    idle_timeout_secs: Option<u64>,
    idle_generation: u64,
    rdp_window_open: bool,
    close_window: CloseWindowPolicy,
    display: DisplayStrategy,
}

/// The tray loop state as values.
pub struct TrayLoopView {
    pub open_in_progress: bool,
    pub idle_timeout_secs: Option<u64>,
    pub idle_generation: u64,
    pub rdp_window_open: bool,
    pub close_window: CloseWindowPolicy,
    pub display: DisplayStrategy,
}

impl View for TrayLoop {
    type V = TrayLoopView;

    closed spec fn view(&self) -> TrayLoopView {
        TrayLoopView {
            open_in_progress: self.open_gate.in_progress,
            idle_timeout_secs: self.idle_timeout_secs,
            idle_generation: self.idle_generation,
            rdp_window_open: self.rdp_window_open,
            close_window: self.close_window,
            display: self.display,
        }
    }
}

/// `u64::wrapping_add(g, 1)`.
pub open spec fn next_generation(g: u64) -> u64 {
    if g == u64::MAX {
        0
    } else {
        (g + 1) as u64
    }
}

fn bump(g: u64) -> (r: u64)
    ensures
        r == next_generation(g),
{
    if g == u64::MAX {
        0
    } else {
        g + 1
    }
}

/// The state after an action. `active_window` tells whether the application already shows a
/// window (consulted for `OpenReady` only).
pub open spec fn tray_next_state(s: TrayLoopView, a: TrayAction, active_window: bool) -> TrayLoopView {
    match a {
        TrayAction::Open { .. } => TrayLoopView {
            open_in_progress: true,
            idle_generation: next_generation(s.idle_generation),
            ..s
        },
        TrayAction::OpenReady { .. } => TrayLoopView { open_in_progress: false, ..s },
        TrayAction::OpenFinished => TrayLoopView { open_in_progress: false, ..s },
        TrayAction::WindowOpened => TrayLoopView {
            rdp_window_open: true,
            idle_generation: next_generation(s.idle_generation),
            ..s
        },
        TrayAction::WindowClosed => TrayLoopView {
            rdp_window_open: false,
            idle_generation: next_generation(s.idle_generation),
            ..s
        },
        _ => s,
    }
}

/// The effect of an action in a state.
pub open spec fn tray_effect(s: TrayLoopView, a: TrayAction, active_window: bool, e: Option<TrayEffect>) -> bool {
    match a {
        TrayAction::Open { mode } => if s.open_in_progress {
            e is None
        } else {
            e == Some(TrayEffect::StartOpen { mode })
        },
        TrayAction::OpenReady { mode, vm_ip, password } => if mode == WindowMode::App
            && active_window {
            e == Some(TrayEffect::PresentWindow)
        } else {
            e matches Some(TrayEffect::OpenWindow { mode: m, vm_ip: ip, password: pw, options, close_action })
                && m == mode && ip == vm_ip && pw == password && spec_window_options(mode, s.display, options)
                && close_action == (if s.close_window == CloseWindowPolicy::KeepRunning {
                    RdpWindowCloseAction::CloseWindowOnly
                } else {
                    RdpWindowCloseAction::ManagedSave
                })
        },
        TrayAction::OpenFinished => e is None,
        TrayAction::WindowOpened => e is None,
        TrayAction::WindowClosed => match s.idle_timeout_secs {
            Some(t) => e == Some(
                TrayEffect::ScheduleIdleTimeout {
                    generation: next_generation(s.idle_generation),
                    after_secs: t,
                },
            ),
            None => e is None,
        },
        TrayAction::IdleTimeout { generation } => if generation != s.idle_generation
            || s.rdp_window_open {
            e is None
        } else {
            e == Some(TrayEffect::IdleManagedSave)
        },
        TrayAction::RepairKakao => e == Some(TrayEffect::StartRepair { target: RepairTarget::KakaoTalk }),
        TrayAction::RepairWallpaper => e == Some(TrayEffect::StartRepair { target: RepairTarget::Wallpaper }),
        TrayAction::Pause => e == Some(TrayEffect::StartPause),
        TrayAction::Shutdown => e == Some(TrayEffect::StartShutdown),
        TrayAction::ManagedSaveThenQuit => e == Some(TrayEffect::StartManagedSaveThenQuit),
        TrayAction::Notify { title, body } => e == Some(TrayEffect::ShowNotification { title, body }),
        TrayAction::Quit => e == Some(TrayEffect::QuitApp),
    }
}

impl TrayLoop {
    /// A loop with no open pending and no window, for the given lifecycle settings and display
    /// strategy.
    pub fn new(lifecycle: LifecycleConfig, display: DisplayStrategy) -> (r: Self)
        ensures
            r@ == (TrayLoopView {
                open_in_progress: false,
                idle_timeout_secs: idle_timeout_secs(lifecycle),
                idle_generation: 0,
                rdp_window_open: false,
                close_window: lifecycle.close_window,
                display,
            }),
    {
        TrayLoop {
            open_gate: TrayOpenGate::default(),
            idle_timeout_secs: lifecycle_idle_timeout(lifecycle),
            idle_generation: 0,
            rdp_window_open: false,
            close_window: lifecycle.close_window,
            display,
        }
    }

    /// Handles one action: updates the state and returns the work to carry out, if any.
    pub fn handle(&mut self, action: TrayAction, active_window: bool) -> (e: Option<TrayEffect>)
        ensures
            final(self)@ == tray_next_state(old(self)@, action, active_window),
            tray_effect(old(self)@, action, active_window, e),
    {
        match action {
            TrayAction::Open { mode } => {
                self.idle_generation = bump(self.idle_generation);
                if !self.open_gate.try_begin() {
                    return None;
                }
                Some(TrayEffect::StartOpen { mode })
            },
            TrayAction::OpenReady { mode, vm_ip, password } => {
                if mode == WindowMode::App && active_window {
                    self.open_gate.finish();
                    return Some(TrayEffect::PresentWindow);
                }
                let options = rdp_window_options(mode, self.display);
                let close_action = rdp_window_close_action(self.close_window);
                self.open_gate.finish();
                Some(TrayEffect::OpenWindow { mode, vm_ip, password, options, close_action })
            },
            TrayAction::OpenFinished => {
                self.open_gate.finish();
                None
            },
            TrayAction::WindowOpened => {
                self.rdp_window_open = true;
                self.idle_generation = bump(self.idle_generation);
                None
            },
            TrayAction::WindowClosed => {
                self.rdp_window_open = false;
                self.idle_generation = bump(self.idle_generation);
                match self.idle_timeout_secs {
                    Some(t) => Some(
                        TrayEffect::ScheduleIdleTimeout {
                            generation: self.idle_generation,
                            after_secs: t,
                        },
                    ),
                    None => None,
                }
            },
            TrayAction::IdleTimeout { generation } => {
                if generation != self.idle_generation || self.rdp_window_open {
                    return None;
                }
                Some(TrayEffect::IdleManagedSave)
            },
            TrayAction::RepairKakao => Some(TrayEffect::StartRepair { target: RepairTarget::KakaoTalk }),
            TrayAction::RepairWallpaper => Some(
                TrayEffect::StartRepair { target: RepairTarget::Wallpaper },
            ),
            TrayAction::Pause => Some(TrayEffect::StartPause),
            TrayAction::Shutdown => Some(TrayEffect::StartShutdown),
            TrayAction::ManagedSaveThenQuit => Some(TrayEffect::StartManagedSaveThenQuit),
            TrayAction::Notify { title, body } => Some(TrayEffect::ShowNotification { title, body }),
            TrayAction::Quit => Some(TrayEffect::QuitApp),
        }
    }
}

/// How waking the VM and waiting for RDP went, for an open request.
#[derive(Debug, Clone)]
pub enum OpenOutcome {
    /// The VM could not be woken; the message of the error.
    WakeFailed(String),
    /// RDP did not become ready; the message of the error.
    RdpNotReady(String),
    Ready,
}

/// The failure notification of an open request.
pub open spec fn open_failure_notification(err: Seq<char>, a: TrayAction) -> bool {
    a matches TrayAction::Notify { title, body } && title@ == "Open KakaoTalk failed"@ && body@
        == spec_action_body("Open KakaoTalk"@, Err(err))
}

/// The actions to send once an open request has woken the VM and waited for RDP: the window
/// opening on success; otherwise a failure notification and the end of the pending open.
pub fn open_outcome_actions(mode: WindowMode, outcome: OpenOutcome, vm_ip: String, password: String) -> (r: Vec<TrayAction>)
    ensures
        outcome is Ready ==> r@ == seq![TrayAction::OpenReady { mode, vm_ip, password }],
        outcome matches OpenOutcome::WakeFailed(err) ==> (r@.len() == 2 && open_failure_notification(err@, r@[0])
            && r@[1] is OpenFinished),
        outcome matches OpenOutcome::RdpNotReady(err) ==> (r@.len() == 2 && open_failure_notification(err@, r@[0])
            && r@[1] is OpenFinished),
{
    let mut actions = Vec::new();
    match outcome {
        OpenOutcome::Ready => {
            actions.push(TrayAction::OpenReady { mode, vm_ip, password });
        },
        OpenOutcome::WakeFailed(err) | OpenOutcome::RdpNotReady(err) => {
            actions.push(
                TrayAction::Notify {
                    title: owned("Open KakaoTalk failed"),
                    body: action_notification_body("Open KakaoTalk", Err(err.as_str())),
                },
            );
            actions.push(TrayAction::OpenFinished);
        },
    }
    actions
}

/// The action to send after trying to open the RDP window.
pub fn window_open_outcome(result: Result<(), String>) -> (r: TrayAction)
    ensures
        result is Ok ==> r is WindowOpened,
        result matches Err(err) ==> open_failure_notification(err@, r),
{
    match result {
        Ok(()) => TrayAction::WindowOpened,
        Err(err) => TrayAction::Notify {
            title: owned("Open KakaoTalk failed"),
            body: action_notification_body("Open KakaoTalk", Err(err.as_str())),
        },
    }
}

/// How a repair request went.
#[derive(Debug, Clone)]
pub enum RepairOutcome {
    /// The VM could not be woken first; the message of the error.
    WakeFailed(String),
    /// The repair ran; what it printed.
    Repaired(String),
    /// The repair failed; the message of the error.
    RepairFailed(String),
}

pub open spec fn repair_action_name(target: RepairTarget) -> Seq<char> {
    match target {
        RepairTarget::KakaoTalk => "KakaoTalk repair"@,
        RepairTarget::Wallpaper => "Wallpaper repair"@,
    }
}

pub open spec fn repair_success_title(target: RepairTarget) -> Seq<char> {
    match target {
        RepairTarget::KakaoTalk => "KakaoTalk repair requested"@,
        RepairTarget::Wallpaper => "Wallpaper repair completed"@,
    }
}

pub open spec fn repair_failure_title(target: RepairTarget) -> Seq<char> {
    match target {
        RepairTarget::KakaoTalk => "KakaoTalk repair failed"@,
        RepairTarget::Wallpaper => "Wallpaper repair failed"@,
    }
}

/// The notification reporting a repair request.
pub fn repair_outcome_action(target: RepairTarget, outcome: RepairOutcome) -> (r: TrayAction)
    ensures
        r matches TrayAction::Notify { title, body } && match outcome {
            RepairOutcome::Repaired(detail) => title@ == repair_success_title(target) && body@
                == spec_repair_body(repair_action_name(target), Ok(detail@)),
            RepairOutcome::WakeFailed(err) => title@ == repair_failure_title(target) && body@
                == spec_repair_body(repair_action_name(target), Err(err@)),
            RepairOutcome::RepairFailed(err) => title@ == repair_failure_title(target) && body@
                == spec_repair_body(repair_action_name(target), Err(err@)),
        },
{
    let action = match target {
        RepairTarget::KakaoTalk => "KakaoTalk repair",
        RepairTarget::Wallpaper => "Wallpaper repair",
    };
    match outcome {
        RepairOutcome::Repaired(detail) => {
            let title = match target {
                RepairTarget::KakaoTalk => "KakaoTalk repair requested",
                RepairTarget::Wallpaper => "Wallpaper repair completed",
            };
            TrayAction::Notify {
                title: owned(title),
                body: repair_notification_body(action, Ok(detail.as_str())),
            }
        },
        RepairOutcome::WakeFailed(err) | RepairOutcome::RepairFailed(err) => {
            let title = match target {
                RepairTarget::KakaoTalk => "KakaoTalk repair failed",
                RepairTarget::Wallpaper => "Wallpaper repair failed",
            };
            TrayAction::Notify {
                title: owned(title),
                body: repair_notification_body(action, Err(err.as_str())),
            }
        },
    }
}

/// The notification reporting a pause (managed save).
pub fn pause_outcome_action(result: Result<(), String>) -> (r: TrayAction)
    ensures
        r matches TrayAction::Notify { title, body } && match result {
            Ok(()) => title@ == "VM pause completed"@ && body@ == spec_action_body(
                "VM pause"@,
                Ok("managed-save done"@),
            ),
            Err(err) => title@ == "VM pause failed"@ && body@ == spec_action_body(
                "VM pause"@,
                Err(err@),
            ),
        },
{
    match result {
        Ok(()) => TrayAction::Notify {
            title: owned("VM pause completed"),
            body: action_notification_body("VM pause", Ok("managed-save done")),
        },
        Err(err) => TrayAction::Notify {
            title: owned("VM pause failed"),
            body: action_notification_body("VM pause", Err(err.as_str())),
        },
    }
}

/// Seconds a tray shutdown waits for the guest before forcing the VM off.
pub const TRAY_SHUTDOWN_TIMEOUT_SECS: u64 = 60;

/// The notification reporting a shutdown.
pub fn shutdown_outcome_action(result: Result<(), String>) -> (r: TrayAction)
    ensures
        r matches TrayAction::Notify { title, body } && match result {
            Ok(()) => title@ == "VM shutdown completed"@ && body@ == spec_action_body(
                "VM shutdown"@,
                Ok("guest stopped"@),
            ),
            Err(err) => title@ == "VM shutdown failed"@ && body@ == spec_action_body(
                "VM shutdown"@,
                Err(err@),
            ),
        },
{
    match result {
        Ok(()) => TrayAction::Notify {
            title: owned("VM shutdown completed"),
            body: action_notification_body("VM shutdown", Ok("guest stopped")),
        },
        Err(err) => TrayAction::Notify {
            title: owned("VM shutdown failed"),
            body: action_notification_body("VM shutdown", Err(err.as_str())),
        },
    }
}

/// While an open is pending, another open request starts nothing and the open stays pending.
pub proof fn pending_open_blocks_duplicates(s: TrayLoopView, mode: WindowMode, active_window: bool, e: Option<TrayEffect>)
    requires
        s.open_in_progress,
        tray_effect(s, TrayAction::Open { mode }, active_window, e),
    ensures
        e is None,
        tray_next_state(s, TrayAction::Open { mode }, active_window).open_in_progress,
{
}

/// Once the pending open has finished, the next open request starts.
pub proof fn finished_open_allows_next(s: TrayLoopView, mode: WindowMode, active_window: bool, e: Option<TrayEffect>)
    requires
        tray_effect(
            tray_next_state(s, TrayAction::OpenFinished, active_window),
            TrayAction::Open { mode },
            active_window,
            e,
        ),
    ensures
        e == Some(TrayEffect::StartOpen { mode }),
{
}

/// An idle timeout fires a managed save only for the latest window close, while no window is
/// open: any window event after the close makes it stale.
pub proof fn idle_timeout_acts_only_for_latest_close(
    s: TrayLoopView,
    later: TrayAction,
    active_window: bool,
    e: Option<TrayEffect>,
)
    requires
        s.idle_timeout_secs is Some,
        later is Open || later is WindowOpened || later is WindowClosed,
        next_generation(next_generation(s.idle_generation)) != s.idle_generation,
        tray_effect(
            tray_next_state(tray_next_state(s, TrayAction::WindowClosed, active_window), later, active_window),
            TrayAction::IdleTimeout { generation: next_generation(s.idle_generation) },
            active_window,
            e,
        ),
    ensures
        e is None,
{
}

/// Closing the window with an idle timeout configured schedules a timeout that, arriving with
/// no other window event in between, managed-saves the VM.
pub proof fn idle_timeout_after_close_saves(s: TrayLoopView, active_window: bool, e1: Option<TrayEffect>, e2: Option<TrayEffect>)
    requires
        s.idle_timeout_secs is Some,
        tray_effect(s, TrayAction::WindowClosed, active_window, e1),
        e1 matches Some(TrayEffect::ScheduleIdleTimeout { generation, .. }) && tray_effect(
            tray_next_state(s, TrayAction::WindowClosed, active_window),
            TrayAction::IdleTimeout { generation },
            active_window,
            e2,
        ),
    ensures
        e2 == Some(TrayEffect::IdleManagedSave),
{
}

/// Seconds `start` waits for the RDP port, and again for the RDP handshake.
pub const RDP_READY_TIMEOUT_SECS: u64 = 180;

/// Seconds between two readiness attempts.
pub const RDP_READY_POLL_INTERVAL_SECS: u64 = 2;

/// Seconds one RDP handshake attempt may take.
pub const RDP_HANDSHAKE_ATTEMPT_TIMEOUT_SECS: u64 = 15;

/// What one readiness attempt decided.
#[derive(Debug)]
pub enum ReadyStep {
    /// The operation succeeded.
    Ready,
    /// It failed before the deadline: try again after the interval.
    Retry,
    /// It failed after the deadline: give up with this error.
    GiveUp(WinbridgeError),
}

/// The error when an operation was still failing at its deadline.
pub open spec fn ready_timeout_message(label: Seq<char>, timeout_secs: u64, last_error: WinbridgeError) -> Seq<char> {
    label + " 준비 시간 초과 (timeout="@ + decimal(timeout_secs as nat) + "s, last_error="@
        + last_error.spec_message() + ")"@
}

/// One attempt of waiting for an operation to succeed: a success ends the wait; a failure is
/// retried until the deadline has passed, then reported as a handshake error naming the
/// operation, the timeout and the last failure.
pub fn ready_step(label: &str, timeout_secs: u64, attempt: Result<(), WinbridgeError>, deadline_passed: bool) -> (r: ReadyStep)
    ensures
        attempt is Ok ==> r is Ready,
        attempt is Err && !deadline_passed ==> r is Retry,
        deadline_passed ==> (attempt matches Err(e) ==> (r matches ReadyStep::GiveUp(
            WinbridgeError::Rdp(RdpError::Handshake(m)),
        ) && m@ == ready_timeout_message(label@, timeout_secs, e))),
{
    match attempt {
        Ok(()) => ReadyStep::Ready,
        Err(err) => {
            if !deadline_passed {
                return ReadyStep::Retry;
            }
            let mut m = owned(label);
            push_str(&mut m, " 준비 시간 초과 (timeout=");
            push_decimal(&mut m, timeout_secs);
            push_str(&mut m, "s, last_error=");
            push_str(&mut m, err.message().as_str());
            push_str(&mut m, ")");
            ReadyStep::GiveUp(WinbridgeError::Rdp(RdpError::Handshake(m)))
        },
    }
}

/// The failure of one attempt to connect to a TCP port.
pub fn tcp_connect_failed(err: &str) -> (r: WinbridgeError)
    ensures
        r matches WinbridgeError::Rdp(RdpError::Handshake(m)) && m@ == "TCP 연결 실패: "@ + err@,
{
    let mut m = owned("TCP 연결 실패: ");
    push_str(&mut m, err);
    WinbridgeError::Rdp(RdpError::Handshake(m))
}

/// The failure of a connection attempt that did not finish within the poll interval.
pub fn tcp_connect_timed_out() -> (r: WinbridgeError)
    ensures
        r matches WinbridgeError::Rdp(RdpError::Handshake(m)) && m@ == "TCP 연결 시도 시간 초과"@,
{
    WinbridgeError::Rdp(RdpError::Handshake(owned("TCP 연결 시도 시간 초과")))
}

/// The failure of an RDP handshake attempt that did not finish in time.
pub fn rdp_probe_timed_out(timeout_secs: u64) -> (r: WinbridgeError)
    ensures
        r matches WinbridgeError::Rdp(RdpError::Handshake(m)) && m@ == "RDP probe 시도 시간 초과 ("@
            + decimal(timeout_secs as nat) + "s)"@,
{
    let mut m = owned("RDP probe 시도 시간 초과 (");
    push_decimal(&mut m, timeout_secs);
    push_str(&mut m, "s)");
    WinbridgeError::Rdp(RdpError::Handshake(m))
}

/// The action after managed-saving the VM before quitting: quit, whether or not the save
/// succeeded (a failed save is only logged).
pub fn managed_save_then_quit_action(save: Result<(), WinbridgeError>) -> (r: TrayAction)
    ensures
        r is Quit,
{
    TrayAction::Quit
}

/// Quitting with a save first saves the VM, then quits: the save is started, and the `Quit`
/// sent after it (whatever the save gave) ends the application, in any state of the loop.
pub proof fn managed_save_then_quit_saves_before_quitting(
    s: TrayLoopView,
    active_window: bool,
    e1: Option<TrayEffect>,
    e2: Option<TrayEffect>,
)
    requires
        tray_effect(s, TrayAction::ManagedSaveThenQuit, active_window, e1),
        tray_effect(
            tray_next_state(s, TrayAction::ManagedSaveThenQuit, active_window),
            TrayAction::Quit,
            active_window,
            e2,
        ),
    ensures
        e1 == Some(TrayEffect::StartManagedSaveThenQuit),
        e2 == Some(TrayEffect::QuitApp),
        tray_next_state(tray_next_state(s, TrayAction::ManagedSaveThenQuit, active_window), TrayAction::Quit, active_window) == s,
{
}

/// A window opened for a ready VM closes as the close-window policy says: with the
/// `managed-save` policy closing it managed-saves the VM, with `keep-running` it only closes the
/// window.
pub proof fn opened_window_closes_by_the_configured_policy(
    s: TrayLoopView,
    mode: WindowMode,
    vm_ip: String,
    password: String,
    active_window: bool,
    e: Option<TrayEffect>,
)
    requires
        !(mode == WindowMode::App && active_window),
        tray_effect(s, TrayAction::OpenReady { mode, vm_ip, password }, active_window, e),
    ensures
        e matches Some(TrayEffect::OpenWindow { close_action, .. }) && (s.close_window
            == CloseWindowPolicy::ManagedSave ==> close_action == RdpWindowCloseAction::ManagedSave)
            && (s.close_window == CloseWindowPolicy::KeepRunning ==> close_action
            == RdpWindowCloseAction::CloseWindowOnly),
{
}

} // verus!
