//! The `doctor` report: checks, their formatting, the guest-side checks, and the order in which
//! the host, VM and RDP probes are run and reported.
use crate::text::{
    decimal, owned, push_decimal, push_str, slice_range, strip_bounds_ws,
    to_chars, trim, push_chars,
};
use crate::vm::{
    GuestDiagnostics, GuestDiskDiagnostics, GuestKakaoTalkDiagnostics, GuestServiceDiagnostics,
    GuestWallpaperDiagnostics, VmState,
};
use vstd::prelude::*;

verus! {

broadcast use vstd::string::group_string_axioms;

/// The port RDP listens on.
pub const RDP_PORT: u16 = 3389;

/// Seconds the TCP check waits for a connection.
pub const TCP_CHECK_TIMEOUT_SECS: u64 = 3;

/// Seconds the RDP handshake probe may take.
pub const RDP_PROBE_TIMEOUT_SECS: u64 = 8;

#[derive(Clone, Copy, Debug, PartialEq, Eq, Structural)]
pub enum DoctorStatus {
    Pass,
    Warn,
    Fail,
    Skip,
}

impl DoctorStatus {
    pub open spec fn spec_label(self) -> Seq<char> {
        match self {
            DoctorStatus::Pass => "OK"@,
            DoctorStatus::Warn => "WARN"@,
            DoctorStatus::Fail => "FAIL"@,
            DoctorStatus::Skip => "SKIP"@,
        }
    }

    /// The tag printed between brackets.
    pub fn label(self) -> (r: &'static str)
        ensures
            r@ == self.spec_label(),
    {
        match self {
            DoctorStatus::Pass => "OK",
            DoctorStatus::Warn => "WARN",
            DoctorStatus::Fail => "FAIL",
            DoctorStatus::Skip => "SKIP",
        }
    }
}

/// One line of the report.
#[derive(Clone, Debug, PartialEq, Eq)]
pub struct DoctorCheck {
    pub name: String,
    pub status: DoctorStatus,
    pub detail: String,
    pub next_action: Option<String>,
}

/// A check as text.
pub struct CheckView {
    pub status: DoctorStatus,
    pub name: Seq<char>,
    pub detail: Seq<char>,
    pub next_action: Option<Seq<char>>,
}

impl View for DoctorCheck {
    type V = CheckView;

    open spec fn view(&self) -> CheckView {
        CheckView {
            status: self.status,
            name: self.name@,
            detail: self.detail@,
            next_action: match self.next_action {
                Some(n) => Some(n@),
                None => None,
            },
        }
    }
}

/// A check without a next action.
pub open spec fn check(status: DoctorStatus, name: Seq<char>, detail: Seq<char>) -> CheckView {
    CheckView { status, name, detail, next_action: None }
}

/// A check with a next action.
pub open spec fn check_next(
    status: DoctorStatus,
    name: Seq<char>,
    detail: Seq<char>,
    next: Seq<char>,
) -> CheckView {
    CheckView { status, name, detail, next_action: Some(next) }
}

impl DoctorCheck {
    pub fn new(status: DoctorStatus, name: &str, detail: &str) -> (r: Self)
        ensures
            r@ == check(status, name@, detail@),
    {
        DoctorCheck { name: owned(name), status, detail: owned(detail), next_action: None }
    }

    pub fn with_next_action(self, next_action: &str) -> (r: Self)
        ensures
            r@ == check_next(self@.status, self@.name, self@.detail, next_action@),
    {
        let mut this = self;
        this.next_action = Some(owned(next_action));
        this
    }
}

/// The report: checks in the order they were made.
#[derive(Clone, Debug, PartialEq, Eq)]
pub struct DoctorReport {
    checks: Vec<DoctorCheck>,
}

impl View for DoctorReport {
    type V = Seq<CheckView>;

    closed spec fn view(&self) -> Seq<CheckView> {
        self.checks@.map_values(|c: DoctorCheck| c@)
    }
}

impl Default for DoctorReport {
    fn default() -> (r: Self)
        ensures
            r@ == Seq::<CheckView>::empty(),
    {
        DoctorReport { checks: Vec::new() }
    }
}

impl DoctorReport {
    /// Appends a check.
    pub fn push(&mut self, check: DoctorCheck)
        ensures
            final(self)@ == old(self)@.push(check@),
    {
        self.checks.push(check);
        assert(self@ =~= old(self)@.push(check@));
    }

    /// The checks, in the order they were pushed.
    pub fn checks(&self) -> (r: &[DoctorCheck])
        ensures
            r@.map_values(|c: DoctorCheck| c@) == self@,
            r@.len() == self@.len(),
    {
        self.checks.as_slice()
    }
}

/// Pushing checks keeps them in order: a report made by pushing `a` then `b` lists `a` before
/// `b`, after whatever it held.
pub proof fn report_keeps_push_order(before: Seq<CheckView>, a: CheckView, b: CheckView)
    ensures
        before.push(a).push(b)[before.len() as int] == a,
        before.push(a).push(b)[before.len() + 1 as int] == b,
        before.push(a).push(b).take(before.len() as int) == before,
{
    assert(before.push(a).push(b).take(before.len() as int) =~= before);
}

/// The text of one check in the report.
pub open spec fn check_text(c: CheckView) -> Seq<char> {
    "["@ + c.status.spec_label() + "] "@ + c.name + " - "@ + c.detail + "\n"@ + match c.next_action {
        Some(n) => "      next: "@ + n + "\n"@,
        None => Seq::empty(),
    }
}

/// The text of a sequence of checks.
pub open spec fn checks_text(cs: Seq<CheckView>) -> Seq<char>
    decreases cs.len(),
{
    if cs.len() == 0 {
        Seq::empty()
    } else {
        checks_text(cs.drop_last()) + check_text(cs.last())
    }
}

/// The text of the whole report.
pub open spec fn report_text(cs: Seq<CheckView>) -> Seq<char> {
    "winbridge doctor\n"@ + checks_text(cs)
}

fn write_check(out: &mut String, c: &DoctorCheck)
    ensures
        final(out)@ == old(out)@ + check_text(c@),
{
    push_str(out, "[");
    push_str(out, c.status.label());
    push_str(out, "] ");
    push_str(out, c.name.as_str());
    push_str(out, " - ");
    push_str(out, c.detail.as_str());
    push_str(out, "\n");
    match &c.next_action {
        Some(n) => {
            push_str(out, "      next: ");
            push_str(out, n.as_str());
            push_str(out, "\n");
        },
        None => {},
    }
}

/// The report as printed by `winbridge doctor`.
pub fn format_report(report: &DoctorReport) -> (r: String)
    ensures
        r@ == report_text(report@),
{
    let mut out = String::new();
    push_str(&mut out, "winbridge doctor\n");
    let checks = report.checks();
    let ghost cs = report@;
    for i in 0..checks.len()
        invariant
            checks@.map_values(|c: DoctorCheck| c@) == cs,
            checks@.len() == cs.len(),
            out@ == "winbridge doctor\n"@ + checks_text(cs.take(i as int)),
    {
        write_check(&mut out, &checks[i]);
        proof {
            assert(cs.take(i + 1).drop_last() == cs.take(i as int));
            assert(cs[i as int] == checks@[i as int]@);
        }
    }
    assert(cs.take(checks.len() as int) == cs);
    out
}

/// The check that points to the guest-side checks that only run inside Windows.
pub open spec fn guest_manual_check() -> CheckView {
    check_next(
        DoctorStatus::Warn,
        "guest checks"@,
        "visible RDP user checks require running scripts/windows/diagnose-winbridge.ps1 inside Windows"@,
        "wallpaper: C:\\winbridge\\repair-wallpaper.ps1; KakaoTalk: C:\\winbridge\\position-kakaotalk.ps1 -Restart"@,
    )
}

pub fn add_guest_manual_check(report: &mut DoctorReport)
    ensures
        final(report)@ == old(report)@.push(guest_manual_check()),
{
    report.push(
        DoctorCheck::new(
            DoctorStatus::Warn,
            "guest checks",
            "visible RDP user checks require running scripts/windows/diagnose-winbridge.ps1 inside Windows",
        ).with_next_action(
            "wallpaper: C:\\winbridge\\repair-wallpaper.ps1; KakaoTalk: C:\\winbridge\\position-kakaotalk.ps1 -Restart",
        ),
    );
}

/// The wallpaper check for what the guest reported.
pub open spec fn wallpaper_check(w: GuestWallpaperDiagnostics) -> CheckView {
    let path = trim(w.path@);
    let name = "guest service-session wallpaper"@;
    if path.len() == 0 {
        check_next(
            DoctorStatus::Warn,
            name,
            "no wallpaper path configured in qemu-ga service session; visible RDP wallpaper may differ"@,
            "if visible RDP wallpaper is broken, run winbridge repair-wallpaper"@,
        )
    } else if w.source_reachable {
        check(DoctorStatus::Pass, name, "source reachable in qemu-ga service session: "@ + path)
    } else if w.theme_cache_reachable {
        check_next(
            DoctorStatus::Warn,
            name,
            "source missing in qemu-ga service session but theme cache exists ("@ + decimal(
                w.theme_cache_bytes as nat,
            ) + " bytes): "@ + path,
            "if visible RDP wallpaper is broken, run winbridge repair-wallpaper"@,
        )
    } else {
        check_next(
            DoctorStatus::Fail,
            name,
            "source missing and theme cache unavailable in qemu-ga service session: "@ + path,
            "run winbridge repair-wallpaper or set the wallpaper again manually"@,
        )
    }
}

/// The trimmed form of a string.
fn trimmed(s: &str) -> (r: String)
    ensures
        r@ == trim(s@),
{
    let cs = to_chars(s);
    let (lo, hi) = strip_bounds_ws(cs.as_slice(), 0, cs.len());
    assert(cs@.subrange(0, cs@.len() as int) == cs@);
    let mut out = String::new();
    push_chars(&mut out, slice_range(cs.as_slice(), lo, hi));
    out
}

pub fn add_wallpaper_check(report: &mut DoctorReport, wallpaper: &GuestWallpaperDiagnostics)
    ensures
        final(report)@ == old(report)@.push(wallpaper_check(*wallpaper)),
{
    let path = trimmed(wallpaper.path.as_str());
    let name = "guest service-session wallpaper";
    if path.as_str().is_empty() {
        report.push(
            DoctorCheck::new(
                DoctorStatus::Warn,
                name,
                "no wallpaper path configured in qemu-ga service session; visible RDP wallpaper may differ",
            ).with_next_action("if visible RDP wallpaper is broken, run winbridge repair-wallpaper"),
        );
    } else if wallpaper.source_reachable {
        let mut detail = owned("source reachable in qemu-ga service session: ");
        push_str(&mut detail, path.as_str());
        report.push(DoctorCheck::new(DoctorStatus::Pass, name, detail.as_str()));
    } else if wallpaper.theme_cache_reachable {
        let mut detail = owned("source missing in qemu-ga service session but theme cache exists (");
        push_decimal(&mut detail, wallpaper.theme_cache_bytes);
        push_str(&mut detail, " bytes): ");
        push_str(&mut detail, path.as_str());
        report.push(
            DoctorCheck::new(DoctorStatus::Warn, name, detail.as_str()).with_next_action(
                "if visible RDP wallpaper is broken, run winbridge repair-wallpaper",
            ),
        );
    } else {
        let mut detail = owned(
            "source missing and theme cache unavailable in qemu-ga service session: ",
        );
        push_str(&mut detail, path.as_str());
        report.push(
            DoctorCheck::new(DoctorStatus::Fail, name, detail.as_str()).with_next_action(
                "run winbridge repair-wallpaper or set the wallpaper again manually",
            ),
        );
    }
}

/// The KakaoTalk check for what the guest reported.
pub open spec fn kakaotalk_check(k: GuestKakaoTalkDiagnostics) -> CheckView {
    let name = "guest service-session kakaotalk"@;
    if k.has_main_window {
        check(
            DoctorStatus::Pass,
            name,
            decimal(k.process_count as nat)
                + " process(es), main window visible to qemu-ga service session"@,
        )
    } else if k.process_count > 0 {
        check_next(
            DoctorStatus::Warn,
            name,
            decimal(k.process_count as nat)
                + " process(es), no main window visible to qemu-ga service session"@,
            "if tray Open KakaoTalk does not show the visible window, run winbridge repair-kakao"@,
        )
    } else {
        check_next(
            DoctorStatus::Warn,
            name,
            "process not visible to qemu-ga service session"@,
            "open KakaoTalk from tray first; if the visible window is broken, run winbridge repair-kakao"@,
        )
    }
}

pub fn add_kakaotalk_check(report: &mut DoctorReport, kakao: &GuestKakaoTalkDiagnostics)
    ensures
        final(report)@ == old(report)@.push(kakaotalk_check(*kakao)),
{
    let name = "guest service-session kakaotalk";
    if kakao.has_main_window {
        let mut detail = String::new();
        push_decimal(&mut detail, kakao.process_count as u64);
        push_str(&mut detail, " process(es), main window visible to qemu-ga service session");
        report.push(DoctorCheck::new(DoctorStatus::Pass, name, detail.as_str()));
    } else if kakao.process_count > 0 {
        let mut detail = String::new();
        push_decimal(&mut detail, kakao.process_count as u64);
        push_str(&mut detail, " process(es), no main window visible to qemu-ga service session");
        report.push(
            DoctorCheck::new(DoctorStatus::Warn, name, detail.as_str()).with_next_action(
                "if tray Open KakaoTalk does not show the visible window, run winbridge repair-kakao",
            ),
        );
    } else {
        report.push(
            DoctorCheck::new(
                DoctorStatus::Warn,
                name,
                "process not visible to qemu-ga service session",
            ).with_next_action(
                "open KakaoTalk from tray first; if the visible window is broken, run winbridge repair-kakao",
            ),
        );
    }
}

/// ASCII lower-casing of one character.
pub open spec fn ascii_lower(c: char) -> char {
    if 'A' <= c && c <= 'Z' {
        ((c as u32) + 32) as char
    } else {
        c
    }
}

/// `str::eq_ignore_ascii_case`.
pub open spec fn eq_ignore_ascii_case(a: Seq<char>, b: Seq<char>) -> bool {
    a.len() == b.len() && forall|i: int| 0 <= i < a.len() ==> ascii_lower(a[i]) == ascii_lower(b[i])
}

fn lower(c: char) -> (r: char)
    ensures
        r == ascii_lower(c),
{
    if 'A' <= c && c <= 'Z' {
        let code: u8 = (c as u8) + 32;
        code as char
    } else {
        c
    }
}

fn chars_eq_ignore_ascii_case(a: &[char], b: &[char]) -> (r: bool)
    ensures
        r == eq_ignore_ascii_case(a@, b@),
{
    if a.len() != b.len() {
        return false;
    }
    for i in 0..a.len()
        invariant
            a.len() == b.len(),
            forall|j: int| 0 <= j < i ==> ascii_lower(a@[j]) == ascii_lower(b@[j]),
    {
        if lower(a[i]) != lower(b[i]) {
            return false;
        }
    }
    true
}

/// The Themes service check for what the guest reported.
pub open spec fn themes_check(t: GuestServiceDiagnostics) -> CheckView {
    let status = trim(t.status@);
    let name = "guest service-session themes"@;
    if eq_ignore_ascii_case(status, "Running"@) {
        check(DoctorStatus::Pass, name, "Themes service running"@)
    } else {
        check_next(
            DoctorStatus::Warn,
            name,
            "Themes service is "@ + status,
            "start the Windows Themes service"@,
        )
    }
}

pub fn add_themes_check(report: &mut DoctorReport, themes: &GuestServiceDiagnostics)
    ensures
        final(report)@ == old(report)@.push(themes_check(*themes)),
{
    let status = trimmed(themes.status.as_str());
    let name = "guest service-session themes";
    let status_chars = to_chars(status.as_str());
    let running = to_chars("Running");
    if chars_eq_ignore_ascii_case(status_chars.as_slice(), running.as_slice()) {
        report.push(DoctorCheck::new(DoctorStatus::Pass, name, "Themes service running"));
    } else {
        let mut detail = owned("Themes service is ");
        push_str(&mut detail, status.as_str());
        report.push(
            DoctorCheck::new(DoctorStatus::Warn, name, detail.as_str()).with_next_action(
                "start the Windows Themes service",
            ),
        );
    }
}

/// The bit pattern of the double 5.0.
pub const FIVE_GIB_BITS: u64 = 0x4014_0000_0000_0000;

/// The bit pattern of positive infinity.
pub const POSITIVE_INFINITY_BITS: u64 = 0x7ff0_0000_0000_0000;

/// Whether the double with bit pattern `bits` is at least 5.0. Doubles with the sign bit clear
/// order as their bit patterns do, NaNs lie above infinity, and negative values have the top bit
/// set; so the comparison holds exactly for the patterns from 5.0 up to positive infinity.
pub open spec fn at_least_five_gib(bits: u64) -> bool {
    FIVE_GIB_BITS <= bits <= POSITIVE_INFINITY_BITS
}

/// The disk check: at least 5 GiB free on `C:` is fine.
pub open spec fn disk_check(d: GuestDiskDiagnostics) -> CheckView {
    let name = "guest service-session disk"@;
    if at_least_five_gib(d.free_gb_bits) {
        check(DoctorStatus::Pass, name, "C: free space "@ + d.free_gb_text@ + " GiB"@)
    } else {
        check_next(
            DoctorStatus::Warn,
            name,
            "C: low free space "@ + d.free_gb_text@ + " GiB"@,
            "free Windows disk space before updates or VM snapshots"@,
        )
    }
}

pub fn add_disk_check(report: &mut DoctorReport, disk: &GuestDiskDiagnostics)
    ensures
        final(report)@ == old(report)@.push(disk_check(*disk)),
{
    let name = "guest service-session disk";
    if FIVE_GIB_BITS <= disk.free_gb_bits && disk.free_gb_bits <= POSITIVE_INFINITY_BITS {
        let mut detail = owned("C: free space ");
        push_str(&mut detail, disk.free_gb_text.as_str());
        push_str(&mut detail, " GiB");
        report.push(DoctorCheck::new(DoctorStatus::Pass, name, detail.as_str()));
    } else {
        let mut detail = owned("C: low free space ");
        push_str(&mut detail, disk.free_gb_text.as_str());
        push_str(&mut detail, " GiB");
        report.push(
            DoctorCheck::new(DoctorStatus::Warn, name, detail.as_str()).with_next_action(
                "free Windows disk space before updates or VM snapshots",
            ),
        );
    }
}

/// The four guest-side checks, in report order.
pub open spec fn guest_diagnostic_checks(d: GuestDiagnostics) -> Seq<CheckView> {
    seq![
        wallpaper_check(d.wallpaper),
        kakaotalk_check(d.kakaotalk),
        themes_check(d.themes),
        disk_check(d.disk),
    ]
}

pub fn add_guest_diagnostic_checks(report: &mut DoctorReport, diagnostics: &GuestDiagnostics)
    ensures
        final(report)@ == old(report)@ + guest_diagnostic_checks(*diagnostics),
{
    add_wallpaper_check(report, &diagnostics.wallpaper);
    add_kakaotalk_check(report, &diagnostics.kakaotalk);
    add_themes_check(report, &diagnostics.themes);
    add_disk_check(report, &diagnostics.disk);
    assert(report@ =~= old(report)@ + guest_diagnostic_checks(*diagnostics));
}

/// The probe that the diagnosis waits for.
#[derive(Clone, Copy, Debug, PartialEq, Eq, Structural)]
pub enum DiagnoseStage {
    LoadConfig,
    OpenLibvirt,
    QueryVmState,
    PingGuestAgent,
    CollectGuestDiagnostics,
    CheckRdpTcp,
    CheckRdpHandshake,
    Done,
}

/// What a TCP connection attempt to the RDP port gave.
#[derive(Debug, Clone)]
pub enum TcpProbe {
    Connected,
    /// The connection failed with this message.
    Failed(String),
    /// No connection within the check's timeout.
    TimedOut,
}

/// What the RDP login probe gave.
#[derive(Debug, Clone)]
pub enum HandshakeProbe {
    LoggedIn { width: u16, height: u16, bits_per_pixel: u8 },
    /// The probe failed with this message.
    Failed(String),
    /// The probe did not finish within its timeout.
    TimedOut,
}

/// The outcome of one probe.
#[derive(Debug, Clone)]
pub enum DiagnoseEvent {
    ConfigLoaded { credentials_path: String, libvirt_uri: String, vm_name: String, vm_ip: String },
    ConfigFailed(String),
    LibvirtOpened,
    LibvirtFailed(String),
    VmStateRead(VmState),
    VmStateFailed(String),
    GuestPingSucceeded,
    GuestPingFailed(String),
    GuestDiagnosticsRead(GuestDiagnostics),
    GuestDiagnosticsFailed(String),
    RdpTcp(TcpProbe),
    RdpHandshake(HandshakeProbe),
}

/// A `doctor` run in progress: the report so far and the next probe to run.
#[derive(Debug, Clone)]
pub struct Diagnosis {
    report: DoctorReport,
    stage: DiagnoseStage,
    libvirt_uri: String,
    vm_name: String,
    vm_ip: String,
    guest_checks_complete: bool,
}

/// A diagnosis as values.
pub struct DiagnosisView {
    pub checks: Seq<CheckView>,
    pub stage: DiagnoseStage,
    pub libvirt_uri: Seq<char>,
    pub vm_name: Seq<char>,
    pub vm_ip: Seq<char>,
    pub guest_checks_complete: bool,
}

impl View for Diagnosis {
    type V = DiagnosisView;

    closed spec fn view(&self) -> DiagnosisView {
        DiagnosisView {
            checks: self.report@,
            stage: self.stage,
            libvirt_uri: self.libvirt_uri@,
            vm_name: self.vm_name@,
            vm_ip: self.vm_ip@,
            guest_checks_complete: self.guest_checks_complete,
        }
    }
}

/// `host:3389`.
pub open spec fn rdp_address(ip: Seq<char>) -> Seq<char> {
    ip + ":"@ + decimal(RDP_PORT as nat)
}

/// The detail of a failed TCP check.
pub open spec fn tcp_failure_detail(ip: Seq<char>, probe: TcpProbe) -> Seq<char> {
    match probe {
        TcpProbe::Failed(err) => rdp_address(ip) + " connect failed: "@ + err@,
        _ => rdp_address(ip) + " connect timed out after "@ + decimal(TCP_CHECK_TIMEOUT_SECS as nat)
            + "s"@,
    }
}

/// The check reporting the RDP handshake probe.
pub open spec fn handshake_check(probe: HandshakeProbe) -> CheckView {
    let name = "rdp handshake"@;
    let next = "check Administrator password and Windows RDP login state"@;
    match probe {
        HandshakeProbe::LoggedIn { width, height, bits_per_pixel } => check(
            DoctorStatus::Pass,
            name,
            "login ok, desktop="@ + decimal(width as nat) + "x"@ + decimal(height as nat) + "x"@
                + decimal(bits_per_pixel as nat),
        ),
        HandshakeProbe::Failed(err) => check_next(DoctorStatus::Fail, name, err@, next),
        HandshakeProbe::TimedOut => check_next(
            DoctorStatus::Fail,
            name,
            "probe timed out after "@ + decimal(RDP_PROBE_TIMEOUT_SECS as nat) + "s"@,
            next,
        ),
    }
}

/// The manual guest check, unless the guest-side checks already ran.
pub open spec fn manual_unless_complete(complete: bool) -> Seq<CheckView> {
    if complete {
        Seq::empty()
    } else {
        seq![guest_manual_check()]
    }
}

/// How one probe outcome moves a diagnosis on: the checks it adds and the next stage. An
/// outcome that does not belong to the current stage changes nothing.
pub open spec fn diagnose_step(d: DiagnosisView, e: DiagnoseEvent) -> DiagnosisView {
    match (d.stage, e) {
        (
            DiagnoseStage::LoadConfig,
            DiagnoseEvent::ConfigLoaded { credentials_path, libvirt_uri, vm_name, vm_ip },
        ) => DiagnosisView {
            checks: d.checks.push(
                check(DoctorStatus::Pass, "credentials"@, credentials_path@ + " loaded"@),
            ),
            stage: DiagnoseStage::OpenLibvirt,
            libvirt_uri: libvirt_uri@,
            vm_name: vm_name@,
            vm_ip: vm_ip@,
            ..d
        },
        (DiagnoseStage::LoadConfig, DiagnoseEvent::ConfigFailed(err)) => DiagnosisView {
            checks: d.checks + seq![
                check_next(
                    DoctorStatus::Fail,
                    "credentials"@,
                    err@,
                    "run ./install.sh or create ~/.config/winbridge/credentials"@,
                ),
                check(DoctorStatus::Skip, "vm"@, "credentials unavailable"@),
                check(DoctorStatus::Skip, "rdp"@, "credentials unavailable"@),
                guest_manual_check(),
            ],
            stage: DiagnoseStage::Done,
            ..d
        },
        (DiagnoseStage::OpenLibvirt, DiagnoseEvent::LibvirtOpened) => DiagnosisView {
            checks: d.checks.push(
                check(DoctorStatus::Pass, "libvirt"@, "connected to "@ + d.libvirt_uri),
            ),
            stage: DiagnoseStage::QueryVmState,
            ..d
        },
        (DiagnoseStage::OpenLibvirt, DiagnoseEvent::LibvirtFailed(err)) => DiagnosisView {
            checks: d.checks + seq![
                check_next(
                    DoctorStatus::Fail,
                    "libvirt"@,
                    err@,
                    "check libvirt service and user group membership"@,
                ),
                check(DoctorStatus::Skip, "vm"@, "libvirt unavailable"@),
                check(DoctorStatus::Skip, "rdp"@, "libvirt unavailable"@),
                guest_manual_check(),
            ],
            stage: DiagnoseStage::Done,
            ..d
        },
        (DiagnoseStage::QueryVmState, DiagnoseEvent::VmStateRead(state)) => {
            let state_check = check(
                if state == VmState::Active {
                    DoctorStatus::Pass
                } else {
                    DoctorStatus::Warn
                },
                "vm state"@,
                d.vm_name + " is "@ + state.spec_name(),
            );
            if state == VmState::Active {
                DiagnosisView {
                    checks: d.checks.push(state_check),
                    stage: DiagnoseStage::PingGuestAgent,
                    ..d
                }
            } else {
                DiagnosisView {
                    checks: d.checks.push(state_check).push(
                        check_next(
                            DoctorStatus::Skip,
                            "qemu guest agent"@,
                            "VM is not active; guest service-session checks skipped"@,
                            "start or resume the VM before running guest diagnostics"@,
                        ),
                    ),
                    stage: DiagnoseStage::CheckRdpTcp,
                    ..d
                }
            }
        },
        (DiagnoseStage::QueryVmState, DiagnoseEvent::VmStateFailed(err)) => DiagnosisView {
            checks: d.checks + seq![
                check_next(
                    DoctorStatus::Fail,
                    "vm state"@,
                    err@,
                    "verify WINBRIDGE_VM_NAME and virsh list --all"@,
                ),
                check(DoctorStatus::Skip, "rdp"@, "VM state unavailable"@),
                guest_manual_check(),
            ],
            stage: DiagnoseStage::Done,
            ..d
        },
        (DiagnoseStage::PingGuestAgent, DiagnoseEvent::GuestPingSucceeded) => DiagnosisView {
            checks: d.checks.push(
                check(
                    DoctorStatus::Pass,
                    "qemu guest agent"@,
                    "guest-ping succeeded; guest checks run in the qemu-ga service session"@,
                ),
            ),
            stage: DiagnoseStage::CollectGuestDiagnostics,
            ..d
        },
        (DiagnoseStage::PingGuestAgent, DiagnoseEvent::GuestPingFailed(err)) => DiagnosisView {
            checks: d.checks.push(
                check_next(
                    DoctorStatus::Warn,
                    "qemu guest agent"@,
                    err@,
                    "install virtio-win guest tools and restart the VM"@,
                ),
            ),
            stage: DiagnoseStage::CheckRdpTcp,
            ..d
        },
        (
            DiagnoseStage::CollectGuestDiagnostics,
            DiagnoseEvent::GuestDiagnosticsRead(diagnostics),
        ) => DiagnosisView {
            checks: d.checks + guest_diagnostic_checks(diagnostics),
            stage: DiagnoseStage::CheckRdpTcp,
            guest_checks_complete: true,
            ..d
        },
        (DiagnoseStage::CollectGuestDiagnostics, DiagnoseEvent::GuestDiagnosticsFailed(err)) => {
            DiagnosisView {
                checks: d.checks.push(
                    check_next(
                        DoctorStatus::Warn,
                        "guest checks"@,
                        err@,
                        "run scripts/windows/diagnose-winbridge.ps1 inside Windows"@,
                    ),
                ),
                stage: DiagnoseStage::CheckRdpTcp,
                ..d
            }
        },
        (DiagnoseStage::CheckRdpTcp, DiagnoseEvent::RdpTcp(probe)) => match probe {
            TcpProbe::Connected => DiagnosisView {
                checks: d.checks.push(
                    check(DoctorStatus::Pass, "rdp tcp"@, rdp_address(d.vm_ip) + " reachable"@),
                ),
                stage: DiagnoseStage::CheckRdpHandshake,
                ..d
            },
            _ => DiagnosisView {
                checks: d.checks + seq![
                    check_next(
                        DoctorStatus::Fail,
                        "rdp tcp"@,
                        tcp_failure_detail(d.vm_ip, probe),
                        "start the VM and verify Windows Remote Desktop is enabled"@,
                    ),
                    check(DoctorStatus::Skip, "rdp handshake"@, "TCP unavailable"@),
                ] + manual_unless_complete(d.guest_checks_complete),
                stage: DiagnoseStage::Done,
                ..d
            },
        },
        (DiagnoseStage::CheckRdpHandshake, DiagnoseEvent::RdpHandshake(probe)) => DiagnosisView {
            checks: d.checks.push(handshake_check(probe)) + manual_unless_complete(
                d.guest_checks_complete,
            ),
            stage: DiagnoseStage::Done,
            ..d
        },
        _ => d,
    }
}

impl Diagnosis {
    /// A diagnosis that has not run any probe.
    pub fn new() -> (r: Self)
        ensures
            r@.checks == Seq::<CheckView>::empty(),
            r@.stage == DiagnoseStage::LoadConfig,
            r@.libvirt_uri == Seq::<char>::empty(),
            r@.vm_name == Seq::<char>::empty(),
            r@.vm_ip == Seq::<char>::empty(),
            !r@.guest_checks_complete,
    {
        Diagnosis {
            report: DoctorReport::default(),
            stage: DiagnoseStage::LoadConfig,
            libvirt_uri: String::new(),
            vm_name: String::new(),
            vm_ip: String::new(),
            guest_checks_complete: false,
        }
    }

    /// The probe to run next; `Done` when the report is complete.
    pub fn next_probe(&self) -> (r: DiagnoseStage)
        ensures
            r == self@.stage,
    {
        self.stage
    }

    /// The report so far.
    pub fn report(&self) -> (r: &DoctorReport)
        ensures
            r@ == self@.checks,
    {
        &self.report
    }

    /// Records the outcome of a probe.
    pub fn record(&mut self, event: DiagnoseEvent)
        ensures
            final(self)@ == diagnose_step(old(self)@, event),
    {
        let ghost d = old(self)@;
        match (self.stage, event) {
            (
                DiagnoseStage::LoadConfig,
                DiagnoseEvent::ConfigLoaded { credentials_path, libvirt_uri, vm_name, vm_ip },
            ) => {
                let mut detail = credentials_path;
                push_str(&mut detail, " loaded");
                self.report.push(DoctorCheck::new(DoctorStatus::Pass, "credentials", detail.as_str()));
                self.stage = DiagnoseStage::OpenLibvirt;
                self.libvirt_uri = libvirt_uri;
                self.vm_name = vm_name;
                self.vm_ip = vm_ip;
            },
            (DiagnoseStage::LoadConfig, DiagnoseEvent::ConfigFailed(err)) => {
                self.report.push(
                    DoctorCheck::new(DoctorStatus::Fail, "credentials", err.as_str()).with_next_action(
                        "run ./install.sh or create ~/.config/winbridge/credentials",
                    ),
                );
                self.report.push(DoctorCheck::new(DoctorStatus::Skip, "vm", "credentials unavailable"));
                self.report.push(DoctorCheck::new(DoctorStatus::Skip, "rdp", "credentials unavailable"));
                add_guest_manual_check(&mut self.report);
                self.stage = DiagnoseStage::Done;
                assert(self@.checks =~= diagnose_step(d, DiagnoseEvent::ConfigFailed(err)).checks);
            },
            (DiagnoseStage::OpenLibvirt, DiagnoseEvent::LibvirtOpened) => {
                let mut detail = owned("connected to ");
                push_str(&mut detail, self.libvirt_uri.as_str());
                self.report.push(DoctorCheck::new(DoctorStatus::Pass, "libvirt", detail.as_str()));
                self.stage = DiagnoseStage::QueryVmState;
            },
            (DiagnoseStage::OpenLibvirt, DiagnoseEvent::LibvirtFailed(err)) => {
                self.report.push(
                    DoctorCheck::new(DoctorStatus::Fail, "libvirt", err.as_str()).with_next_action(
                        "check libvirt service and user group membership",
                    ),
                );
                self.report.push(DoctorCheck::new(DoctorStatus::Skip, "vm", "libvirt unavailable"));
                self.report.push(DoctorCheck::new(DoctorStatus::Skip, "rdp", "libvirt unavailable"));
                add_guest_manual_check(&mut self.report);
                self.stage = DiagnoseStage::Done;
                assert(self@.checks =~= diagnose_step(d, DiagnoseEvent::LibvirtFailed(err)).checks);
            },
            (DiagnoseStage::QueryVmState, DiagnoseEvent::VmStateRead(state)) => {
                let status = if state.is_active() {
                    DoctorStatus::Pass
                } else {
                    DoctorStatus::Warn
                };
                let mut detail = String::new();
                push_str(&mut detail, self.vm_name.as_str());
                push_str(&mut detail, " is ");
                push_str(&mut detail, state.name());
                self.report.push(DoctorCheck::new(status, "vm state", detail.as_str()));
                if state.is_active() {
                    self.stage = DiagnoseStage::PingGuestAgent;
                } else {
                    self.report.push(
                        DoctorCheck::new(
                            DoctorStatus::Skip,
                            "qemu guest agent",
                            "VM is not active; guest service-session checks skipped",
                        ).with_next_action("start or resume the VM before running guest diagnostics"),
                    );
                    self.stage = DiagnoseStage::CheckRdpTcp;
                }
            },
            (DiagnoseStage::QueryVmState, DiagnoseEvent::VmStateFailed(err)) => {
                self.report.push(
                    DoctorCheck::new(DoctorStatus::Fail, "vm state", err.as_str()).with_next_action(
                        "verify WINBRIDGE_VM_NAME and virsh list --all",
                    ),
                );
                self.report.push(DoctorCheck::new(DoctorStatus::Skip, "rdp", "VM state unavailable"));
                add_guest_manual_check(&mut self.report);
                self.stage = DiagnoseStage::Done;
                assert(self@.checks =~= diagnose_step(d, DiagnoseEvent::VmStateFailed(err)).checks);
            },
            (DiagnoseStage::PingGuestAgent, DiagnoseEvent::GuestPingSucceeded) => {
                self.report.push(
                    DoctorCheck::new(
                        DoctorStatus::Pass,
                        "qemu guest agent",
                        "guest-ping succeeded; guest checks run in the qemu-ga service session",
                    ),
                );
                self.stage = DiagnoseStage::CollectGuestDiagnostics;
            },
            (DiagnoseStage::PingGuestAgent, DiagnoseEvent::GuestPingFailed(err)) => {
                self.report.push(
                    DoctorCheck::new(DoctorStatus::Warn, "qemu guest agent", err.as_str()).with_next_action(
                        "install virtio-win guest tools and restart the VM",
                    ),
                );
                self.stage = DiagnoseStage::CheckRdpTcp;
            },
            (
                DiagnoseStage::CollectGuestDiagnostics,
                DiagnoseEvent::GuestDiagnosticsRead(diagnostics),
            ) => {
                add_guest_diagnostic_checks(&mut self.report, &diagnostics);
                self.guest_checks_complete = true;
                self.stage = DiagnoseStage::CheckRdpTcp;
            },
            (DiagnoseStage::CollectGuestDiagnostics, DiagnoseEvent::GuestDiagnosticsFailed(err)) => {
                self.report.push(
                    DoctorCheck::new(DoctorStatus::Warn, "guest checks", err.as_str()).with_next_action(
                        "run scripts/windows/diagnose-winbridge.ps1 inside Windows",
                    ),
                );
                self.stage = DiagnoseStage::CheckRdpTcp;
            },
            (DiagnoseStage::CheckRdpTcp, DiagnoseEvent::RdpTcp(probe)) => {
                let mut address = String::new();
                push_str(&mut address, self.vm_ip.as_str());
                push_str(&mut address, ":");
                push_decimal(&mut address, RDP_PORT as u64);
                match probe {
                    TcpProbe::Connected => {
                        push_str(&mut address, " reachable");
                        self.report.push(DoctorCheck::new(DoctorStatus::Pass, "rdp tcp", address.as_str()));
                        self.stage = DiagnoseStage::CheckRdpHandshake;
                    },
                    TcpProbe::Failed(err) => {
                        push_str(&mut address, " connect failed: ");
                        push_str(&mut address, err.as_str());
                        self.fail_rdp_tcp(address);
                        assert(self@.checks =~= diagnose_step(d, DiagnoseEvent::RdpTcp(TcpProbe::Failed(err))).checks);
                    },
                    TcpProbe::TimedOut => {
                        push_str(&mut address, " connect timed out after ");
                        push_decimal(&mut address, TCP_CHECK_TIMEOUT_SECS);
                        push_str(&mut address, "s");
                        self.fail_rdp_tcp(address);
                        assert(self@.checks =~= diagnose_step(d, DiagnoseEvent::RdpTcp(TcpProbe::TimedOut)).checks);
                    },
                }
            },
            (DiagnoseStage::CheckRdpHandshake, DiagnoseEvent::RdpHandshake(probe)) => {
                let ghost p = probe;
                let next = "check Administrator password and Windows RDP login state";
                match probe {
                    HandshakeProbe::LoggedIn { width, height, bits_per_pixel } => {
                        let mut detail = owned("login ok, desktop=");
                        push_decimal(&mut detail, width as u64);
                        push_str(&mut detail, "x");
                        push_decimal(&mut detail, height as u64);
                        push_str(&mut detail, "x");
                        push_decimal(&mut detail, bits_per_pixel as u64);
                        self.report.push(
                            DoctorCheck::new(DoctorStatus::Pass, "rdp handshake", detail.as_str()),
                        );
                    },
                    HandshakeProbe::Failed(err) => {
                        self.report.push(
                            DoctorCheck::new(DoctorStatus::Fail, "rdp handshake", err.as_str()).with_next_action(next),
                        );
                    },
                    HandshakeProbe::TimedOut => {
                        let mut detail = owned("probe timed out after ");
                        push_decimal(&mut detail, RDP_PROBE_TIMEOUT_SECS);
                        push_str(&mut detail, "s");
                        self.report.push(
                            DoctorCheck::new(DoctorStatus::Fail, "rdp handshake", detail.as_str()).with_next_action(next),
                        );
                    },
                }
                if !self.guest_checks_complete {
                    add_guest_manual_check(&mut self.report);
                }
                self.stage = DiagnoseStage::Done;
                assert(self@.checks =~= diagnose_step(d, DiagnoseEvent::RdpHandshake(p)).checks);
            },
            (_, event) => {
                assert(diagnose_step(d, event) == d);
            },
        }
    }

    fn fail_rdp_tcp(&mut self, detail: String)
        requires
            old(self)@.stage == DiagnoseStage::CheckRdpTcp,
        ensures
            final(self)@ == (DiagnosisView {
                checks: old(self)@.checks + seq![
                    check_next(
                        DoctorStatus::Fail,
                        "rdp tcp"@,
                        detail@,
                        "start the VM and verify Windows Remote Desktop is enabled"@,
                    ),
                    check(DoctorStatus::Skip, "rdp handshake"@, "TCP unavailable"@),
                ] + manual_unless_complete(old(self)@.guest_checks_complete),
                stage: DiagnoseStage::Done,
                ..old(self)@
            }),
    {
        self.report.push(
            DoctorCheck::new(DoctorStatus::Fail, "rdp tcp", detail.as_str()).with_next_action(
                "start the VM and verify Windows Remote Desktop is enabled",
            ),
        );
        self.report.push(DoctorCheck::new(DoctorStatus::Skip, "rdp handshake", "TCP unavailable"));
        if !self.guest_checks_complete {
            add_guest_manual_check(&mut self.report);
        }
        self.stage = DiagnoseStage::Done;
        assert(self@.checks =~= old(self)@.checks + seq![
            check_next(
                DoctorStatus::Fail,
                "rdp tcp"@,
                detail@,
                "start the VM and verify Windows Remote Desktop is enabled"@,
            ),
            check(DoctorStatus::Skip, "rdp handshake"@, "TCP unavailable"@),
        ] + manual_unless_complete(old(self)@.guest_checks_complete));
    }
}

/// A finished diagnosis stays as it is: no further outcome changes it.
pub proof fn finished_diagnosis_is_final(d: DiagnosisView, e: DiagnoseEvent)
    requires
        d.stage == DiagnoseStage::Done,
    ensures
        diagnose_step(d, e) == d,
{
}

/// A probe outcome only adds checks: what the report already says stays, in order.
pub proof fn diagnosis_only_appends(d: DiagnosisView, e: DiagnoseEvent)
    ensures
        diagnose_step(d, e).checks.len() >= d.checks.len(),
        diagnose_step(d, e).checks.take(d.checks.len() as int) == d.checks,
{
    let n = diagnose_step(d, e).checks;
    assert(n.take(d.checks.len() as int) =~= d.checks);
}

/// A diagnosis that ends without the guest-side results ends with the check pointing to the
/// manual guest checks.
pub proof fn unfinished_guest_checks_end_with_manual_check(d: DiagnosisView, e: DiagnoseEvent)
    requires
        d.stage != DiagnoseStage::Done,
        diagnose_step(d, e).stage == DiagnoseStage::Done,
        !diagnose_step(d, e).guest_checks_complete,
    ensures
        diagnose_step(d, e).checks.last() == guest_manual_check(),
{
}

/// The guest agent is never probed for a VM that is not running: after reading a state other
/// than `Active`, the next probe is the RDP TCP check.
pub proof fn inactive_vm_skips_guest_probes(d: DiagnosisView, state: VmState)
    requires
        d.stage == DiagnoseStage::QueryVmState,
        state != VmState::Active,
    ensures
        diagnose_step(d, DiagnoseEvent::VmStateRead(state)).stage == DiagnoseStage::CheckRdpTcp,
        diagnose_step(d, DiagnoseEvent::VmStateRead(state)).checks.last().status
            == DoctorStatus::Skip,
{
}

/// The guest agent is probed exactly when the VM is running: after reading the VM state, the
/// next probe is the guest-agent ping if and only if the state is `Active`.
pub proof fn guest_agent_is_pinged_exactly_for_a_running_vm(d: DiagnosisView, state: VmState)
    requires
        d.stage == DiagnoseStage::QueryVmState,
    ensures
        (diagnose_step(d, DiagnoseEvent::VmStateRead(state)).stage == DiagnoseStage::PingGuestAgent)
            == (state == VmState::Active),
{
}

/// A guest agent that answers the ping is reported as passing, and the guest-side diagnostics
/// are collected next.
pub proof fn answered_ping_leads_to_guest_diagnostics(d: DiagnosisView)
    requires
        d.stage == DiagnoseStage::PingGuestAgent,
    ensures
        diagnose_step(d, DiagnoseEvent::GuestPingSucceeded).stage == DiagnoseStage::CollectGuestDiagnostics,
        diagnose_step(d, DiagnoseEvent::GuestPingSucceeded).checks.len() == d.checks.len() + 1,
        diagnose_step(d, DiagnoseEvent::GuestPingSucceeded).checks.last().status == DoctorStatus::Pass,
        diagnose_step(d, DiagnoseEvent::GuestPingSucceeded).checks.last().name == "qemu guest agent"@,
{
}

/// Collected guest diagnostics add the four guest service-session checks after what the report
/// held (wallpaper, KakaoTalk, themes, disk), mark the guest checks complete, and move on to
/// the RDP checks.
pub proof fn collected_guest_diagnostics_are_reported(d: DiagnosisView, g: GuestDiagnostics)
    requires
        d.stage == DiagnoseStage::CollectGuestDiagnostics,
    ensures
        ({
            let n = diagnose_step(d, DiagnoseEvent::GuestDiagnosticsRead(g));
            let k = d.checks.len() as int;
            &&& n.stage == DiagnoseStage::CheckRdpTcp
            &&& n.guest_checks_complete
            &&& n.checks.len() == k + 4
            &&& n.checks.take(k) == d.checks
            &&& n.checks[k].name == "guest service-session wallpaper"@
            &&& n.checks[k + 1].name == "guest service-session kakaotalk"@
            &&& n.checks[k + 2].name == "guest service-session themes"@
            &&& n.checks[k + 3].name == "guest service-session disk"@
        }),
{
    let n = diagnose_step(d, DiagnoseEvent::GuestDiagnosticsRead(g));
    let k = d.checks.len() as int;
    assert(n.checks == d.checks + guest_diagnostic_checks(g));
    assert(n.checks.take(k) =~= d.checks);
    assert(n.checks[k] == wallpaper_check(g.wallpaper));
    assert(n.checks[k + 1] == kakaotalk_check(g.kakaotalk));
    assert(n.checks[k + 2] == themes_check(g.themes));
    assert(n.checks[k + 3] == disk_check(g.disk));
}

} // verus!
