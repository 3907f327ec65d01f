//! The diagnostic bundle: command snapshots, the status summary and the doctor report,
//! assembled into one text file.
use crate::config::LifecycleConfig;
use crate::doctor::{format_report, report_text, CheckView, DoctorReport, RDP_PORT};
use crate::error::WinbridgeError;
use crate::lifecycle::{lifecycle_summary, spec_lifecycle_summary};
use crate::text::{decimal, is_blank, owned, push_chars, push_decimal, push_str, to_chars, trim, slice_range};
use crate::vm::{spec_utf8_lossy, utf8_lossy, AttachedCdrom, VmState};
use vstd::prelude::*;

verus! {

/// The size in bytes above which captured output is cut.
pub const BUNDLE_OUTPUT_LIMIT: usize = 12000;

/// The number of bytes UTF-8 takes for a character.
pub open spec fn utf8_width(c: char) -> nat {
    if (c as u32) < 0x80 {
        1
    } else if (c as u32) < 0x800 {
        2
    } else if (c as u32) < 0x10000 {
        3
    } else {
        4
    }
}

/// The length in bytes of the UTF-8 encoding of a text (`str::len`).
pub open spec fn utf8_len(s: Seq<char>) -> nat
    decreases s.len(),
{
    if s.len() == 0 {
        0
    } else {
        utf8_len(s.drop_last()) + utf8_width(s.last())
    }
}

/// The end of the longest run of characters from index `i` whose encoding fits in `budget`
/// bytes: where the text is cut on a character boundary.
pub open spec fn fitting_end(s: Seq<char>, i: int, budget: int) -> int
    decreases s.len() - i,
{
    if i < 0 || i >= s.len() || utf8_width(s[i]) > budget {
        i
    } else {
        fitting_end(s, i + 1, budget - utf8_width(s[i]))
    }
}

/// Captured output as the bundle holds it: unchanged up to the limit; otherwise cut at the
/// last character boundary within the limit, with a note of how many bytes were kept.
pub open spec fn spec_truncate(s: Seq<char>) -> Seq<char> {
    if utf8_len(s) <= BUNDLE_OUTPUT_LIMIT {
        s
    } else {
        let kept = s.take(fitting_end(s, 0, BUNDLE_OUTPUT_LIMIT as int));
        kept + "\n... truncated after "@ + decimal(utf8_len(kept)) + " bytes ..."@
    }
}

proof fn lemma_utf8_len_take_step(s: Seq<char>, k: int)
    requires
        0 <= k < s.len(),
    ensures
        utf8_len(s.take(k + 1)) == utf8_len(s.take(k)) + utf8_width(s[k]),
{
    assert(s.take(k + 1).drop_last() == s.take(k));
}

proof fn lemma_utf8_len_prefix(s: Seq<char>, k: int)
    requires
        0 <= k <= s.len(),
    ensures
        utf8_len(s.take(k)) <= utf8_len(s),
    decreases s.len() - k,
{
    if k < s.len() {
        lemma_utf8_len_take_step(s, k);
        lemma_utf8_len_prefix(s, k + 1);
    } else {
        assert(s.take(k) == s);
    }
}

fn char_utf8_width(c: char) -> (r: usize)
    ensures
        r == utf8_width(c),
{
    let u = c as u32;
    if u < 0x80 {
        1
    } else if u < 0x800 {
        2
    } else if u < 0x10000 {
        3
    } else {
        4
    }
}

/// Captured output cut to the bundle's limit (see `spec_truncate`).
pub fn truncate_for_bundle(text: &str) -> (r: String)
    ensures
        r@ == spec_truncate(text@),
{
    let cs = to_chars(text);
    let mut i: usize = 0;
    let mut used: usize = 0;
    while i < cs.len() && used + char_utf8_width(cs[i]) <= BUNDLE_OUTPUT_LIMIT
        invariant
            i <= cs.len(),
            used <= BUNDLE_OUTPUT_LIMIT,
            used == utf8_len(cs@.take(i as int)),
            fitting_end(cs@, 0, BUNDLE_OUTPUT_LIMIT as int) == fitting_end(
                cs@,
                i as int,
                BUNDLE_OUTPUT_LIMIT - used,
            ),
        decreases cs.len() - i,
    {
        proof {
            lemma_utf8_len_take_step(cs@, i as int);
        }
        used = used + char_utf8_width(cs[i]);
        i = i + 1;
    }
    if i == cs.len() {
        assert(cs@.take(i as int) == cs@);
        return owned(text);
    }
    proof {
        lemma_utf8_len_take_step(cs@, i as int);
        lemma_utf8_len_prefix(cs@, i + 1);
    }
    let mut out = String::new();
    push_chars(&mut out, slice_range(cs.as_slice(), 0, i));
    push_str(&mut out, "\n... truncated after ");
    push_decimal(&mut out, used as u64);
    push_str(&mut out, " bytes ...");
    out
}

/// A command whose output goes into the bundle, under a label.
#[derive(Debug, Clone)]
pub struct SnapshotCommand {
    pub label: String,
    pub program: String,
    pub args: Vec<String>,
}

/// What running a snapshot command gave: its exit status as printed and its raw output, or
/// why it could not be run.
#[derive(Debug, Clone)]
pub enum CommandOutcome {
    Ran { status: String, stdout: Vec<u8>, stderr: Vec<u8> },
    FailedToRun(String),
}

/// The program and its arguments joined by spaces, as the snapshot shows the command.
pub open spec fn joined_args(args: Seq<String>) -> Seq<char>
    decreases args.len(),
{
    if args.len() == 0 {
        Seq::empty()
    } else {
        joined_args(args.drop_last()) + " "@ + args.last()@
    }
}

pub open spec fn spec_command_line(program: Seq<char>, args: Seq<String>) -> Seq<char> {
    program + joined_args(args)
}

/// The command line of a snapshot command.
pub fn command_line(program: &str, args: &Vec<String>) -> (r: String)
    ensures
        r@ == spec_command_line(program@, args@),
{
    let mut out = owned(program);
    for i in 0..args.len()
        invariant
            out@ == program@ + joined_args(args@.take(i as int)),
    {
        push_str(&mut out, " ");
        push_str(&mut out, args[i].as_str());
        assert(args@.take(i + 1).drop_last() == args@.take(i as int));
    }
    assert(args@.take(args.len() as int) == args@);
    out
}

/// A captured stream in the snapshot: nothing when it is blank after truncation, otherwise a
/// `stdout:` or `stderr:` heading and the text.
pub open spec fn stream_text(heading: Seq<char>, raw: Seq<u8>) -> Seq<char> {
    let text = spec_truncate(spec_utf8_lossy(raw));
    if trim(text).len() == 0 {
        Seq::empty()
    } else {
        heading + "\n"@ + text + "\n"@
    }
}

/// The text of one command snapshot.
pub open spec fn snapshot_text(label: Seq<char>, command: Seq<char>, outcome: CommandOutcome) -> Seq<char> {
    "## "@ + label + "\n"@ + "$ "@ + command + "\n"@ + match outcome {
        CommandOutcome::Ran { status, stdout, stderr } => "exit: "@ + status@ + "\n"@ + stream_text(
            "stdout:"@,
            stdout@,
        ) + stream_text("stderr:"@, stderr@),
        CommandOutcome::FailedToRun(err) => "failed to run: "@ + err@ + "\n"@,
    } + "\n"@
}

fn append_stream(out: &mut String, heading: &str, raw: &Vec<u8>)
    ensures
        final(out)@ == old(out)@ + stream_text(heading@, raw@),
{
    let text = truncate_for_bundle(utf8_lossy(raw.as_slice()).as_str());
    if !is_blank(text.as_str()) {
        push_str(out, heading);
        push_str(out, "\n");
        push_str(out, text.as_str());
        push_str(out, "\n");
    }
}

/// Appends the snapshot of a command that was run with the given outcome.
pub fn append_command_snapshot(out: &mut String, label: &str, command: &str, outcome: &CommandOutcome)
    ensures
        final(out)@ == old(out)@ + snapshot_text(label@, command@, *outcome),
{
    let ghost start = out@;
    push_str(out, "## ");
    push_str(out, label);
    push_str(out, "\n");
    push_str(out, "$ ");
    push_str(out, command);
    push_str(out, "\n");
    let ghost head = out@;
    match outcome {
        CommandOutcome::Ran { status, stdout, stderr } => {
            push_str(out, "exit: ");
            push_str(out, status.as_str());
            push_str(out, "\n");
            append_stream(out, "stdout:", stdout);
            append_stream(out, "stderr:", stderr);
        },
        CommandOutcome::FailedToRun(err) => {
            push_str(out, "failed to run: ");
            push_str(out, err.as_str());
            push_str(out, "\n");
        },
    }
    let ghost body = out@.skip(head.len() as int);
    assert(out@ == head + body);
    push_str(out, "\n");
    assert(out@ =~= start + snapshot_text(label@, command@, *outcome));
}

/// The status line of the RDP port: reachable, or unreachable with the connection error.
pub open spec fn spec_rdp_tcp_status(vm_ip: Seq<char>, probe: Result<(), Seq<char>>) -> Seq<char> {
    vm_ip + ":"@ + decimal(RDP_PORT as nat) + match probe {
        Ok(()) => " reachable"@,
        Err(err) => " unreachable ("@ + err + ")"@,
    }
}

pub open spec fn result_unit_view(r: Result<(), String>) -> Result<(), Seq<char>> {
    match r {
        Ok(()) => Ok(()),
        Err(e) => Err(e@),
    }
}

/// The `rdp:` status line from the outcome of one connection attempt to port 3389.
pub fn rdp_tcp_status(vm_ip: &str, probe: Result<(), String>) -> (r: String)
    ensures
        r@ == spec_rdp_tcp_status(vm_ip@, result_unit_view(probe)),
{
    let mut out = owned(vm_ip);
    push_str(&mut out, ":");
    push_decimal(&mut out, RDP_PORT as u64);
    match probe {
        Ok(()) => push_str(&mut out, " reachable"),
        Err(err) => {
            push_str(&mut out, " unreachable (");
            push_str(&mut out, err.as_str());
            push_str(&mut out, ")");
        },
    }
    out
}

/// The error of a connection attempt that did not finish in time.
pub fn tcp_timeout_message(timeout_secs: u64) -> (r: String)
    ensures
        r@ == "timeout after "@ + decimal(timeout_secs as nat) + "s"@,
{
    let mut out = owned("timeout after ");
    push_decimal(&mut out, timeout_secs);
    push_str(&mut out, "s");
    out
}

/// The `qemu-ga:` status line: skipped unless the VM is active, otherwise the outcome of a
/// guest-ping.
pub open spec fn spec_qemu_ga_status(state: VmState, ping: Result<(), WinbridgeError>) -> Seq<char> {
    if state != VmState::Active {
        "skipped (VM not active)"@
    } else {
        match ping {
            Ok(()) => "guest-ping ok"@,
            Err(e) => "guest-ping failed ("@ + e.spec_message() + ")"@,
        }
    }
}

/// The `qemu-ga:` status line. The ping outcome is read only when the VM is active: the caller
/// pings the guest agent only then.
pub fn qemu_ga_status(state: VmState, ping: &Result<(), WinbridgeError>) -> (r: String)
    ensures
        r@ == spec_qemu_ga_status(state, *ping),
{
    if !state.is_active() {
        return owned("skipped (VM not active)");
    }
    match ping {
        Ok(()) => owned("guest-ping ok"),
        Err(e) => {
            let mut out = owned("guest-ping failed (");
            push_str(&mut out, e.message().as_str());
            push_str(&mut out, ")");
            out
        },
    }
}

/// One half of the `cdrom:` status line: none, a count of attachments, or why the domain XML
/// could not be inspected.
pub open spec fn cdrom_part(prefix: Seq<char>, found: Result<Vec<AttachedCdrom>, WinbridgeError>) -> Seq<char> {
    prefix + match found {
        Ok(v) => if v@.len() == 0 {
            "none"@
        } else {
            decimal(v@.len()) + " attachment(s)"@
        },
        Err(e) => "inspect failed ("@ + e.spec_message() + ")"@,
    }
}

fn push_cdrom_part(out: &mut String, prefix: &str, found: &Result<Vec<AttachedCdrom>, WinbridgeError>)
    ensures
        final(out)@ == old(out)@ + cdrom_part(prefix@, *found),
{
    push_str(out, prefix);
    match found {
        Ok(v) => {
            if v.len() == 0 {
                push_str(out, "none");
            } else {
                push_decimal(out, v.len() as u64);
                push_str(out, " attachment(s)");
            }
        },
        Err(e) => {
            push_str(out, "inspect failed (");
            push_str(out, e.message().as_str());
            push_str(out, ")");
        },
    }
}

/// The `cdrom:` status line: the persistent attachments, then the live ones, which are skipped
/// unless the VM is active.
pub open spec fn spec_cdrom_status(
    state: VmState,
    persistent: Result<Vec<AttachedCdrom>, WinbridgeError>,
    live: Result<Vec<AttachedCdrom>, WinbridgeError>,
) -> Seq<char> {
    cdrom_part("persistent="@, persistent) + if state != VmState::Active {
        ", live=skipped (VM not active)"@
    } else {
        ", "@ + cdrom_part("live="@, live)
    }
}

/// The `cdrom:` status line. The live inspection is read only when the VM is active: the
/// caller inspects the live domain only then.
pub fn cdrom_status(
    state: VmState,
    persistent: &Result<Vec<AttachedCdrom>, WinbridgeError>,
    live: &Result<Vec<AttachedCdrom>, WinbridgeError>,
) -> (r: String)
    ensures
        r@ == spec_cdrom_status(state, *persistent, *live),
{
    let mut out = String::new();
    push_cdrom_part(&mut out, "persistent=", persistent);
    if !state.is_active() {
        push_str(&mut out, ", live=skipped (VM not active)");
    } else {
        push_str(&mut out, ", ");
        push_cdrom_part(&mut out, "live=", live);
    }
    out
}

/// A command of the bundle together with what running it gave.
#[derive(Debug, Clone)]
pub struct CommandSnapshot {
    pub command: SnapshotCommand,
    pub outcome: CommandOutcome,
}

pub open spec fn snapshot_of(c: CommandSnapshot) -> Seq<char> {
    snapshot_text(c.command.label@, spec_command_line(c.command.program@, c.command.args@), c.outcome)
}

pub open spec fn snapshots_text(cs: Seq<CommandSnapshot>) -> Seq<char>
    decreases cs.len(),
{
    if cs.len() == 0 {
        Seq::empty()
    } else {
        snapshots_text(cs.drop_last()) + snapshot_of(cs.last())
    }
}

/// The `[status]` section of the bundle once the configuration loaded.
#[derive(Debug)]
pub enum VmStatus {
    /// The libvirt connection could not be opened.
    ManagerError(WinbridgeError),
    /// The VM state could not be read.
    StateError(WinbridgeError),
    /// The VM state and the status lines gathered for it.
    Known { vm_name: String, state: VmState, lifecycle: LifecycleConfig, rdp: String, qemu_ga: String, cdrom: String },
}

/// What the bundle shows after the host snapshots.
#[derive(Debug)]
pub enum BundleConfig {
    /// The configuration did not load.
    Failed(WinbridgeError),
    /// The libvirt snapshots and the status of the configured VM.
    Loaded { libvirt: Vec<CommandSnapshot>, status: VmStatus },
}

pub open spec fn vm_status_text(s: VmStatus) -> Seq<char> {
    match s {
        VmStatus::ManagerError(e) => "manager error: "@ + e.spec_message() + "\n"@,
        VmStatus::StateError(e) => "vm state error: "@ + e.spec_message() + "\n"@,
        VmStatus::Known { vm_name, state, lifecycle, rdp, qemu_ga, cdrom } => "vm: "@ + vm_name@ + " "@
            + state.spec_name() + "\n"@ + "lifecycle: "@ + spec_lifecycle_summary(lifecycle) + "\n"@
            + "rdp: "@ + rdp@ + "\n"@ + "qemu-ga: "@ + qemu_ga@ + "\n"@ + "cdrom: "@ + cdrom@ + "\n"@,
    }
}

pub open spec fn config_text(c: BundleConfig) -> Seq<char> {
    match c {
        BundleConfig::Failed(e) => "[status]\n"@ + "config error: "@ + e.spec_message() + "\n"@,
        BundleConfig::Loaded { libvirt, status } => "\n"@ + "[libvirt]\n"@ + snapshots_text(libvirt@)
            + "\n"@ + "[status]\n"@ + vm_status_text(status),
    }
}

/// The whole diagnostic bundle.
pub open spec fn spec_bundle_text(
    version: Seq<char>,
    generated_unix_seconds: u64,
    host: Seq<CommandSnapshot>,
    config: BundleConfig,
    doctor: Seq<CheckView>,
) -> Seq<char> {
    "winbridge diagnostic bundle\n"@ + "version: "@ + version + "\n"@ + "generated-unix-seconds: "@
        + decimal(generated_unix_seconds as nat) + "\n"@ + "\n"@ + "[host]\n"@ + snapshots_text(host)
        + config_text(config) + "\n"@ + "[doctor]\n"@ + report_text(doctor)
}

fn append_snapshots(out: &mut String, cs: &Vec<CommandSnapshot>)
    ensures
        final(out)@ == old(out)@ + snapshots_text(cs@),
{
    let ghost start = out@;
    for i in 0..cs.len()
        invariant
            out@ == start + snapshots_text(cs@.take(i as int)),
    {
        let c = &cs[i];
        let line = command_line(c.command.program.as_str(), &c.command.args);
        append_command_snapshot(out, c.command.label.as_str(), line.as_str(), &c.outcome);
        assert(cs@.take(i + 1).drop_last() == cs@.take(i as int));
    }
    assert(cs@.take(cs.len() as int) == cs@);
}

fn append_vm_status(out: &mut String, s: &VmStatus)
    ensures
        final(out)@ == old(out)@ + vm_status_text(*s),
{
    let ghost start = out@;
    match s {
        VmStatus::ManagerError(e) => {
            push_str(out, "manager error: ");
            push_str(out, e.message().as_str());
            push_str(out, "\n");
        },
        VmStatus::StateError(e) => {
            push_str(out, "vm state error: ");
            push_str(out, e.message().as_str());
            push_str(out, "\n");
        },
        VmStatus::Known { vm_name, state, lifecycle, rdp, qemu_ga, cdrom } => {
            push_str(out, "vm: ");
            push_str(out, vm_name.as_str());
            push_str(out, " ");
            push_str(out, state.name());
            push_str(out, "\n");
            push_str(out, "lifecycle: ");
            push_str(out, lifecycle_summary(*lifecycle).as_str());
            push_str(out, "\n");
            push_str(out, "rdp: ");
            push_str(out, rdp.as_str());
            push_str(out, "\n");
            push_str(out, "qemu-ga: ");
            push_str(out, qemu_ga.as_str());
            push_str(out, "\n");
            push_str(out, "cdrom: ");
            push_str(out, cdrom.as_str());
            push_str(out, "\n");
        },
    }
    assert(out@ =~= start + vm_status_text(*s));
}

/// The text of the diagnostic bundle from what was gathered: the header, the host snapshots,
/// the libvirt snapshots and VM status (or the configuration error), and the doctor report.
pub fn diagnostic_bundle_text(
    version: &str,
    generated_unix_seconds: u64,
    host: &Vec<CommandSnapshot>,
    config: &BundleConfig,
    doctor: &DoctorReport,
) -> (r: String)
    ensures
        r@ == spec_bundle_text(version@, generated_unix_seconds, host@, *config, doctor@),
{
    let mut out = String::new();
    push_str(&mut out, "winbridge diagnostic bundle\n");
    push_str(&mut out, "version: ");
    push_str(&mut out, version);
    push_str(&mut out, "\n");
    push_str(&mut out, "generated-unix-seconds: ");
    push_decimal(&mut out, generated_unix_seconds);
    push_str(&mut out, "\n");
    push_str(&mut out, "\n");
    push_str(&mut out, "[host]\n");
    append_snapshots(&mut out, host);
    let ghost before_config = out@;
    match config {
        BundleConfig::Failed(e) => {
            push_str(&mut out, "[status]\n");
            push_str(&mut out, "config error: ");
            push_str(&mut out, e.message().as_str());
            push_str(&mut out, "\n");
        },
        BundleConfig::Loaded { libvirt, status } => {
            push_str(&mut out, "\n");
            push_str(&mut out, "[libvirt]\n");
            append_snapshots(&mut out, libvirt);
            push_str(&mut out, "\n");
            push_str(&mut out, "[status]\n");
            append_vm_status(&mut out, status);
        },
    }
    assert(out@ =~= before_config + config_text(*config));
    let ghost before_doctor = out@;
    push_str(&mut out, "\n");
    push_str(&mut out, "[doctor]\n");
    push_str(&mut out, format_report(doctor).as_str());
    assert(out@ =~= before_doctor + "\n"@ + "[doctor]\n"@ + report_text(doctor@));
    out
}

pub open spec fn command_view(c: SnapshotCommand) -> (Seq<char>, Seq<char>, Seq<Seq<char>>) {
    (c.label@, c.program@, c.args@.map_values(|a: String| a@))
}

fn snapshot_command(label: &str, program: &str, args: Vec<String>) -> (r: SnapshotCommand)
    ensures
        r.label@ == label@,
        r.program@ == program@,
        r.args@ == args@,
{
    SnapshotCommand { label: owned(label), program: owned(program), args }
}

/// The host commands of the bundle: `uname -a` and `df -h /home`.
pub fn host_snapshot_commands() -> (r: Vec<SnapshotCommand>)
    ensures
        r@.map_values(|c: SnapshotCommand| command_view(c)) == seq![
            ("uname"@, "uname"@, seq!["-a"@]),
            ("df-home"@, "df"@, seq!["-h"@, "/home"@]),
        ],
{
    let mut out: Vec<SnapshotCommand> = Vec::new();
    let mut a1: Vec<String> = Vec::new();
    a1.push(owned("-a"));
    out.push(snapshot_command("uname", "uname", a1));
    let mut a2: Vec<String> = Vec::new();
    a2.push(owned("-h"));
    a2.push(owned("/home"));
    out.push(snapshot_command("df-home", "df", a2));
    assert(out@[0].args@.map_values(|a: String| a@) =~= seq!["-a"@]);
    assert(out@[1].args@.map_values(|a: String| a@) =~= seq!["-h"@, "/home"@]);
    assert(out@.map_values(|c: SnapshotCommand| command_view(c)) =~= seq![
        ("uname"@, "uname"@, seq!["-a"@]),
        ("df-home"@, "df"@, seq!["-h"@, "/home"@]),
    ]);
    out
}

fn virsh_args(libvirt_uri: &str, rest: &str, vm_name: Option<&str>) -> (r: Vec<String>)
    ensures
        r@.map_values(|a: String| a@) == seq!["--connect"@, libvirt_uri@, rest@] + match vm_name {
            Some(n) => seq![n@],
            None => seq!["--all"@],
        },
{
    let mut v: Vec<String> = Vec::new();
    v.push(owned("--connect"));
    v.push(owned(libvirt_uri));
    v.push(owned(rest));
    match vm_name {
        Some(n) => v.push(owned(n)),
        None => v.push(owned("--all")),
    }
    assert(v@.map_values(|a: String| a@) =~= seq!["--connect"@, libvirt_uri@, rest@] + match vm_name {
        Some(n) => seq![n@],
        None => seq!["--all"@],
    });
    v
}

/// The libvirt commands of the bundle: `virsh list --all`, `domstate` and `domblklist` of the
/// VM, each against the configured libvirt URI.
pub fn libvirt_snapshot_commands(libvirt_uri: &str, vm_name: &str) -> (r: Vec<SnapshotCommand>)
    ensures
        r@.map_values(|c: SnapshotCommand| command_view(c)) == seq![
            ("virsh-list"@, "virsh"@, seq!["--connect"@, libvirt_uri@, "list"@, "--all"@]),
            ("virsh-domstate"@, "virsh"@, seq!["--connect"@, libvirt_uri@, "domstate"@, vm_name@]),
            ("virsh-domblklist"@, "virsh"@, seq!["--connect"@, libvirt_uri@, "domblklist"@, vm_name@]),
        ],
{
    let mut out: Vec<SnapshotCommand> = Vec::new();
    out.push(snapshot_command("virsh-list", "virsh", virsh_args(libvirt_uri, "list", None)));
    out.push(snapshot_command("virsh-domstate", "virsh", virsh_args(libvirt_uri, "domstate", Some(vm_name))));
    out.push(snapshot_command("virsh-domblklist", "virsh", virsh_args(libvirt_uri, "domblklist", Some(vm_name))));
    assert(out@[0].args@.map_values(|a: String| a@) =~= seq!["--connect"@, libvirt_uri@, "list"@, "--all"@]);
    assert(out@[1].args@.map_values(|a: String| a@) =~= seq!["--connect"@, libvirt_uri@, "domstate"@, vm_name@]);
    assert(out@[2].args@.map_values(|a: String| a@) =~= seq!["--connect"@, libvirt_uri@, "domblklist"@, vm_name@]);
    assert(out@.map_values(|c: SnapshotCommand| command_view(c)) =~= seq![
        ("virsh-list"@, "virsh"@, seq!["--connect"@, libvirt_uri@, "list"@, "--all"@]),
        ("virsh-domstate"@, "virsh"@, seq!["--connect"@, libvirt_uri@, "domstate"@, vm_name@]),
        ("virsh-domblklist"@, "virsh"@, seq!["--connect"@, libvirt_uri@, "domblklist"@, vm_name@]),
    ]);
    out
}

proof fn lemma_fitting_end(s: Seq<char>, i: int, budget: int)
    requires
        0 <= i <= s.len(),
        budget >= 0,
    ensures
        i <= fitting_end(s, i, budget) <= s.len(),
        utf8_len(s.take(fitting_end(s, i, budget))) - utf8_len(s.take(i)) <= budget,
        fitting_end(s, i, budget) < s.len() ==> utf8_len(s.take(fitting_end(s, i, budget) + 1))
            - utf8_len(s.take(i)) > budget,
    decreases s.len() - i,
{
    if i < s.len() {
        lemma_utf8_len_take_step(s, i);
        if utf8_width(s[i]) <= budget {
            lemma_fitting_end(s, i + 1, budget - utf8_width(s[i]));
        }
    }
}

/// Output longer than the limit is cut to its longest prefix that fits in the limit, which ends
/// on a character boundary: the kept characters take at most the limit in bytes, and one more
/// character would not fit.
pub proof fn truncation_keeps_the_longest_fitting_prefix(s: Seq<char>)
    requires
        utf8_len(s) > BUNDLE_OUTPUT_LIMIT,
    ensures
        ({
            let k = fitting_end(s, 0, BUNDLE_OUTPUT_LIMIT as int);
            &&& 0 <= k < s.len()
            &&& utf8_len(s.take(k)) <= BUNDLE_OUTPUT_LIMIT
            &&& utf8_len(s.take(k + 1)) > BUNDLE_OUTPUT_LIMIT
            &&& spec_truncate(s) == s.take(k) + "\n... truncated after "@ + decimal(utf8_len(s.take(k)))
                + " bytes ..."@
        }),
{
    assert(s.take(0) =~= Seq::<char>::empty());
    lemma_fitting_end(s, 0, BUNDLE_OUTPUT_LIMIT as int);
    let k = fitting_end(s, 0, BUNDLE_OUTPUT_LIMIT as int);
    if k == s.len() {
        assert(s.take(k) == s);
    }
}

/// The snapshot of a command that ran starts with its label, its command line and its exit
/// status; then comes its captured stdout under a `stdout:` heading whenever that (truncated)
/// output is not blank, and it ends with its captured stderr under a `stderr:` heading whenever
/// that is not blank: no non-blank stream is left out. With both streams blank, nothing follows
/// the exit status but the closing blank line.
pub proof fn ran_snapshot_keeps_every_nonblank_stream(
    label: Seq<char>,
    command: Seq<char>,
    status: String,
    stdout: Vec<u8>,
    stderr: Vec<u8>,
)
    ensures
        ({
            let s = snapshot_text(label, command, CommandOutcome::Ran { status, stdout, stderr });
            let head = "## "@ + label + "\n"@ + "$ "@ + command + "\n"@ + "exit: "@ + status@
                + "\n"@;
            let out = spec_truncate(spec_utf8_lossy(stdout@));
            let err = spec_truncate(spec_utf8_lossy(stderr@));
            let out_part = "stdout:"@ + "\n"@ + out + "\n"@;
            let err_part = "stderr:"@ + "\n"@ + err + "\n"@ + "\n"@;
            &&& s.len() >= head.len()
            &&& s.take(head.len() as int) == head
            &&& trim(out).len() != 0 ==> s.len() >= head.len() + out_part.len() && s.subrange(
                head.len() as int,
                (head.len() + out_part.len()) as int,
            ) == out_part
            &&& trim(err).len() != 0 ==> s.len() >= err_part.len() && s.subrange(
                s.len() - err_part.len(),
                s.len() as int,
            ) == err_part
            &&& trim(out).len() == 0 && trim(err).len() == 0 ==> s == head + "\n"@
        }),
{
    let s = snapshot_text(label, command, CommandOutcome::Ran { status, stdout, stderr });
    let head = "## "@ + label + "\n"@ + "$ "@ + command + "\n"@ + "exit: "@ + status@ + "\n"@;
    let so = stream_text("stdout:"@, stdout@);
    let se = stream_text("stderr:"@, stderr@);
    let out = spec_truncate(spec_utf8_lossy(stdout@));
    let err = spec_truncate(spec_utf8_lossy(stderr@));
    let out_part = "stdout:"@ + "\n"@ + out + "\n"@;
    let err_part = "stderr:"@ + "\n"@ + err + "\n"@ + "\n"@;
    assert(s =~= head + so + se + "\n"@);
    assert(s.take(head.len() as int) =~= head);
    if trim(out).len() != 0 {
        assert(so == "stdout:"@ + "\n"@ + out + "\n"@);
        assert(s.subrange(head.len() as int, (head.len() + out_part.len()) as int) =~= out_part);
    }
    if trim(err).len() != 0 {
        assert(se + "\n"@ =~= err_part);
        assert(s.subrange(s.len() - err_part.len(), s.len() as int) =~= err_part);
    }
}

} // verus!
