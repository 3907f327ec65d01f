//! VM state and what the VM manager decides from it.
use crate::error::{VmError, WinbridgeError};
use crate::text::{
    find_at, find_at_exec, from_chars, lemma_find_at_bounds, owned, push_chars, push_signed_decimal,
    push_str, signed_decimal, slice_range, strip_bounds_char, strip_bounds_ws, to_chars, trim, trim_char,
};
use base64::Engine as _;
use vstd::prelude::*;

verus! {

/// The lifecycle state of the Windows VM as the manager sees it.
#[derive(Debug, Clone, Copy, PartialEq, Eq, Structural)]
pub enum VmState {
    /// Running; RDP is possible right away.
    Active,
    /// Managed-saved (memory dumped to disk); needs a resume.
    Saved,
    /// Shut off; needs a boot.
    Off,
    /// Anything else (paused, crashed, ...).
    Other,
}

impl VmState {
    /// Whether the VM must be booted.
    pub fn requires_start(self) -> (r: bool)
        ensures
            r == (self == VmState::Off || self == VmState::Other),
    {
        matches!(self, VmState::Off | VmState::Other)
    }

    /// Whether the VM must be resumed from its managed save.
    pub fn requires_resume(self) -> (r: bool)
        ensures
            r == (self == VmState::Saved),
    {
        matches!(self, VmState::Saved)
    }

    /// Whether the VM is running.
    pub fn is_active(self) -> (r: bool)
        ensures
            r == (self == VmState::Active),
    {
        matches!(self, VmState::Active)
    }

    /// The name of the state, as `{:?}` prints it.
    pub open spec fn spec_name(self) -> Seq<char> {
        match self {
            VmState::Active => "Active"@,
            VmState::Saved => "Saved"@,
            VmState::Off => "Off"@,
            VmState::Other => "Other"@,
        }
    }

    /// The name of the state, as `{:?}` prints it.
    pub fn name(self) -> (r: &'static str)
        ensures
            r@ == self.spec_name(),
    {
        match self {
            VmState::Active => "Active",
            VmState::Saved => "Saved",
            VmState::Off => "Off",
            VmState::Other => "Other",
        }
    }
}

/// Every VM state calls for exactly one of: nothing (active), a resume, or a boot.
pub proof fn vm_state_needs_exactly_one_action(state: VmState)
    ensures
        (state == VmState::Active) as int + (state == VmState::Saved) as int + (state
            == VmState::Off || state == VmState::Other) as int == 1,
{
}

/// What the guest-side diagnostic script reports from the qemu-ga service session.
#[derive(Debug, Clone, PartialEq, Eq)]
pub struct GuestDiagnostics {
    pub wallpaper: GuestWallpaperDiagnostics,
    pub themes: GuestServiceDiagnostics,
    pub kakaotalk: GuestKakaoTalkDiagnostics,
    pub disk: GuestDiskDiagnostics,
    pub updates: GuestUpdateDiagnostics,
}

#[derive(Debug, Clone, PartialEq, Eq)]
pub struct GuestWallpaperDiagnostics {
    pub path: String,
    pub source_reachable: bool,
    pub theme_cache_reachable: bool,
    pub theme_cache_bytes: u64,
}

#[derive(Debug, Clone, PartialEq, Eq)]
pub struct GuestServiceDiagnostics {
    pub status: String,
}

#[derive(Debug, Clone, Copy, PartialEq, Eq, Structural)]
pub struct GuestKakaoTalkDiagnostics {
    pub process_count: u32,
    pub has_main_window: bool,
}

/// Free space on `C:`, which the guest script reports in GiB as a JSON number. The library
/// holds the number exactly, as the bit pattern of the IEEE 754 double it was read into
/// (`f64::to_bits`), together with the text that `{:.1}` prints for it.
#[derive(Debug, Clone, PartialEq, Eq)]
pub struct GuestDiskDiagnostics {
    pub free_gb_bits: u64,
    pub free_gb_text: String,
}

#[derive(Debug, Clone, Copy, PartialEq, Eq, Structural)]
pub struct GuestUpdateDiagnostics {
    pub reboot_pending: bool,
    pub windows_update_reboot_required: bool,
}

/// libvirt's `VIR_DOMAIN_RUNNING` domain state.
pub const VIR_DOMAIN_RUNNING: u32 = 1;

/// libvirt's `VIR_DOMAIN_SHUTOFF` domain state.
pub const VIR_DOMAIN_SHUTOFF: u32 = 5;

/// The manager's view of a libvirt domain state: running is active; shut off is saved when a
/// managed save exists and off otherwise; everything else is other.
pub open spec fn spec_classify_state(state: u32, has_managed_save: bool) -> VmState {
    if state == VIR_DOMAIN_RUNNING {
        VmState::Active
    } else if state == VIR_DOMAIN_SHUTOFF {
        if has_managed_save {
            VmState::Saved
        } else {
            VmState::Off
        }
    } else {
        VmState::Other
    }
}

pub fn classify_state(state: u32, has_managed_save: bool) -> (r: VmState)
    ensures
        r == spec_classify_state(state, has_managed_save),
{
    if state == VIR_DOMAIN_RUNNING {
        VmState::Active
    } else if state == VIR_DOMAIN_SHUTOFF && has_managed_save {
        VmState::Saved
    } else if state == VIR_DOMAIN_SHUTOFF {
        VmState::Off
    } else {
        VmState::Other
    }
}

/// Seconds `ensure_active` waits for the VM to become active.
pub const ENSURE_ACTIVE_TIMEOUT_SECS: u64 = 60;

/// Milliseconds between two state polls.
pub const POLL_INTERVAL_MILLIS: u64 = 500;

/// The first move of `ensure_active`, from the VM's state.
#[derive(Debug, Clone, Copy, PartialEq, Eq, Structural)]
pub enum WakeStep {
    /// Already running: nothing to do.
    AlreadyActive,
    /// Resume from the managed save, then wait until active.
    Resume,
    /// Boot, then wait until active.
    Start,
}

/// What a state poll decided.
#[derive(Debug)]
pub enum PollStep {
    /// The awaited state is reached.
    Reached,
    /// Poll again after the interval.
    Wait,
    /// The deadline passed: give up with this error.
    GiveUp(VmError),
}

/// What a shutdown poll decided.
#[derive(Debug, Clone, Copy, PartialEq, Eq, Structural)]
pub enum ShutdownStep {
    /// The VM is off.
    Off,
    /// Poll again after the interval.
    Wait,
    /// The guest did not stop in time: force the VM off.
    Destroy,
}

/// The command sent to the QEMU guest agent to check that it answers.
pub const GUEST_PING_COMMAND: &'static str = "{\"execute\":\"guest-ping\"}";

/// Seconds the guest agent may take to answer a ping.
pub const GUEST_PING_TIMEOUT_SECS: i32 = 5;

/// Seconds the guest agent may take to answer a guest-exec request.
pub const GUEST_EXEC_TIMEOUT_SECS: i32 = 10;

/// How many times a guest command's status is polled before giving up.
pub const GUEST_EXEC_POLL_COUNT: usize = 40;

/// Manages one Windows VM by name; the libvirt calls themselves are made by the caller.
#[derive(Debug, Clone)]
pub struct VmManager {
    vm_name: String,
}

impl VmManager {
    pub fn new(vm_name: &str) -> (r: Self)
        ensures
            r.spec_vm_name() == vm_name@,
    {
        VmManager { vm_name: owned(vm_name) }
    }

    pub closed spec fn spec_vm_name(&self) -> Seq<char> {
        self.vm_name@
    }

    /// The name of the libvirt domain.
    pub fn vm_name(&self) -> (r: &str)
        ensures
            r@ == self.spec_vm_name(),
    {
        self.vm_name.as_str()
    }

    /// How `ensure_active` starts: nothing for an active VM, a resume for a saved one, a boot
    /// otherwise.
    pub fn wake_step(&self, initial: VmState) -> (r: WakeStep)
        ensures
            initial == VmState::Active ==> r == WakeStep::AlreadyActive,
            initial == VmState::Saved ==> r == WakeStep::Resume,
            (initial == VmState::Off || initial == VmState::Other) ==> r == WakeStep::Start,
    {
        if initial.is_active() {
            WakeStep::AlreadyActive
        } else if initial.requires_resume() {
            WakeStep::Resume
        } else {
            WakeStep::Start
        }
    }

    /// One poll of `poll_until_active`: done once active; past the deadline, a state timeout
    /// naming `ensure_active` and the timeout; otherwise wait.
    pub fn poll_until_active_step(&self, state: VmState, deadline_passed: bool, timeout_secs: u64) -> (r: PollStep)
        ensures
            state == VmState::Active ==> r is Reached,
            state != VmState::Active && !deadline_passed ==> r is Wait,
            state != VmState::Active && deadline_passed ==> (r matches PollStep::GiveUp(
                VmError::StateTimeout { operation, timeout_secs: t },
            ) && operation@ == "ensure_active"@ && t == timeout_secs),
    {
        if state.is_active() {
            return PollStep::Reached;
        }
        if deadline_passed {
            return PollStep::GiveUp(
                VmError::StateTimeout { operation: owned("ensure_active"), timeout_secs },
            );
        }
        PollStep::Wait
    }

    /// One poll of `graceful_shutdown`: done once off; past the deadline, destroy; otherwise
    /// wait.
    pub fn shutdown_step(&self, state: VmState, deadline_passed: bool) -> (r: ShutdownStep)
        ensures
            state == VmState::Off ==> r == ShutdownStep::Off,
            state != VmState::Off && deadline_passed ==> r == ShutdownStep::Destroy,
            state != VmState::Off && !deadline_passed ==> r == ShutdownStep::Wait,
    {
        if state == VmState::Off {
            ShutdownStep::Off
        } else if deadline_passed {
            ShutdownStep::Destroy
        } else {
            ShutdownStep::Wait
        }
    }
}

/// How many times a guest command's status has been polled, against the allowed count.
#[derive(Debug, Clone, Copy)]
pub struct GuestCommandPoll {
    polls_done: usize,
    poll_count: usize,
}

/// What one status reply of a running guest command decided.
#[derive(Debug, Clone)]
pub enum GuestPollStep {
    /// The process exited with this status.
    Finished(GuestExecStatus),
    /// Still running: poll again after the interval.
    PollAgain,
    /// Still running after the allowed number of polls.
    TimedOut,
}

impl GuestCommandPoll {
    pub closed spec fn spec_polls_done(&self) -> nat {
        self.polls_done as nat
    }

    pub closed spec fn spec_poll_count(&self) -> nat {
        self.poll_count as nat
    }

    /// A poll budget of `poll_count` status queries.
    pub fn new(poll_count: usize) -> (r: Self)
        ensures
            r.spec_polls_done() == 0,
            r.spec_poll_count() == poll_count,
    {
        GuestCommandPoll { polls_done: 0, poll_count }
    }

    /// Whether another status query is allowed.
    pub fn should_poll(&self) -> (r: bool)
        ensures
            r == (self.spec_polls_done() < self.spec_poll_count()),
    {
        self.polls_done < self.poll_count
    }

    /// Records the outcome of one status query: an exited process finishes the command; a
    /// running one uses up a poll, and the last allowed poll times the command out.
    pub fn on_status(&mut self, status: Option<GuestExecStatus>) -> (r: GuestPollStep)
        requires
            old(self).spec_polls_done() < old(self).spec_poll_count(),
        ensures
            final(self).spec_poll_count() == old(self).spec_poll_count(),
            status matches Some(st) ==> (r matches GuestPollStep::Finished(t) && t == st)
                && final(self).spec_polls_done() == old(self).spec_polls_done(),
            status is None ==> final(self).spec_polls_done() == old(self).spec_polls_done() + 1,
            status is None && old(self).spec_polls_done() + 1 < old(self).spec_poll_count() ==> r is PollAgain,
            status is None && old(self).spec_polls_done() + 1 == old(self).spec_poll_count() ==> r is TimedOut,
    {
        match status {
            Some(st) => GuestPollStep::Finished(st),
            None => {
                self.polls_done = self.polls_done + 1;
                if self.polls_done < self.poll_count {
                    GuestPollStep::PollAgain
                } else {
                    GuestPollStep::TimedOut
                }
            },
        }
    }
}

/// The opening of a disk element, `<disk `.
pub open spec fn disk_open() -> Seq<char> {
    seq!['<', 'd', 'i', 's', 'k', ' ']
}

/// The part of the domain XML that `str::split("<disk ")` yields after the occurrence of
/// `<disk ` that ends at `start`: up to the next `<disk `, or the end.
pub open spec fn disk_piece(xml: Seq<char>, start: int) -> Seq<char> {
    let end = match find_at(xml, disk_open(), start) {
        Some(j) => j,
        None => xml.len() as int,
    };
    xml.subrange(start, end)
}

/// One disk element as the parser sees it: `<disk ` and its piece up to the first `</disk>`.
pub open spec fn disk_element(xml: Seq<char>, start: int) -> Seq<char> {
    let piece = disk_piece(xml, start);
    let body = match find_at(piece, "</disk>"@, 0) {
        Some(k) => piece.subrange(0, k),
        None => piece,
    };
    disk_open() + body
}

/// Whether a disk element declares a CD-ROM device, in either quoting.
pub open spec fn is_cdrom_disk(disk: Seq<char>) -> bool {
    find_at(disk, "device='cdrom'"@, 0) is Some || find_at(disk, "device=\"cdrom\""@, 0) is Some
}

/// The value of `attr` quoted with `quote` in an element's text: after the first `attr=` and
/// the quote, up to the next quote.
pub open spec fn attr_in(element: Seq<char>, attr: Seq<char>, quote: char) -> Option<Seq<char>> {
    let m = attr + seq!['=', quote];
    match find_at(element, m, 0) {
        None => None,
        Some(a) => {
            let rest = element.subrange(a + m.len(), element.len() as int);
            match find_at(rest, seq![quote], 0) {
                None => None,
                Some(e) => Some(rest.subrange(0, e)),
            }
        },
    }
}

/// The value of attribute `attr` on the first `<element ` tag of `xml`: the text of the tag up
/// to its first `>` is searched for a single-quoted value, then a double-quoted one.
pub open spec fn spec_xml_attr(xml: Seq<char>, element: Seq<char>, attr: Seq<char>) -> Option<Seq<char>> {
    match find_at(xml, "<"@ + element + " "@, 0) {
        None => None,
        Some(es) => match find_at(xml, ">"@, es) {
            None => None,
            Some(gt) => {
                let tag = xml.subrange(es, gt);
                match attr_in(tag, attr, '\'') {
                    Some(v) => Some(v),
                    None => attr_in(tag, attr, '"'),
                }
            },
        },
    }
}

/// A CD-ROM of the domain: its target device (`unknown` when the XML names none) and its
/// source file, if any.
pub open spec fn cdrom_of(disk: Seq<char>) -> (Seq<char>, Option<Seq<char>>) {
    (
        match spec_xml_attr(disk, "target"@, "dev"@) {
            Some(t) => t,
            None => "unknown"@,
        },
        spec_xml_attr(disk, "source"@, "file"@),
    )
}

/// The CD-ROMs among the disk elements that follow position `pos` of the domain XML, in
/// document order.
pub open spec fn cdroms_from(xml: Seq<char>, pos: int) -> Seq<(Seq<char>, Option<Seq<char>>)>
    decreases xml.len() + 1 - pos,
{
    match find_at(xml, disk_open(), pos) {
        None => Seq::empty(),
        Some(i) => {
            proof {
                lemma_find_at_bounds(xml, disk_open(), pos);
            }
            let disk = disk_element(xml, i + 6);
            let rest = cdroms_from(xml, i + 6);
            if is_cdrom_disk(disk) {
                seq![cdrom_of(disk)] + rest
            } else {
                rest
            }
        },
    }
}

/// The CD-ROM devices of a libvirt domain XML.
pub open spec fn spec_cdroms(xml: Seq<char>) -> Seq<(Seq<char>, Option<Seq<char>>)> {
    cdroms_from(xml, 0)
}

/// The first index at or after `from` where `needle` occurs in `cs`, given as a string.
fn find_str(cs: &[char], needle: &str, from: usize) -> (r: Option<usize>)
    requires
        from <= cs.len(),
    ensures
        r matches Some(i) ==> find_at(cs@, needle@, from as int) == Some(i as int),
        r is None ==> find_at(cs@, needle@, from as int) is None,
{
    let n = to_chars(needle);
    find_at_exec(cs, n.as_slice(), from)
}

/// `attr_in` on a slice of characters.
fn attr_in_exec(element: &[char], attr: &str, quote: char) -> (r: Option<String>)
    ensures
        opt_view(r) == attr_in(element@, attr@, quote),
{
    let mut m = to_chars(attr);
    m.push('=');
    m.push(quote);
    assert(m@ == attr@ + seq!['=', quote]);
    let a = match find_at_exec(element, m.as_slice(), 0) {
        Some(a) => a,
        None => {
            return None;
        },
    };
    proof {
        lemma_find_at_bounds(element@, m@, 0);
    }
    let rest = slice_range(element, a + m.len(), element.len());
    let q: Vec<char> = vec![quote];
    assert(q@ == seq![quote]);
    let e = match find_at_exec(rest, q.as_slice(), 0) {
        Some(e) => e,
        None => {
            return None;
        },
    };
    proof {
        lemma_find_at_bounds(rest@, q@, 0);
    }
    Some(from_chars(slice_range(rest, 0, e)))
}

/// The value of attribute `attr` on the first `<element ` tag of `xml` (see `spec_xml_attr`).
pub fn xml_attr_value(xml: &str, element: &str, attr: &str) -> (r: Option<String>)
    ensures
        opt_view(r) == spec_xml_attr(xml@, element@, attr@),
{
    let cs = to_chars(xml);
    let mut marker = owned("<");
    push_str(&mut marker, element);
    push_str(&mut marker, " ");
    let es = match find_str(cs.as_slice(), marker.as_str(), 0) {
        Some(es) => es,
        None => {
            return None;
        },
    };
    proof {
        lemma_find_at_bounds(cs@, marker@, 0);
    }
    let gt = match find_str(cs.as_slice(), ">", es) {
        Some(gt) => gt,
        None => {
            return None;
        },
    };
    proof {
        lemma_find_at_bounds(cs@, ">"@, es as int);
    }
    let tag = slice_range(cs.as_slice(), es, gt);
    match attr_in_exec(tag, attr, '\'') {
        Some(v) => Some(v),
        None => attr_in_exec(tag, attr, '"'),
    }
}

/// A CD-ROM device of the domain as the XML declares it.
#[derive(Debug, Clone, PartialEq, Eq)]
pub struct CdromDisk {
    pub target: String,
    pub source: Option<String>,
}

pub open spec fn cdrom_disk_view(d: CdromDisk) -> (Seq<char>, Option<Seq<char>>) {
    (d.target@, opt_view(d.source))
}

/// The disk element that follows the `<disk ` ending at `start`, as a string.
fn disk_element_exec(cs: &[char], start: usize) -> (r: String)
    requires
        start <= cs.len(),
    ensures
        r@ == disk_element(cs@, start as int),
{
    let open: Vec<char> = vec!['<', 'd', 'i', 's', 'k', ' '];
    assert(open@ == disk_open());
    let end = match find_at_exec(cs, open.as_slice(), start) {
        Some(j) => j,
        None => cs.len(),
    };
    proof {
        lemma_find_at_bounds(cs@, disk_open(), start as int);
    }
    let piece = slice_range(cs, start, end);
    let body_end = match find_str(piece, "</disk>", 0) {
        Some(k) => k,
        None => piece.len(),
    };
    proof {
        lemma_find_at_bounds(piece@, "</disk>"@, 0);
        assert(piece@.subrange(0, piece@.len() as int) == piece@);
    }
    let mut disk = from_chars(open.as_slice());
    push_chars(&mut disk, slice_range(piece, 0, body_end));
    disk
}

/// The CD-ROM devices of a libvirt domain XML, in document order: each `<disk ` element with
/// `device='cdrom'` (or double quotes), with the `dev` of its `<target>` (`unknown` when
/// absent) and the `file` of its `<source>`.
pub fn cdrom_disks_from_domain_xml(xml: &str) -> (r: Vec<CdromDisk>)
    ensures
        r@.map_values(|d: CdromDisk| cdrom_disk_view(d)) == spec_cdroms(xml@),
{
    let cs = to_chars(xml);
    let open: Vec<char> = vec!['<', 'd', 'i', 's', 'k', ' '];
    let mut out: Vec<CdromDisk> = Vec::new();
    let mut pos: usize = 0;
    assert(open@ == disk_open());
    loop
        invariant
            pos <= cs.len(),
            cs@ == xml@,
            open@ == disk_open(),
            spec_cdroms(xml@) == out@.map_values(|d: CdromDisk| cdrom_disk_view(d)) + cdroms_from(
                cs@,
                pos as int,
            ),
        decreases cs.len() + 1 - pos,
    {
        let i = match find_at_exec(cs.as_slice(), open.as_slice(), pos) {
            Some(i) => i,
            None => {
                assert(cdroms_from(cs@, pos as int) == Seq::<(Seq<char>, Option<Seq<char>>)>::empty());
                assert(out@.map_values(|d: CdromDisk| cdrom_disk_view(d)) + Seq::<(Seq<char>, Option<Seq<char>>)>::empty()
                    == out@.map_values(|d: CdromDisk| cdrom_disk_view(d)));
                return out;
            },
        };
        proof {
            lemma_find_at_bounds(cs@, disk_open(), pos as int);
        }
        let start = i + 6;
        let disk = disk_element_exec(cs.as_slice(), start);
        let dc = to_chars(disk.as_str());
        let d1 = find_str(dc.as_slice(), "device='cdrom'", 0);
        let d2 = find_str(dc.as_slice(), "device=\"cdrom\"", 0);
        let ghost before = out@;
        if d1.is_some() || d2.is_some() {
            let target = match xml_attr_value(disk.as_str(), "target", "dev") {
                Some(t) => t,
                None => owned("unknown"),
            };
            let source = xml_attr_value(disk.as_str(), "source", "file");
            let item = CdromDisk { target, source };
            assert(cdrom_disk_view(item) == cdrom_of(disk@));
            out.push(item);
            assert(out@.map_values(|d: CdromDisk| cdrom_disk_view(d)) == before.map_values(
                |d: CdromDisk| cdrom_disk_view(d),
            ) + seq![cdrom_of(disk@)]);
        }
        pos = start;
    }
}

/// An attached CD-ROM and whether its source file exists on the host.
#[derive(Debug, Clone, PartialEq, Eq)]
pub struct AttachedCdrom {
    pub target: String,
    pub source: Option<String>,
    pub source_exists: bool,
}

impl AttachedCdrom {
    /// The attached CD-ROM for a declared one, given whether its source file exists; one
    /// without a source has no existing source.
    pub fn from_disk(disk: &CdromDisk, source_file_exists: bool) -> (r: Self)
        ensures
            r.target@ == disk.target@,
            opt_view(r.source) == opt_view(disk.source),
            r.source_exists == (disk.source is Some && source_file_exists),
    {
        let source = match &disk.source {
            Some(path) => Some(path.clone()),
            None => None,
        };
        AttachedCdrom {
            target: disk.target.clone(),
            source,
            source_exists: disk.source.is_some() && source_file_exists,
        }
    }
}

/// `std::path::Path::exists`: whether the path names something on the host. The answer depends
/// on the file system, so nothing is claimed of it.
#[verifier::external_body]
fn path_exists(path: &str) -> (r: bool) {
    std::path::Path::new(path).exists()
}

/// The CD-ROMs of a libvirt domain XML (see `cdrom_disks_from_domain_xml`), each with whether
/// its source file exists on the host.
pub fn attached_cdroms_from_domain_xml(xml: &str) -> (r: Vec<AttachedCdrom>)
    ensures
        r@.len() == spec_cdroms(xml@).len(),
        forall|i: int|
            0 <= i < r@.len() ==> (#[trigger] r@[i]).target@ == spec_cdroms(xml@)[i].0 && opt_view(
                r@[i].source,
            ) == spec_cdroms(xml@)[i].1 && (r@[i].source is None ==> !r@[i].source_exists),
{
    let disks = cdrom_disks_from_domain_xml(xml);
    let mut out: Vec<AttachedCdrom> = Vec::new();
    let mut k: usize = 0;
    while k < disks.len()
        invariant
            k <= disks@.len(),
            out@.len() == k,
            disks@.map_values(|d: CdromDisk| cdrom_disk_view(d)) == spec_cdroms(xml@),
            forall|i: int|
                0 <= i < k ==> (#[trigger] out@[i]).target@ == disks@[i].target@ && opt_view(
                    out@[i].source,
                ) == opt_view(disks@[i].source) && (out@[i].source is None ==> !out@[i].source_exists),
        decreases disks@.len() - k,
    {
        let disk = &disks[k];
        let exists = match &disk.source {
            Some(path) => path_exists(path.as_str()),
            None => false,
        };
        out.push(AttachedCdrom::from_disk(disk, exists));
        assert(disks@.map_values(|d: CdromDisk| cdrom_disk_view(d))[k as int] == cdrom_disk_view(disks@[k as int]));
        k = k + 1;
    }
    assert forall|i: int| 0 <= i < out@.len() implies (#[trigger] out@[i]).target@ == spec_cdroms(xml@)[i].0
        && opt_view(out@[i].source) == spec_cdroms(xml@)[i].1 by {
        assert(disks@.map_values(|d: CdromDisk| cdrom_disk_view(d))[i] == cdrom_disk_view(disks@[i]));
    }
    out
}

/// A lower-case hexadecimal digit.
pub open spec fn hex_digit(n: int) -> char {
    seq!['0', '1', '2', '3', '4', '5', '6', '7', '8', '9', 'a', 'b', 'c', 'd', 'e', 'f'][n]
}

/// How `serde_json` writes one character inside a JSON string: `"` and `\` behind a backslash;
/// backspace, tab, line feed, form feed and carriage return as `\b`, `\t`, `\n`, `\f`, `\r`;
/// any other character below U+0020 as `\u00` and two lower-case hex digits; every other
/// character as itself.
pub open spec fn json_escape_char(c: char) -> Seq<char> {
    let n = c as int;
    if c == '"' {
        seq!['\\', '"']
    } else if c == '\\' {
        seq!['\\', '\\']
    } else if n == 0x08 {
        seq!['\\', 'b']
    } else if n == 0x09 {
        seq!['\\', 't']
    } else if n == 0x0A {
        seq!['\\', 'n']
    } else if n == 0x0C {
        seq!['\\', 'f']
    } else if n == 0x0D {
        seq!['\\', 'r']
    } else if n < 0x20 {
        seq!['\\', 'u', '0', '0', hex_digit(n / 16), hex_digit(n % 16)]
    } else {
        seq![c]
    }
}

/// The characters of a string, each escaped as `json_escape_char` says.
pub open spec fn json_escape(s: Seq<char>) -> Seq<char>
    decreases s.len(),
{
    if s.len() == 0 {
        Seq::empty()
    } else {
        json_escape(s.drop_last()) + json_escape_char(s.last())
    }
}

/// The JSON string literal that `serde_json` writes for a string: the escaped characters
/// between double quotes.
pub open spec fn spec_json_string(s: Seq<char>) -> Seq<char> {
    seq!['"'] + json_escape(s) + seq!['"']
}

/// `serde_json::to_string` of a string slice: its JSON string literal, escaped by serde_json's
/// table (`ser.rs`, `format_escaped_str_contents`). Serializing a `str` cannot fail.
#[verifier::external_body]
fn json_string(s: &str) -> (r: String)
    ensures
        r@ == spec_json_string(s@),
{
    match serde_json::to_string(s) {
        Ok(text) => text,
        Err(_) => String::new(),
    }
}

/// The guest-exec request that runs a PowerShell command hidden, as `serde_json` writes the
/// request object (keys in sorted order).
pub open spec fn spec_guest_exec_command(command: Seq<char>, capture_output: bool) -> Seq<char> {
    "{\"arguments\":{\"arg\":[\"-ExecutionPolicy\",\"Bypass\",\"-NoProfile\",\"-WindowStyle\",\"Hidden\",\"-Command\","@
        + spec_json_string(command) + "],\"capture-output\":"@ + (if capture_output {
        "true"@
    } else {
        "false"@
    }) + ",\"path\":\"powershell.exe\"},\"execute\":\"guest-exec\"}"@
}

pub fn powershell_guest_exec_command(command: &str, capture_output: bool) -> (r: String)
    ensures
        r@ == spec_guest_exec_command(command@, capture_output),
{
    let mut out = owned(
        "{\"arguments\":{\"arg\":[\"-ExecutionPolicy\",\"Bypass\",\"-NoProfile\",\"-WindowStyle\",\"Hidden\",\"-Command\",",
    );
    let literal = json_string(command);
    push_str(&mut out, literal.as_str());
    push_str(&mut out, "],\"capture-output\":");
    if capture_output {
        push_str(&mut out, "true");
    } else {
        push_str(&mut out, "false");
    }
    push_str(&mut out, ",\"path\":\"powershell.exe\"},\"execute\":\"guest-exec\"}");
    out
}

/// The guest-exec-status request for a process id.
pub open spec fn spec_guest_exec_status_command(pid: i64) -> Seq<char> {
    "{\"arguments\":{\"pid\":"@ + signed_decimal(pid as int) + "},\"execute\":\"guest-exec-status\"}"@
}

pub fn guest_exec_status_command(pid: i64) -> (r: String)
    ensures
        r@ == spec_guest_exec_status_command(pid),
{
    let mut out = owned("{\"arguments\":{\"pid\":");
    push_signed_decimal(&mut out, pid);
    push_str(&mut out, "},\"execute\":\"guest-exec-status\"}");
    out
}

/// The PowerShell script that restarts and positions KakaoTalk from an interactive scheduled
/// task in the logged-in session.
pub const KAKAOTALK_REPAIR_SCRIPT: &'static str = "$ErrorActionPreference = 'Stop'\n$script = 'C:\\winbridge\\position-kakaotalk.ps1'\nif (-not (Test-Path $script)) { throw 'position-kakaotalk.ps1 not found.' }\n$repairScript = 'C:\\winbridge\\repair-kakaotalk-interactive.ps1'\n$repairContent = @'\n$ErrorActionPreference = 'Stop'\n$script = 'C:\\winbridge\\position-kakaotalk.ps1'\nif (-not (Test-Path $script)) { throw 'position-kakaotalk.ps1 not found.' }\n$content = Get-Content -Path $script -Raw -ErrorAction Stop\nif ($content -match '\\[switch\\]\\$Restart') {\n    & $script -Restart\n} else {\n    Get-Process -Name 'KakaoTalk' -ErrorAction SilentlyContinue | Stop-Process -Force -ErrorAction SilentlyContinue\n    Start-Sleep -Milliseconds 500\n    & $script\n}\n'@\nSet-Content -Path $repairScript -Value $repairContent -Encoding UTF8\n$taskName = 'RepairKakaoTalk'\n$taskPath = '\\Winbridge\\'\n$argument = '-ExecutionPolicy Bypass -NoProfile -WindowStyle Hidden -File \"' + $repairScript + '\"'\n$action = New-ScheduledTaskAction -Execute 'powershell.exe' -Argument $argument\n$principal = New-ScheduledTaskPrincipal -UserId 'Administrator' -LogonType Interactive -RunLevel Highest\n$settings = New-ScheduledTaskSettingsSet -AllowStartIfOnBatteries -DontStopIfGoingOnBatteries -ExecutionTimeLimit (New-TimeSpan -Minutes 2)\nRegister-ScheduledTask -TaskPath $taskPath -TaskName $taskName -Action $action -Principal $principal -Settings $settings -Force | Out-Null\nStart-ScheduledTask -TaskPath $taskPath -TaskName $taskName\nStart-Sleep -Seconds 2\n$info = Get-ScheduledTaskInfo -TaskPath $taskPath -TaskName $taskName\n$task = Get-ScheduledTask -TaskPath $taskPath -TaskName $taskName\n$result = [int]$info.LastTaskResult\nif ($result -ne 0 -and $result -ne 267009) { throw \"KakaoTalk interactive repair task result=$result state=$($task.State)\" }\nWrite-Host \"KakaoTalk interactive repair task triggered: state=$($task.State), result=$result\"";

/// The PowerShell script that collects the guest diagnostics as JSON.
pub const GUEST_DIAGNOSTICS_SCRIPT: &'static str = "$ErrorActionPreference = 'Stop'; $desktop = Get-ItemProperty -Path 'HKCU:\\Control Panel\\Desktop' -ErrorAction SilentlyContinue; $wallpaper = if ($desktop -and $desktop.Wallpaper) { [string]$desktop.Wallpaper } else { '' }; $themeCachePath = Join-Path $env:APPDATA 'Microsoft\\Windows\\Themes\\TranscodedWallpaper'; $themeCache = Get-Item -LiteralPath $themeCachePath -ErrorAction SilentlyContinue; $themes = Get-Service -Name Themes -ErrorAction SilentlyContinue; $kakao = @(Get-Process -Name KakaoTalk -ErrorAction SilentlyContinue); $main = $kakao | Where-Object { $_.MainWindowHandle -ne 0 } | Select-Object -First 1; $drive = Get-PSDrive -Name C -ErrorAction Stop; $rebootKeys = @( 'HKLM:\\SOFTWARE\\Microsoft\\Windows\\CurrentVersion\\Component Based Servicing\\RebootPending', 'HKLM:\\SOFTWARE\\Microsoft\\Windows\\CurrentVersion\\WindowsUpdate\\Auto Update\\RebootRequired' ); $rebootPending = $false; foreach ($key in $rebootKeys) { if (Test-Path $key) { $rebootPending = $true } }; $sessionManager = Get-ItemProperty -Path 'HKLM:\\SYSTEM\\CurrentControlSet\\Control\\Session Manager' -ErrorAction SilentlyContinue; if ($sessionManager -and $sessionManager.PendingFileRenameOperations) { $rebootPending = $true }; $wuRebootRequired = Test-Path 'HKLM:\\SOFTWARE\\Microsoft\\Windows\\CurrentVersion\\WindowsUpdate\\Auto Update\\RebootRequired'; [pscustomobject]@{ wallpaper = [pscustomobject]@{ path = $wallpaper; sourceReachable = [bool]($wallpaper -and (Test-Path -LiteralPath $wallpaper)); themeCacheReachable = [bool]$themeCache; themeCacheBytes = if ($themeCache) { [uint64]$themeCache.Length } else { [uint64]0 } }; themes = [pscustomobject]@{ status = if ($themes) { [string]$themes.Status } else { 'missing' } }; kakaotalk = [pscustomobject]@{ processCount = [uint32]$kakao.Count; hasMainWindow = [bool]$main }; disk = [pscustomobject]@{ freeGb = [math]::Round($drive.Free / 1GB, 1) }; updates = [pscustomobject]@{ rebootPending = [bool]$rebootPending; windowsUpdateRebootRequired = [bool]$wuRebootRequired } } | ConvertTo-Json -Compress -Depth 5";

/// The PowerShell script that restores the wallpaper from a reachable source or the theme
/// cache.
pub const REPAIR_WALLPAPER_SCRIPT: &'static str = "$ErrorActionPreference = 'Stop'; New-Item -Path 'C:\\winbridge' -ItemType Directory -Force | Out-Null; $desktop = Get-ItemProperty -Path 'HKCU:\\Control Panel\\Desktop' -ErrorAction SilentlyContinue; $current = if ($desktop -and $desktop.Wallpaper) { [string]$desktop.Wallpaper } else { '' }; $themeCache = Join-Path $env:APPDATA 'Microsoft\\Windows\\Themes\\TranscodedWallpaper'; $stable = 'C:\\winbridge\\wallpaper.jpg'; if ($current -and (Test-Path -LiteralPath $current)) { Copy-Item -LiteralPath $current -Destination $stable -Force; } elseif (Test-Path -LiteralPath $themeCache) { Copy-Item -LiteralPath $themeCache -Destination $stable -Force; } else { throw 'No reachable wallpaper source or TranscodedWallpaper cache found.'; }; Set-ItemProperty -Path 'HKCU:\\Control Panel\\Desktop' -Name Wallpaper -Value $stable; Set-ItemProperty -Path 'HKCU:\\Control Panel\\Desktop' -Name WallpaperStyle -Value '10'; Set-ItemProperty -Path 'HKCU:\\Control Panel\\Desktop' -Name TileWallpaper -Value '0'; Start-Service -Name Themes -ErrorAction SilentlyContinue; Add-Type -Namespace Winbridge -Name Wallpaper -MemberDefinition '[DllImport(\"user32.dll\", SetLastError=true, CharSet=CharSet.Unicode)] public static extern bool SystemParametersInfo(int action, int param, string value, int flags);'; if (-not [Winbridge.Wallpaper]::SystemParametersInfo(20, 0, $stable, 3)) { throw 'SystemParametersInfo failed.'; }; Write-Host \"Wallpaper repaired: $stable\"";

pub fn kakaotalk_repair_powershell_command() -> (r: &'static str)
    ensures
        r@ == KAKAOTALK_REPAIR_SCRIPT@,
{
    KAKAOTALK_REPAIR_SCRIPT
}

pub fn guest_diagnostics_powershell_command() -> (r: &'static str)
    ensures
        r@ == GUEST_DIAGNOSTICS_SCRIPT@,
{
    GUEST_DIAGNOSTICS_SCRIPT
}

pub fn repair_wallpaper_powershell_command() -> (r: &'static str)
    ensures
        r@ == REPAIR_WALLPAPER_SCRIPT@,
{
    REPAIR_WALLPAPER_SCRIPT
}

/// The guest-exec request that runs the KakaoTalk repair with its output captured.
pub fn kakaotalk_repair_guest_exec_command() -> (r: String)
    ensures
        r@ == spec_guest_exec_command(KAKAOTALK_REPAIR_SCRIPT@, true),
{
    powershell_guest_exec_command(kakaotalk_repair_powershell_command(), true)
}

/// The members of a guest-exec-status reply's `return` object that the manager reads:
/// `exited` as a boolean, `exitcode` as an integer, and the base64 `out-data` / `err-data`
/// strings, each where present with that type.
#[derive(Debug, Clone)]
pub struct ExecStatusFields {
    pub exited: Option<bool>,
    pub exitcode: Option<i64>,
    pub out_data: Option<String>,
    pub err_data: Option<String>,
}

/// `ExecStatusFields` as plain values.
pub type ExecStatusFieldsView = (Option<bool>, Option<i64>, Option<Seq<char>>, Option<Seq<char>>);

pub open spec fn fields_view(f: ExecStatusFields) -> ExecStatusFieldsView {
    (f.exited, f.exitcode, opt_view(f.out_data), opt_view(f.err_data))
}

/// A guest process that has exited.
#[derive(Debug, Clone, PartialEq, Eq)]
pub struct GuestExecStatus {
    pub exitcode: i64,
    pub stdout: String,
    pub stderr: String,
}

/// What the manager reads from a guest agent reply: the integer at `return.pid`, and the
/// members of the `return` object (see `ExecStatusFields`), where present.
#[derive(Debug, Clone)]
pub struct ReplyFields {
    pub pid: Option<i64>,
    pub ret: Option<ExecStatusFields>,
}

pub open spec fn opt_fields_view(f: Option<ExecStatusFields>) -> Option<ExecStatusFieldsView> {
    match f {
        Some(g) => Some(fields_view(g)),
        None => None,
    }
}

/// What `serde_json` reads from a guest agent reply parsed as a `serde_json::Value`: the
/// integer at `return.pid` and the members of the `return` object, where present; or the
/// message of the parse error when the reply is not JSON.
pub uninterp spec fn spec_qga_reply(response: Seq<char>) -> Result<(Option<i64>, Option<(Option<bool>, Option<i64>, Option<Seq<char>>, Option<Seq<char>>)>), Seq<char>>;

/// Parses a guest agent reply with `serde_json::from_str::<serde_json::Value>` and reads
/// `return.pid` and the members of `return` with `Value::get`, `as_i64`, `as_bool` and `as_str`;
/// a parse error becomes its message.
#[verifier::external_body]
fn read_qga_reply(response: &str) -> (r: Result<ReplyFields, String>)
    ensures
        r is Ok <==> spec_qga_reply(response@) is Ok,
        r matches Ok(f) ==> spec_qga_reply(response@)->Ok_0 == (f.pid, opt_fields_view(f.ret)),
        r matches Err(m) ==> spec_qga_reply(response@)->Err_0 == m@,
{
    let value = match serde_json::from_str::<serde_json::Value>(response) {
        Ok(value) => value,
        Err(err) => return Err(err.to_string()),
    };
    let ret = match value.get("return") {
        None => None,
        Some(ret) => Some(ExecStatusFields {
            exited: ret.get("exited").and_then(serde_json::Value::as_bool),
            exitcode: ret.get("exitcode").and_then(serde_json::Value::as_i64),
            out_data: ret.get("out-data").and_then(serde_json::Value::as_str).map(str::to_string),
            err_data: ret.get("err-data").and_then(serde_json::Value::as_str).map(str::to_string),
        }),
    };
    Ok(ReplyFields { pid: value.pointer("/return/pid").and_then(serde_json::Value::as_i64), ret })
}

/// The `return.pid` part of a reading.
pub open spec fn reply_pid(r: Result<(Option<i64>, Option<ExecStatusFieldsView>), Seq<char>>) -> Result<Option<i64>, Seq<char>> {
    match r {
        Ok(f) => Ok(f.0),
        Err(e) => Err(e),
    }
}

/// The `return` part of a reading.
pub open spec fn reply_ret(r: Result<(Option<i64>, Option<ExecStatusFieldsView>), Seq<char>>) -> Result<Option<ExecStatusFieldsView>, Seq<char>> {
    match r {
        Ok(f) => Ok(f.1),
        Err(e) => Err(e),
    }
}

/// The process id of a guest-exec reply from what was read of it: the pid, or a guest agent
/// error with the parse error's message, or one quoting the reply when it has no integer
/// `return.pid`.
pub fn exec_pid_from_reply(response: &str, reply: Result<Option<i64>, String>) -> (r: Result<i64, WinbridgeError>)
    ensures
        reply matches Ok(Some(p)) ==> (r matches Ok(q) && q == p),
        reply matches Ok(None) ==> (r matches Err(WinbridgeError::Vm(VmError::GuestAgent(m)))
            && m@ == "guest-exec response missing pid: "@ + response@),
        reply matches Err(err) ==> (r matches Err(WinbridgeError::Vm(VmError::GuestAgent(m)))
            && m@ == err@),
{
    match reply {
        Ok(Some(pid)) => Ok(pid),
        Ok(None) => {
            let mut m = owned("guest-exec response missing pid: ");
            push_str(&mut m, response);
            Err(WinbridgeError::Vm(VmError::GuestAgent(m)))
        },
        Err(err) => Err(WinbridgeError::Vm(VmError::GuestAgent(err))),
    }
}

/// The process id that a guest-exec reply announces (see `exec_pid_from_reply`).
pub fn guest_exec_pid(response: &str) -> (r: Result<i64, WinbridgeError>)
    ensures
        reply_pid(spec_qga_reply(response@)) matches Ok(Some(p)) ==> (r matches Ok(q) && q == p),
        reply_pid(spec_qga_reply(response@)) matches Ok(None) ==> (r matches Err(
            WinbridgeError::Vm(VmError::GuestAgent(m)),
        ) && m@ == "guest-exec response missing pid: "@ + response@),
        reply_pid(spec_qga_reply(response@)) matches Err(err) ==> (r matches Err(
            WinbridgeError::Vm(VmError::GuestAgent(m)),
        ) && m@ == err),
{
    let reply = match read_qga_reply(response) {
        Ok(fields) => Ok(fields.pid),
        Err(err) => Err(err),
    };
    exec_pid_from_reply(response, reply)
}

/// What the `base64` crate's standard engine decodes a string to, or the message of its error.
pub uninterp spec fn spec_base64_decode(s: Seq<char>) -> Result<Seq<u8>, Seq<char>>;

/// `base64::engine::general_purpose::STANDARD.decode`.
#[verifier::external_body]
fn base64_decode(s: &str) -> (r: Result<Vec<u8>, String>)
    ensures
        r is Ok <==> spec_base64_decode(s@) is Ok,
        r matches Ok(v) ==> v@ == spec_base64_decode(s@)->Ok_0,
        r matches Err(m) ==> m@ == spec_base64_decode(s@)->Err_0,
{
    match base64::engine::general_purpose::STANDARD.decode(s) {
        Ok(bytes) => Ok(bytes),
        Err(err) => Err(err.to_string()),
    }
}

/// The text `String::from_utf8_lossy` makes of bytes.
pub uninterp spec fn spec_utf8_lossy(bytes: Seq<u8>) -> Seq<char>;

/// `String::from_utf8_lossy`, owned.
#[verifier::external_body]
pub(crate) fn utf8_lossy(bytes: &[u8]) -> (r: String)
    ensures
        r@ == spec_utf8_lossy(bytes@),
{
    String::from_utf8_lossy(bytes).into_owned()
}

/// The text of base64 captured output: empty when absent.
pub open spec fn spec_decoded_output(data: Option<Seq<char>>) -> Result<Seq<char>, Seq<char>> {
    match data {
        None => Ok(Seq::empty()),
        Some(encoded) => match spec_base64_decode(encoded) {
            Ok(bytes) => Ok(spec_utf8_lossy(bytes)),
            Err(msg) => Err("guest-exec base64 decode failed: "@ + msg),
        },
    }
}

pub open spec fn opt_view(s: Option<String>) -> Option<Seq<char>> {
    match s {
        Some(t) => Some(t@),
        None => None,
    }
}

/// Decodes captured output.
pub fn decode_guest_exec_data(value: Option<String>) -> (r: Result<String, WinbridgeError>)
    ensures
        spec_decoded_output(opt_view(value)) matches Ok(text) ==> (r matches Ok(t) && t@ == text),
        spec_decoded_output(opt_view(value)) matches Err(msg) ==> (r matches Err(
            WinbridgeError::Vm(VmError::GuestAgent(m)),
        ) && m@ == msg),
{
    let encoded = match value {
        Some(e) => e,
        None => {
            return Ok(String::new());
        },
    };
    match base64_decode(encoded.as_str()) {
        Ok(bytes) => Ok(utf8_lossy(bytes.as_slice())),
        Err(msg) => {
            let mut m = owned("guest-exec base64 decode failed: ");
            push_str(&mut m, msg.as_str());
            Err(WinbridgeError::Vm(VmError::GuestAgent(m)))
        },
    }
}

/// What an exited guest process's status reply yields, from the members of its `return`
/// object: `None` unless `exited` is `true`; an error when the exit code is missing or an
/// output is not base64; otherwise the exit code and both decoded outputs.
pub open spec fn spec_exec_status(response: Seq<char>, f: ExecStatusFieldsView) -> Result<Option<(i64, Seq<char>, Seq<char>)>, Seq<char>> {
    if f.0 != Some(true) {
        Ok(None)
    } else if f.1 is None {
        Err("guest-exec-status missing exitcode: "@ + response)
    } else if spec_decoded_output(f.2) is Err {
        Err(spec_decoded_output(f.2)->Err_0)
    } else if spec_decoded_output(f.3) is Err {
        Err(spec_decoded_output(f.3)->Err_0)
    } else {
        Ok(Some((f.1->0, spec_decoded_output(f.2)->Ok_0, spec_decoded_output(f.3)->Ok_0)))
    }
}

/// Whether `r` is what `spec_exec_status` gives, with errors as guest agent errors.
pub open spec fn exec_status_matches(r: Result<Option<GuestExecStatus>, WinbridgeError>, s: Result<Option<(i64, Seq<char>, Seq<char>)>, Seq<char>>) -> bool {
    match s {
        Ok(None) => r matches Ok(None),
        Ok(Some(t)) => r matches Ok(Some(st)) && st.exitcode == t.0 && st.stdout@ == t.1
            && st.stderr@ == t.2,
        Err(msg) => r matches Err(WinbridgeError::Vm(VmError::GuestAgent(m))) && m@ == msg,
    }
}

/// The status of a guest process from what was read of a guest-exec-status reply: a guest
/// agent error with the parse error's message, or one quoting the reply when it lacks
/// `return`; otherwise as `spec_exec_status` says.
pub fn exec_status_from_reply(response: &str, reply: Result<Option<ExecStatusFields>, String>) -> (r: Result<Option<GuestExecStatus>, WinbridgeError>)
    ensures
        reply matches Err(err) ==> (r matches Err(WinbridgeError::Vm(VmError::GuestAgent(m)))
            && m@ == err@),
        reply matches Ok(None) ==> (r matches Err(WinbridgeError::Vm(VmError::GuestAgent(m)))
            && m@ == "guest-exec-status response missing return: "@ + response@),
        reply matches Ok(Some(f)) ==> exec_status_matches(r, spec_exec_status(response@, fields_view(f))),
{
    let fields = match reply {
        Err(err) => {
            return Err(WinbridgeError::Vm(VmError::GuestAgent(err)));
        },
        Ok(None) => {
            let mut m = owned("guest-exec-status response missing return: ");
            push_str(&mut m, response);
            return Err(WinbridgeError::Vm(VmError::GuestAgent(m)));
        },
        Ok(Some(f)) => f,
    };
    let exited = match fields.exited {
        Some(b) => b,
        None => false,
    };
    if !exited {
        return Ok(None);
    }
    let exitcode = match fields.exitcode {
        Some(c) => c,
        None => {
            let mut m = owned("guest-exec-status missing exitcode: ");
            push_str(&mut m, response);
            return Err(WinbridgeError::Vm(VmError::GuestAgent(m)));
        },
    };
    let stdout = match decode_guest_exec_data(fields.out_data) {
        Ok(t) => t,
        Err(e) => {
            return Err(e);
        },
    };
    let stderr = match decode_guest_exec_data(fields.err_data) {
        Ok(t) => t,
        Err(e) => {
            return Err(e);
        },
    };
    Ok(Some(GuestExecStatus { exitcode, stdout, stderr }))
}

/// The status of a guest process from a guest-exec-status reply (see
/// `exec_status_from_reply`): `None` while it runs.
pub fn guest_exec_status(response: &str) -> (r: Result<Option<GuestExecStatus>, WinbridgeError>)
    ensures
        reply_ret(spec_qga_reply(response@)) matches Err(err) ==> (r matches Err(
            WinbridgeError::Vm(VmError::GuestAgent(m)),
        ) && m@ == err),
        reply_ret(spec_qga_reply(response@)) matches Ok(None) ==> (r matches Err(
            WinbridgeError::Vm(VmError::GuestAgent(m)),
        ) && m@ == "guest-exec-status response missing return: "@ + response@),
        reply_ret(spec_qga_reply(response@)) matches Ok(Some(f)) ==> exec_status_matches(
            r,
            spec_exec_status(response@, f),
        ),
{
    let reply = match read_qga_reply(response) {
        Ok(fields) => Ok(fields.ret),
        Err(err) => Err(err),
    };
    exec_status_from_reply(response, reply)
}

/// Captured output with NUL padding and surrounding white space removed.
pub open spec fn clean_output(s: Seq<char>) -> Seq<char> {
    trim(trim_char(s, '\0'))
}

pub fn clean_guest_output(s: &str) -> (r: String)
    ensures
        r@ == clean_output(s@),
{
    let cs = to_chars(s);
    let (a, b) = strip_bounds_char(cs.as_slice(), 0, cs.len(), '\0');
    assert(cs@.subrange(0, cs@.len() as int) == cs@);
    let (c, d) = strip_bounds_ws(cs.as_slice(), a, b);
    from_chars(slice_range(cs.as_slice(), c, d))
}

/// The failure message of a guest command that exited non-zero.
pub open spec fn exit_failure_message(label: Seq<char>, st: GuestExecStatus) -> Seq<char> {
    label + " exited with code "@ + signed_decimal(st.exitcode as int) + "; stderr="@ + st.stderr@
        + "; stdout="@ + st.stdout@
}

/// What an exited guest command yields: its cleaned output on exit code 0, otherwise a guest
/// agent error quoting the code and both outputs. `label` names the command in the error.
pub fn exited_command_result(label: &str, status: GuestExecStatus) -> (r: Result<String, WinbridgeError>)
    ensures
        status.exitcode == 0 ==> (r matches Ok(out) && out@ == clean_output(status.stdout@)),
        status.exitcode != 0 ==> (r matches Err(WinbridgeError::Vm(VmError::GuestAgent(m))) && m@
            == exit_failure_message(label@, status)),
{
    if status.exitcode == 0 {
        return Ok(clean_guest_output(status.stdout.as_str()));
    }
    let mut m = owned(label);
    push_str(&mut m, " exited with code ");
    push_signed_decimal(&mut m, status.exitcode);
    push_str(&mut m, "; stderr=");
    push_str(&mut m, status.stderr.as_str());
    push_str(&mut m, "; stdout=");
    push_str(&mut m, status.stdout.as_str());
    Err(WinbridgeError::Vm(VmError::GuestAgent(m)))
}

/// The error when a guest command's status was polled the allowed number of times without it
/// exiting.
pub fn guest_command_timeout(label: &str) -> (r: WinbridgeError)
    ensures
        r matches WinbridgeError::Vm(VmError::GuestAgent(m)) && m@ == label@ + " timed out"@,
{
    let mut m = owned(label);
    push_str(&mut m, " timed out");
    WinbridgeError::Vm(VmError::GuestAgent(m))
}

/// The error when the guest diagnostics output is not the expected JSON.
pub fn guest_diagnostics_parse_error(err: &str, stdout: &str) -> (r: WinbridgeError)
    ensures
        r matches WinbridgeError::Vm(VmError::GuestAgent(m)) && m@
            == "failed to parse guest diagnostics JSON: "@ + err@ + "; stdout="@ + stdout@,
{
    let mut m = owned("failed to parse guest diagnostics JSON: ");
    push_str(&mut m, err);
    push_str(&mut m, "; stdout=");
    push_str(&mut m, stdout);
    WinbridgeError::Vm(VmError::GuestAgent(m))
}

} // verus!
