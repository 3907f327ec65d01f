//! The text clipboard shared between the host and the Windows session over the RDP
//! clipboard channel: which formats are offered and requested, what is answered, and how
//! text set from the remote side is kept from echoing back.
use vstd::prelude::*;

verus! {

/// The clipboard format id of ANSI text (`CF_TEXT`).
pub const CF_TEXT: u32 = 1;

/// The clipboard format id of UTF-16 text (`CF_UNICODETEXT`).
pub const CF_UNICODETEXT: u32 = 13;

/// The text formats the host offers, Unicode text first.
pub fn text_clipboard_formats() -> (r: Vec<u32>)
    ensures
        r@ == seq![CF_UNICODETEXT, CF_TEXT],
{
    let v: Vec<u32> = vec![CF_UNICODETEXT, CF_TEXT];
    v
}

/// The text format to request from a remote copy: Unicode text when offered, else ANSI text
/// when offered, else none.
pub open spec fn spec_select_text_format(available: Seq<u32>) -> Option<u32> {
    if available.contains(CF_UNICODETEXT) {
        Some(CF_UNICODETEXT)
    } else if available.contains(CF_TEXT) {
        Some(CF_TEXT)
    } else {
        None
    }
}

fn offers(available: &[u32], format: u32) -> (r: bool)
    ensures
        r == available@.contains(format),
{
    let mut i: usize = 0;
    while i < available.len()
        invariant
            i <= available.len(),
            forall|j: int| 0 <= j < i ==> available@[j] != format,
        decreases available.len() - i,
    {
        if available[i] == format {
            return true;
        }
        i = i + 1;
    }
    false
}

pub fn select_text_format(available: &[u32]) -> (r: Option<u32>)
    ensures
        r == spec_select_text_format(available@),
{
    if offers(available, CF_UNICODETEXT) {
        Some(CF_UNICODETEXT)
    } else if offers(available, CF_TEXT) {
        Some(CF_TEXT)
    } else {
        None
    }
}

/// The answer to a request for clipboard data: the text in the requested encoding, or an
/// error response.
#[derive(Debug, Clone, PartialEq, Eq)]
pub enum FormatDataReply {
    UnicodeText(String),
    Text(String),
    Error,
}

pub open spec fn spec_format_data_reply(format: u32, text: Seq<char>, r: FormatDataReply) -> bool {
    if format == CF_UNICODETEXT {
        r matches FormatDataReply::UnicodeText(t) && t@ == text
    } else if format == CF_TEXT {
        r matches FormatDataReply::Text(t) && t@ == text
    } else {
        r is Error
    }
}

/// The answer carrying `text` in the requested format; an error for any other format.
pub fn format_data_response_for_text(format: u32, text: &str) -> (r: FormatDataReply)
    ensures
        spec_format_data_reply(format, text@, r),
{
    if format == CF_UNICODETEXT {
        FormatDataReply::UnicodeText(text.to_string())
    } else if format == CF_TEXT {
        FormatDataReply::Text(text.to_string())
    } else {
        FormatDataReply::Error
    }
}

/// The answer to a request for clipboard data in `format`, given the host text.
pub open spec fn format_data_answer(local_text: Option<Seq<char>>, format: u32, reply: FormatDataReply) -> bool {
    match local_text {
        Some(text) => spec_format_data_reply(format, text, reply),
        None => reply is Error,
    }
}

/// A message for the clipboard channel.
#[derive(Debug, Clone, PartialEq, Eq)]
pub enum ClipboardMessage {
    /// Announce that the host has clipboard data in these formats.
    InitiateCopy(Vec<u32>),
    /// Answer a request for clipboard data.
    FormatData(FormatDataReply),
    /// Ask the remote side for its clipboard data in this format.
    InitiatePaste(u32),
}

/// How the data of an answered paste is to be decoded.
#[derive(Debug, Clone, Copy, PartialEq, Eq, Structural)]
pub enum TextDecoding {
    /// UTF-16 text (`CF_UNICODETEXT`).
    Unicode,
    /// ANSI text (`CF_TEXT`).
    Ansi,
}

/// The text clipboard state of one RDP session: the latest host text, and the format
/// requested from the remote side's latest copy.
#[derive(Debug, Default)]
pub struct TextClipboardState {
    local_text: Option<String>,
    pending_remote_format: Option<u32>,
}

pub open spec fn opt_text(s: Option<String>) -> Option<Seq<char>> {
    match s {
        Some(t) => Some(t@),
        None => None,
    }
}

impl TextClipboardState {
    pub closed spec fn spec_local_text(&self) -> Option<Seq<char>> {
        opt_text(self.local_text)
    }

    pub closed spec fn spec_pending_format(&self) -> Option<u32> {
        self.pending_remote_format
    }

    /// The state of a new session: no text on either side yet.
    pub fn new() -> (r: Self)
        ensures
            r.spec_local_text() is None,
            r.spec_pending_format() is None,
    {
        TextClipboardState { local_text: None, pending_remote_format: None }
    }

    /// Records the host clipboard's text.
    pub fn set_local_text(&mut self, text: String)
        ensures
            final(self).spec_local_text() == Some(text@),
            final(self).spec_pending_format() == old(self).spec_pending_format(),
    {
        self.local_text = Some(text);
    }

    /// The host clipboard changed: record the text and announce the text formats.
    pub fn on_local_text_changed(&mut self, text: String) -> (r: ClipboardMessage)
        ensures
            final(self).spec_local_text() == Some(text@),
            final(self).spec_pending_format() == old(self).spec_pending_format(),
            r matches ClipboardMessage::InitiateCopy(f) && f@ == seq![CF_UNICODETEXT, CF_TEXT],
    {
        self.set_local_text(text);
        ClipboardMessage::InitiateCopy(text_clipboard_formats())
    }

    /// The remote side asks for the format list: announce the text formats when the host has
    /// text.
    pub fn on_request_format_list(&self) -> (r: Option<ClipboardMessage>)
        ensures
            self.spec_local_text() is None ==> r is None,
            self.spec_local_text() is Some ==> (r matches Some(ClipboardMessage::InitiateCopy(f))
                && f@ == seq![CF_UNICODETEXT, CF_TEXT]),
    {
        if self.local_text.is_some() {
            Some(ClipboardMessage::InitiateCopy(text_clipboard_formats()))
        } else {
            None
        }
    }

    /// The remote side copied data in the given formats: remember the text format to request
    /// and ask for it, if there is one.
    pub fn on_remote_copy(&mut self, available: &[u32]) -> (r: Option<ClipboardMessage>)
        ensures
            final(self).spec_pending_format() == spec_select_text_format(available@),
            final(self).spec_local_text() == old(self).spec_local_text(),
            spec_select_text_format(available@) matches Some(f) ==> r == Some(
                ClipboardMessage::InitiatePaste(f),
            ),
            spec_select_text_format(available@) is None ==> r is None,
    {
        let requested = select_text_format(available);
        self.pending_remote_format = requested;
        match requested {
            Some(format) => Some(ClipboardMessage::InitiatePaste(format)),
            None => None,
        }
    }

    /// The remote side asks for the host's data in a format: the host text in that format, or
    /// an error response when the host has no text or the format is not a text format.
    pub fn on_format_data_request(&self, format: u32) -> (r: ClipboardMessage)
        ensures
            r matches ClipboardMessage::FormatData(reply) && format_data_answer(
                self.spec_local_text(),
                format,
                reply,
            ),
    {
        match &self.local_text {
            Some(text) => ClipboardMessage::FormatData(format_data_response_for_text(format, text.as_str())),
            None => ClipboardMessage::FormatData(FormatDataReply::Error),
        }
    }

    /// How to decode the remote side's answer to a paste: not at all when it is an error or
    /// nothing was requested; otherwise by the requested format.
    pub fn response_decoding(&self, is_error: bool) -> (r: Option<TextDecoding>)
        ensures
            is_error ==> r is None,
            !is_error && self.spec_pending_format() == Some(CF_UNICODETEXT) ==> r == Some(
                TextDecoding::Unicode,
            ),
            !is_error && self.spec_pending_format() == Some(CF_TEXT) ==> r == Some(TextDecoding::Ansi),
            !is_error && self.spec_pending_format() != Some(CF_UNICODETEXT)
                && self.spec_pending_format() != Some(CF_TEXT) ==> r is None,
    {
        if is_error {
            return None;
        }
        match self.pending_remote_format {
            Some(format) => {
                if format == CF_UNICODETEXT {
                    Some(TextDecoding::Unicode)
                } else if format == CF_TEXT {
                    Some(TextDecoding::Ansi)
                } else {
                    None
                }
            },
            None => None,
        }
    }

    /// The remote side's text arrived: it becomes the host text, and is handed to the host
    /// clipboard.
    pub fn on_remote_text(&mut self, text: String) -> (r: String)
        ensures
            r@ == text@,
            final(self).spec_local_text() == Some(text@),
            final(self).spec_pending_format() == old(self).spec_pending_format(),
    {
        let out = text.clone();
        self.local_text = Some(text);
        out
    }
}

/// The latest clipboard text, whether copied on the host or received from the remote side, is
/// what the remote side receives when it asks for Unicode text.
pub proof fn latest_text_is_served_back(text: Seq<char>, reply: FormatDataReply)
    requires
        format_data_answer(Some(text), CF_UNICODETEXT, reply),
    ensures
        reply matches FormatDataReply::UnicodeText(t) && t@ == text,
{
}

/// A remote copy that offers Unicode text is always requested as Unicode text, whatever else
/// it offers.
pub proof fn unicode_is_preferred(available: Seq<u32>)
    requires
        available.contains(CF_UNICODETEXT),
    ensures
        spec_select_text_format(available) == Some(CF_UNICODETEXT),
{
}

/// The text the host clipboard was last set to from the remote side, so that the change it
/// causes is not sent back.
#[derive(Debug, Default)]
pub struct HostClipboardEcho {
    remote_marker: Option<String>,
}

impl HostClipboardEcho {
    pub closed spec fn spec_marker(&self) -> Option<Seq<char>> {
        opt_text(self.remote_marker)
    }

    pub fn new() -> (r: Self)
        ensures
            r.spec_marker() is None,
    {
        HostClipboardEcho { remote_marker: None }
    }

    /// The host clipboard is being set to text from the remote side.
    pub fn on_remote_set(&mut self, text: &str)
        ensures
            final(self).spec_marker() == Some(text@),
    {
        self.remote_marker = Some(text.to_string());
    }

    /// The host clipboard now holds `text`: it is to be sent to the remote side unless it is the
    /// text just set from there, which is let through once.
    pub fn on_host_text(&mut self, text: &str) -> (forward: bool)
        ensures
            old(self).spec_marker() == Some(text@) ==> !forward && final(self).spec_marker() is None,
            old(self).spec_marker() != Some(text@) ==> forward && final(self).spec_marker()
                == old(self).spec_marker(),
    {
        let is_echo = match &self.remote_marker {
            Some(marker) => str_eq(marker.as_str(), text),
            None => false,
        };
        if is_echo {
            self.remote_marker = None;
            false
        } else {
            true
        }
    }
}

fn str_eq(a: &str, b: &str) -> (r: bool)
    ensures
        r == (a@ == b@),
{
    let ac = crate::text::to_chars(a);
    let bc = crate::text::to_chars(b);
    if ac.len() != bc.len() {
        return false;
    }
    let mut i: usize = 0;
    while i < ac.len()
        invariant
            ac@ == a@,
            bc@ == b@,
            ac@.len() == bc@.len(),
            i <= ac@.len(),
            forall|j: int| 0 <= j < i ==> ac@[j] == bc@[j],
        decreases ac.len() - i,
    {
        if ac[i] != bc[i] {
            return false;
        }
        i = i + 1;
    }
    assert(ac@ =~= bc@);
    true
}

} // verus!
