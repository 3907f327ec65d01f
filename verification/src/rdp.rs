//! RDP window geometry and the translation of keyboard and pointer input into RDP input events.
use crate::desktop::WINBRIDGE_ICON_NAME;
use crate::text::owned;
use vstd::prelude::*;

verus! {

broadcast use vstd::string::group_string_axioms;

/// How many times the RDP session loop is attempted before giving up.
pub const RDP_RECONNECT_ATTEMPTS: usize = 3;

/// Whether a failed session loop is tried again.
pub fn should_retry_rdp_loop(attempt: usize, max_attempts: usize) -> (r: bool)
    ensures
        r == (attempt < max_attempts),
{
    attempt < max_attempts
}

#[derive(Clone, Copy, Debug, PartialEq, Eq, Structural)]
pub enum RdpDisplayStrategy {
    StableSlots,
    ExperimentalMultimon,
}

/// The part of the remote desktop shown in the window.
#[derive(Clone, Copy, Debug, PartialEq, Eq, Structural)]
pub struct RdpViewport {
    pub left: u16,
    pub top: u16,
    pub width: u16,
    pub height: u16,
}

impl RdpViewport {
    pub fn new(left: u16, top: u16, width: u16, height: u16) -> (r: Self)
        ensures
            r == (RdpViewport { left, top, width, height }),
    {
        RdpViewport { left, top, width, height }
    }
}

#[derive(Clone, Copy, Debug, PartialEq, Eq, Structural)]
pub struct RdpDesktopSize {
    pub width: u16,
    pub height: u16,
}

impl RdpDesktopSize {
    pub fn new(width: u16, height: u16) -> (r: Self)
        ensures
            r == (RdpDesktopSize { width, height }),
    {
        RdpDesktopSize { width, height }
    }
}

/// A virtual desktop made of several monitors.
#[derive(Clone, Copy, Debug, PartialEq, Eq, Structural)]
pub enum RdpVirtualDesktopLayout {
    TwoHorizontalSlots { slot_width: u16, slot_height: u16 },
}

/// How an RDP window is set up.
#[derive(Clone, Debug)]
pub struct RdpWindowOptions {
    pub title: String,
    pub icon_name: Option<&'static str>,
    pub viewport: RdpViewport,
    pub desktop_size: RdpDesktopSize,
    pub virtual_desktop_layout: Option<RdpVirtualDesktopLayout>,
    pub display_strategy: RdpDisplayStrategy,
}

/// `u16::saturating_mul(w, 2)`.
pub open spec fn double_saturating(w: u16) -> u16 {
    if 2 * w > u16::MAX {
        u16::MAX
    } else {
        (2 * w) as u16
    }
}

/// The desktop size requested for a virtual desktop layout.
pub open spec fn layout_desktop_size(layout: Option<RdpVirtualDesktopLayout>) -> (u16, u16) {
    match layout {
        Some(RdpVirtualDesktopLayout::TwoHorizontalSlots { slot_width, slot_height }) => (
            double_saturating(slot_width),
            slot_height,
        ),
        None => (1280, 720),
    }
}

pub fn initial_desktop_size_for_layout(layout: Option<RdpVirtualDesktopLayout>) -> (r: (u16, u16))
    ensures
        r == layout_desktop_size(layout),
{
    match layout {
        Some(RdpVirtualDesktopLayout::TwoHorizontalSlots { slot_width, slot_height }) => {
            let doubled = if slot_width > u16::MAX / 2 {
                u16::MAX
            } else {
                slot_width * 2
            };
            (doubled, slot_height)
        },
        None => (1280, 720),
    }
}

impl RdpWindowOptions {
    /// A desktop window with the given title, showing a 1280x720 desktop.
    pub fn new(title: &str) -> (r: Self)
        ensures
            r.title@ == title@,
            r.icon_name is None,
            r.viewport == (RdpViewport { left: 0, top: 0, width: 1280, height: 720 }),
            r.desktop_size == (RdpDesktopSize { width: 1280, height: 720 }),
            r.virtual_desktop_layout is None,
            r.display_strategy == RdpDisplayStrategy::StableSlots,
    {
        RdpWindowOptions {
            title: owned(title),
            icon_name: None,
            viewport: RdpViewport::new(0, 0, 1280, 720),
            desktop_size: RdpDesktopSize::new(1280, 720),
            virtual_desktop_layout: None,
            display_strategy: RdpDisplayStrategy::StableSlots,
        }
    }

    /// The app window: a single 960x720 desktop, sized for the app and its file dialogs.
    pub fn kakaotalk_app() -> (r: Self)
        ensures
            r.title@ == "winbridge"@,
            r.icon_name == Some(WINBRIDGE_ICON_NAME),
            r.viewport == (RdpViewport { left: 0, top: 0, width: 960, height: 720 }),
            r.desktop_size == (RdpDesktopSize { width: 960, height: 720 }),
            r.virtual_desktop_layout is None,
            r.display_strategy == RdpDisplayStrategy::StableSlots,
    {
        RdpWindowOptions {
            title: owned("winbridge"),
            icon_name: Some(WINBRIDGE_ICON_NAME),
            viewport: RdpViewport::new(0, 0, 960, 720),
            desktop_size: RdpDesktopSize::new(960, 720),
            virtual_desktop_layout: None,
            display_strategy: RdpDisplayStrategy::StableSlots,
        }
    }

    /// The full desktop spread over two 1280x720 monitors side by side.
    pub fn experimental_multimon_desktop() -> (r: Self)
        ensures
            r.title@ == "Windows Desktop"@,
            r.icon_name is None,
            r.viewport == (RdpViewport { left: 0, top: 0, width: 2560, height: 720 }),
            r.desktop_size == (RdpDesktopSize { width: 2560, height: 720 }),
            r.virtual_desktop_layout == Some(
                (RdpVirtualDesktopLayout::TwoHorizontalSlots { slot_width: 1280, slot_height: 720 }),
            ),
            r.display_strategy == RdpDisplayStrategy::ExperimentalMultimon,
    {
        RdpWindowOptions {
            title: owned("Windows Desktop"),
            icon_name: None,
            viewport: RdpViewport::new(0, 0, 2560, 720),
            desktop_size: RdpDesktopSize::new(2560, 720),
            virtual_desktop_layout: Some(
                RdpVirtualDesktopLayout::TwoHorizontalSlots { slot_width: 1280, slot_height: 720 },
            ),
            display_strategy: RdpDisplayStrategy::ExperimentalMultimon,
        }
    }

    /// The same options with another display strategy.
    pub fn with_display_strategy(self, display_strategy: RdpDisplayStrategy) -> (r: Self)
        ensures
            r.title == self.title,
            r.icon_name == self.icon_name,
            r.viewport == self.viewport,
            r.desktop_size == self.desktop_size,
            r.virtual_desktop_layout == self.virtual_desktop_layout,
            r.display_strategy == display_strategy,
    {
        let mut this = self;
        this.display_strategy = display_strategy;
        this
    }

    /// The desktop size to request when connecting.
    pub fn initial_desktop_size(&self) -> (r: (u16, u16))
        ensures
            r == match self.virtual_desktop_layout {
                Some(layout) => layout_desktop_size(Some(layout)),
                None => (self.desktop_size.width, self.desktop_size.height),
            },
    {
        match self.virtual_desktop_layout {
            Some(layout) => initial_desktop_size_for_layout(Some(layout)),
            None => (self.desktop_size.width, self.desktop_size.height),
        }
    }

    /// The window size: that of the viewport.
    pub fn initial_window_size(&self) -> (r: (u16, u16))
        ensures
            r == (self.viewport.width, self.viewport.height),
    {
        (self.viewport.width, self.viewport.height)
    }
}

/// One monitor of a display-control layout.
#[derive(Clone, Copy, Debug, PartialEq, Eq, Structural)]
pub struct MonitorLayout {
    pub primary: bool,
    pub left: i32,
    pub top: i32,
    pub width: u32,
    pub height: u32,
}

/// The monitors requested through display control for a virtual desktop layout: the primary
/// at the origin and the secondary to its right.
pub open spec fn display_layout(layout: RdpVirtualDesktopLayout) -> Seq<MonitorLayout> {
    match layout {
        RdpVirtualDesktopLayout::TwoHorizontalSlots { slot_width, slot_height } => seq![
            MonitorLayout {
                primary: true,
                left: 0,
                top: 0,
                width: slot_width as u32,
                height: slot_height as u32,
            },
            MonitorLayout {
                primary: false,
                left: slot_width as i32,
                top: 0,
                width: slot_width as u32,
                height: slot_height as u32,
            },
        ],
    }
}

pub fn build_display_control_layout(layout: RdpVirtualDesktopLayout) -> (r: Vec<MonitorLayout>)
    ensures
        r@ == display_layout(layout),
{
    match layout {
        RdpVirtualDesktopLayout::TwoHorizontalSlots { slot_width, slot_height } => {
            let mut monitors = Vec::new();
            monitors.push(
                MonitorLayout {
                    primary: true,
                    left: 0,
                    top: 0,
                    width: slot_width as u32,
                    height: slot_height as u32,
                },
            );
            monitors.push(
                MonitorLayout {
                    primary: false,
                    left: slot_width as i32,
                    top: 0,
                    width: slot_width as u32,
                    height: slot_height as u32,
                },
            );
            assert(monitors@ =~= display_layout(layout));
            monitors
        },
    }
}

/// A point of the viewport as a point of the whole remote desktop.
pub open spec fn spec_viewport_to_desktop(x: u16, y: u16, viewport: RdpViewport) -> Option<
    (u16, u16),
> {
    if x + viewport.left <= u16::MAX && y + viewport.top <= u16::MAX {
        Some(((x + viewport.left) as u16, (y + viewport.top) as u16))
    } else {
        None
    }
}

pub fn viewport_to_desktop(x: u16, y: u16, viewport: RdpViewport) -> (r: Option<(u16, u16)>)
    ensures
        r == spec_viewport_to_desktop(x, y, viewport),
{
    let dx = match x.checked_add(viewport.left) {
        Some(v) => v,
        None => {
            return None;
        },
    };
    let dy = match y.checked_add(viewport.top) {
        Some(v) => v,
        None => {
            return None;
        },
    };
    Some((dx, dy))
}

/// A keyboard input event for RDP.
#[derive(Clone, Copy, Debug, PartialEq, Eq, Structural)]
pub struct KeyEvent {
    pub release: bool,
    pub extended: bool,
    pub scan_code: u8,
}

/// The mouse buttons RDP knows.
#[derive(Clone, Copy, Debug, PartialEq, Eq, Structural)]
pub enum MouseButton {
    Left,
    Middle,
    Right,
}

/// What a pointer event does.
#[derive(Clone, Copy, Debug, PartialEq, Eq, Structural)]
pub enum PointerAction {
    Move,
    Button { button: MouseButton, down: bool },
    VerticalWheel { rotation_units: i16 },
}

/// A pointer input event for RDP, at a point of the remote desktop.
#[derive(Clone, Copy, Debug, PartialEq, Eq, Structural)]
pub struct MouseEvent {
    pub action: PointerAction,
    pub x: u16,
    pub y: u16,
}

/// An RDP input event.
#[derive(Clone, Copy, Debug, PartialEq, Eq, Structural)]
pub enum RdpInput {
    Key(KeyEvent),
    Mouse(MouseEvent),
}

/// The direction of a wheel turn.
#[derive(Clone, Copy, Debug, PartialEq, Eq, Structural)]
pub enum WheelDirection {
    /// Scrolling down (a positive vertical delta).
    Down,
    /// Scrolling up (a negative vertical delta).
    Up,
    /// No vertical movement.
    Still,
}

/// The pointer part of a window input event.
#[derive(Clone, Copy, Debug, PartialEq, Eq, Structural)]
pub enum PointerInput {
    Move,
    Press { button: u32 },
    Release { button: u32 },
    Wheel { direction: WheelDirection },
}

/// An input event from the window. Pointer events carry their position already mapped from
/// the canvas onto the viewport, `None` when the canvas has no area.
#[derive(Clone, Copy, Debug)]
pub enum InputRequest {
    KeyPress { keyval: u32, keycode: u32, modifiers: u32 },
    KeyRelease { keyval: u32, keycode: u32 },
    Pointer { input: PointerInput, position: Option<(u16, u16)> },
}

/// The RDP button for a window button number: 1 left, 2 middle, 3 right.
pub open spec fn spec_mouse_button(button: u32) -> Option<MouseButton> {
    if button == 1 {
        Some(MouseButton::Left)
    } else if button == 2 {
        Some(MouseButton::Middle)
    } else if button == 3 {
        Some(MouseButton::Right)
    } else {
        None
    }
}

pub fn mouse_button_flag(button: u32) -> (r: Option<MouseButton>)
    ensures
        r == spec_mouse_button(button),
{
    match button {
        1 => Some(MouseButton::Left),
        2 => Some(MouseButton::Middle),
        3 => Some(MouseButton::Right),
        _ => None,
    }
}

/// Wheel rotation units: a turn down is -120, a turn up 120.
pub open spec fn spec_wheel_units(direction: WheelDirection) -> Option<i16> {
    match direction {
        WheelDirection::Down => Some(-120i16),
        WheelDirection::Up => Some(120i16),
        WheelDirection::Still => None,
    }
}

pub fn wheel_rotation_units(direction: WheelDirection) -> (r: Option<i16>)
    ensures
        r == spec_wheel_units(direction),
{
    match direction {
        WheelDirection::Down => Some(-120),
        WheelDirection::Up => Some(120),
        WheelDirection::Still => None,
    }
}

/// The scan code of a printable ASCII key (US layout), shifted symbols on their base key.
pub open spec fn spec_ascii_scancode(ch: char) -> Option<u8> {
    if ch == 'a' {
        Some(0x1e)
    } else if ch == 'b' {
        Some(0x30)
    } else if ch == 'c' {
        Some(0x2e)
    } else if ch == 'd' {
        Some(0x20)
    } else if ch == 'e' {
        Some(0x12)
    } else if ch == 'f' {
        Some(0x21)
    } else if ch == 'g' {
        Some(0x22)
    } else if ch == 'h' {
        Some(0x23)
    } else if ch == 'i' {
        Some(0x17)
    } else if ch == 'j' {
        Some(0x24)
    } else if ch == 'k' {
        Some(0x25)
    } else if ch == 'l' {
        Some(0x26)
    } else if ch == 'm' {
        Some(0x32)
    } else if ch == 'n' {
        Some(0x31)
    } else if ch == 'o' {
        Some(0x18)
    } else if ch == 'p' {
        Some(0x19)
    } else if ch == 'q' {
        Some(0x10)
    } else if ch == 'r' {
        Some(0x13)
    } else if ch == 's' {
        Some(0x1f)
    } else if ch == 't' {
        Some(0x14)
    } else if ch == 'u' {
        Some(0x16)
    } else if ch == 'v' {
        Some(0x2f)
    } else if ch == 'w' {
        Some(0x11)
    } else if ch == 'x' {
        Some(0x2d)
    } else if ch == 'y' {
        Some(0x15)
    } else if ch == 'z' {
        Some(0x2c)
    } else if ch == '1' || ch == '!' {
        Some(0x02)
    } else if ch == '2' || ch == '@' {
        Some(0x03)
    } else if ch == '3' || ch == '#' {
        Some(0x04)
    } else if ch == '4' || ch == '$' {
        Some(0x05)
    } else if ch == '5' || ch == '%' {
        Some(0x06)
    } else if ch == '6' || ch == '^' {
        Some(0x07)
    } else if ch == '7' || ch == '&' {
        Some(0x08)
    } else if ch == '8' || ch == '*' {
        Some(0x09)
    } else if ch == '9' || ch == '(' {
        Some(0x0a)
    } else if ch == '0' || ch == ')' {
        Some(0x0b)
    } else if ch == '-' || ch == '_' {
        Some(0x0c)
    } else if ch == '=' || ch == '+' {
        Some(0x0d)
    } else if ch == '[' || ch == '{' {
        Some(0x1a)
    } else if ch == ']' || ch == '}' {
        Some(0x1b)
    } else if ch == '\\' || ch == '|' {
        Some(0x2b)
    } else if ch == ';' || ch == ':' {
        Some(0x27)
    } else if ch == '\'' || ch == '"' {
        Some(0x28)
    } else if ch == '`' || ch == '~' {
        Some(0x29)
    } else if ch == ',' || ch == '<' {
        Some(0x33)
    } else if ch == '.' || ch == '>' {
        Some(0x34)
    } else if ch == '/' || ch == '?' {
        Some(0x35)
    } else if ch == ' ' {
        Some(0x39)
    } else {
        None
    }
}

pub fn ascii_key_to_scancode(ch: char) -> (r: Option<u8>)
    ensures
        r == spec_ascii_scancode(ch),
{
    let scan_code = match ch {
        'a' => 0x1e,
        'b' => 0x30,
        'c' => 0x2e,
        'd' => 0x20,
        'e' => 0x12,
        'f' => 0x21,
        'g' => 0x22,
        'h' => 0x23,
        'i' => 0x17,
        'j' => 0x24,
        'k' => 0x25,
        'l' => 0x26,
        'm' => 0x32,
        'n' => 0x31,
        'o' => 0x18,
        'p' => 0x19,
        'q' => 0x10,
        'r' => 0x13,
        's' => 0x1f,
        't' => 0x14,
        'u' => 0x16,
        'v' => 0x2f,
        'w' => 0x11,
        'x' => 0x2d,
        'y' => 0x15,
        'z' => 0x2c,
        '1' | '!' => 0x02,
        '2' | '@' => 0x03,
        '3' | '#' => 0x04,
        '4' | '$' => 0x05,
        '5' | '%' => 0x06,
        '6' | '^' => 0x07,
        '7' | '&' => 0x08,
        '8' | '*' => 0x09,
        '9' | '(' => 0x0a,
        '0' | ')' => 0x0b,
        '-' | '_' => 0x0c,
        '=' | '+' => 0x0d,
        '[' | '{' => 0x1a,
        ']' | '}' => 0x1b,
        '\\' | '|' => 0x2b,
        ';' | ':' => 0x27,
        '\'' | '"' => 0x28,
        '`' | '~' => 0x29,
        ',' | '<' => 0x33,
        '.' | '>' => 0x34,
        '/' | '?' => 0x35,
        ' ' => 0x39,
        _ => {
            return None;
        },
    };
    Some(scan_code)
}

/// Keys outside the ASCII table that RDP sends with the extended flag.
pub open spec fn spec_extended_scancode(keyval: u32) -> Option<(u8, bool)> {
    if 0xff31 <= keyval <= 0xff33 {
        Some((0x38, true))
    } else if keyval == 0xff34 {
        Some((0x1d, true))
    } else if keyval == 0xff50 {
        Some((0x47, true))
    } else if keyval == 0xff51 {
        Some((0x4b, true))
    } else if keyval == 0xff52 {
        Some((0x48, true))
    } else if keyval == 0xff53 {
        Some((0x4d, true))
    } else if keyval == 0xff54 {
        Some((0x50, true))
    } else if keyval == 0xff55 {
        Some((0x49, true))
    } else if keyval == 0xff56 {
        Some((0x51, true))
    } else if keyval == 0xff57 {
        Some((0x4f, true))
    } else if keyval == 0xff63 {
        Some((0x52, true))
    } else if keyval == 0xffff {
        Some((0x53, true))
    } else if keyval == 0xffe4 {
        Some((0x1d, true))
    } else if keyval == 0xffea {
        Some((0x38, true))
    } else if keyval == 0xffeb {
        Some((0x5b, true))
    } else if keyval == 0xffec {
        Some((0x5c, true))
    } else {
        None
    }
}

pub fn extended_keyval_to_scancode(keyval: u32) -> (r: Option<(u8, bool)>)
    ensures
        r == spec_extended_scancode(keyval),
{
    let scan_code: u8 = match keyval {
        0xff31..=0xff33 => 0x38,
        0xff34 => 0x1d,
        0xff50 => 0x47,
        0xff51 => 0x4b,
        0xff52 => 0x48,
        0xff53 => 0x4d,
        0xff54 => 0x50,
        0xff55 => 0x49,
        0xff56 => 0x51,
        0xff57 => 0x4f,
        0xff63 => 0x52,
        0xffff => 0x53,
        0xffe4 => 0x1d,
        0xffea => 0x38,
        0xffeb => 0x5b,
        0xffec => 0x5c,
        _ => {
            return None;
        },
    };
    Some((scan_code, true))
}

/// The ASCII-lowercased character of a key value below 0x80.
pub open spec fn ascii_key_char(keyval: u32) -> char {
    if 0x41 <= keyval <= 0x5a {
        (keyval + 0x20) as char
    } else {
        keyval as char
    }
}

/// The scan code and extended flag of a GDK key value.
pub open spec fn spec_keyval_scancode(keyval: u32) -> Option<(u8, bool)> {
    if keyval < 0x80 && spec_ascii_scancode(ascii_key_char(keyval)) is Some {
        Some((spec_ascii_scancode(ascii_key_char(keyval))->0, false))
    } else if keyval == 0x08 || keyval == 0xff08 {
        Some((0x0e, false))
    } else if keyval == 0x09 || keyval == 0xff09 {
        Some((0x0f, false))
    } else if keyval == 0x0d || keyval == 0xff0d {
        Some((0x1c, false))
    } else if keyval == 0x1b || keyval == 0xff1b {
        Some((0x01, false))
    } else if keyval == 0xffe1 {
        Some((0x2a, false))
    } else if keyval == 0xffe2 {
        Some((0x36, false))
    } else if keyval == 0xffe3 {
        Some((0x1d, false))
    } else if keyval == 0xffe9 {
        Some((0x38, false))
    } else if keyval == 0xffe5 {
        Some((0x3a, false))
    } else if 0xffbe <= keyval <= 0xffc7 {
        Some(((0x3b + (keyval - 0xffbe)) as u8, false))
    } else if keyval == 0xffc8 {
        Some((0x57, false))
    } else if keyval == 0xffc9 {
        Some((0x58, false))
    } else {
        spec_extended_scancode(keyval)
    }
}

/// The character of an ASCII code, lower-cased.
fn ascii_lowercase_char(keyval: u32) -> (c: char)
    requires
        keyval < 0x80,
    ensures
        c == ascii_key_char(keyval),
{
    let code: u8 = keyval as u8;
    let lowered: u8 = if 0x41 <= code && code <= 0x5a {
        code + 0x20
    } else {
        code
    };
    lowered as char
}

pub fn keyval_to_scancode(keyval: u32) -> (r: Option<(u8, bool)>)
    ensures
        r == spec_keyval_scancode(keyval),
{
    if keyval < 0x80 {
        let ch = ascii_lowercase_char(keyval);
        if let Some(scan_code) = ascii_key_to_scancode(ch) {
            return Some((scan_code, false));
        }
    }
    let scan_code: u8 = match keyval {
        0x08 | 0xff08 => 0x0e,
        0x09 | 0xff09 => 0x0f,
        0x0d | 0xff0d => 0x1c,
        0x1b | 0xff1b => 0x01,
        0xffe1 => 0x2a,
        0xffe2 => 0x36,
        0xffe3 => 0x1d,
        0xffe9 => 0x38,
        0xffe5 => 0x3a,
        0xffbe..=0xffc7 => 0x3b + ((keyval - 0xffbe) as u8),
        0xffc8 => 0x57,
        0xffc9 => 0x58,
        _ => {
            return extended_keyval_to_scancode(keyval);
        },
    };
    Some((scan_code, false))
}

/// Whether a key value is a Shift, Control, Alt or Super key.
pub open spec fn spec_is_modifier_keyval(keyval: u32) -> bool {
    keyval == 0xffe1 || keyval == 0xffe2 || keyval == 0xffe3 || keyval == 0xffe4 || keyval == 0xffe9
        || keyval == 0xffea || keyval == 0xffeb || keyval == 0xffec
}

pub fn is_modifier_keyval(keyval: u32) -> (r: bool)
    ensures
        r == spec_is_modifier_keyval(keyval),
{
    matches!(keyval, 0xffe1 | 0xffe2 | 0xffe3 | 0xffe4 | 0xffe9 | 0xffea | 0xffeb | 0xffec)
}

/// The key event for a key value, falling back to the hardware keycode (less 8) when the key
/// value has no scan code.
pub open spec fn spec_keyboard_event(keyval: u32, keycode: u32, release: bool) -> Option<KeyEvent> {
    match spec_keyval_scancode(keyval) {
        Some((scan_code, extended)) => Some(KeyEvent { release, extended, scan_code }),
        None => {
            let code = if keycode >= 8 {
                keycode - 8
            } else {
                keycode as int
            };
            if code <= u8::MAX {
                Some(KeyEvent { release, extended: false, scan_code: code as u8 })
            } else {
                None
            }
        },
    }
}

pub fn keyboard_event(keyval: u32, keycode: u32, release: bool) -> (r: Option<KeyEvent>)
    ensures
        r == spec_keyboard_event(keyval, keycode, release),
{
    let (scan_code, extended) = match keyval_to_scancode(keyval) {
        Some(pair) => pair,
        None => {
            let code = match keycode.checked_sub(8) {
                Some(c) => c,
                None => keycode,
            };
            if code <= 255 {
                (code as u8, false)
            } else {
                return None;
            }
        },
    };
    Some(KeyEvent { release, extended, scan_code })
}

/// GDK's Shift modifier bit.
pub const SHIFT_MASK: u32 = 0x1;

/// GDK's Control modifier bit.
pub const CONTROL_MASK: u32 = 0x4;

/// GDK's Alt modifier bit.
pub const ALT_MASK: u32 = 0x8;

/// GDK's Super modifier bit.
pub const SUPER_MASK: u32 = 0x400_0000;

/// A key release event.
pub open spec fn release(scan_code: u8, extended: bool) -> KeyEvent {
    KeyEvent { release: true, extended, scan_code }
}

/// Releases of the modifier keys that the modifier state says are not held: both Shift keys,
/// both Control keys, both Alt keys, both Super keys.
pub open spec fn spec_modifier_releases(modifiers: u32) -> Seq<KeyEvent> {
    (if modifiers & SHIFT_MASK == 0 {
        seq![release(0x2a, false), release(0x36, false)]
    } else {
        Seq::empty()
    }) + (if modifiers & CONTROL_MASK == 0 {
        seq![release(0x1d, false), release(0x1d, true)]
    } else {
        Seq::empty()
    }) + (if modifiers & ALT_MASK == 0 {
        seq![release(0x38, false), release(0x38, true)]
    } else {
        Seq::empty()
    }) + (if modifiers & SUPER_MASK == 0 {
        seq![release(0x5b, true), release(0x5c, true)]
    } else {
        Seq::empty()
    })
}

pub fn keyboard_release_event(scan_code: u8, extended: bool) -> (r: KeyEvent)
    ensures
        r == release(scan_code, extended),
{
    KeyEvent { release: true, extended, scan_code }
}

pub fn modifier_release_events_for_state(modifiers: u32) -> (r: Vec<KeyEvent>)
    ensures
        r@ == spec_modifier_releases(modifiers),
{
    let mut events = Vec::new();
    if modifiers & SHIFT_MASK == 0 {
        events.push(keyboard_release_event(0x2a, false));
        events.push(keyboard_release_event(0x36, false));
    }
    let ghost after_shift = events@;
    if modifiers & CONTROL_MASK == 0 {
        events.push(keyboard_release_event(0x1d, false));
        events.push(keyboard_release_event(0x1d, true));
    }
    let ghost after_control = events@;
    if modifiers & ALT_MASK == 0 {
        events.push(keyboard_release_event(0x38, false));
        events.push(keyboard_release_event(0x38, true));
    }
    let ghost after_alt = events@;
    if modifiers & SUPER_MASK == 0 {
        events.push(keyboard_release_event(0x5b, true));
        events.push(keyboard_release_event(0x5c, true));
    }
    assert(events@ =~= spec_modifier_releases(modifiers));
    events
}

/// The key events for a key press (`release == false`) or release: before a press of a key
/// that is not itself a modifier, releases of the modifiers not held, so that no modifier
/// stays stuck on the remote side; then the key itself.
pub open spec fn spec_keyboard_events(keyval: u32, keycode: u32, modifiers: u32, release: bool) -> Seq<
    KeyEvent,
> {
    (if !release && !spec_is_modifier_keyval(keyval) {
        spec_modifier_releases(modifiers)
    } else {
        Seq::empty()
    }) + match spec_keyboard_event(keyval, keycode, release) {
        Some(e) => seq![e],
        None => Seq::empty(),
    }
}

pub fn keyboard_events(keyval: u32, keycode: u32, modifiers: u32, release: bool) -> (r: Vec<
    KeyEvent,
>)
    ensures
        r@ == spec_keyboard_events(keyval, keycode, modifiers, release),
{
    let mut events = if !release && !is_modifier_keyval(keyval) {
        modifier_release_events_for_state(modifiers)
    } else {
        Vec::new()
    };
    if let Some(event) = keyboard_event(keyval, keycode, release) {
        events.push(event);
    }
    assert(events@ =~= spec_keyboard_events(keyval, keycode, modifiers, release));
    events
}

/// The pointer event, if any, for a pointer input at a viewport position.
pub open spec fn spec_pointer_event(
    input: PointerInput,
    position: Option<(u16, u16)>,
    viewport: RdpViewport,
) -> Option<MouseEvent> {
    let action: Option<PointerAction> = match input {
        PointerInput::Move => Some(PointerAction::Move),
        PointerInput::Press { button } => match spec_mouse_button(button) {
            Some(b) => Some(PointerAction::Button { button: b, down: true }),
            None => None,
        },
        PointerInput::Release { button } => match spec_mouse_button(button) {
            Some(b) => Some(PointerAction::Button { button: b, down: false }),
            None => None,
        },
        PointerInput::Wheel { direction } => match spec_wheel_units(direction) {
            Some(units) => Some(PointerAction::VerticalWheel { rotation_units: units }),
            None => None,
        },
    };
    match (action, position) {
        (Some(action), Some((x, y))) => match spec_viewport_to_desktop(x, y, viewport) {
            Some((dx, dy)) => Some(MouseEvent { action, x: dx, y: dy }),
            None => None,
        },
        _ => None,
    }
}

/// The RDP input events for a window input event.
pub open spec fn spec_input_events(event: InputRequest, viewport: RdpViewport) -> Seq<RdpInput> {
    match event {
        InputRequest::KeyPress { keyval, keycode, modifiers } => spec_keyboard_events(
            keyval,
            keycode,
            modifiers,
            false,
        ).map_values(|k: KeyEvent| RdpInput::Key(k)),
        InputRequest::KeyRelease { keyval, keycode } => spec_keyboard_events(
            keyval,
            keycode,
            0,
            true,
        ).map_values(|k: KeyEvent| RdpInput::Key(k)),
        InputRequest::Pointer { input, position } => match spec_pointer_event(
            input,
            position,
            viewport,
        ) {
            Some(m) => seq![RdpInput::Mouse(m)],
            None => Seq::empty(),
        },
    }
}

fn pointer_event(input: PointerInput, position: Option<(u16, u16)>, viewport: RdpViewport) -> (r:
    Option<MouseEvent>)
    ensures
        r == spec_pointer_event(input, position, viewport),
{
    let action = match input {
        PointerInput::Move => PointerAction::Move,
        PointerInput::Press { button } => match mouse_button_flag(button) {
            Some(b) => PointerAction::Button { button: b, down: true },
            None => {
                return None;
            },
        },
        PointerInput::Release { button } => match mouse_button_flag(button) {
            Some(b) => PointerAction::Button { button: b, down: false },
            None => {
                return None;
            },
        },
        PointerInput::Wheel { direction } => match wheel_rotation_units(direction) {
            Some(units) => PointerAction::VerticalWheel { rotation_units: units },
            None => {
                return None;
            },
        },
    };
    let (x, y) = match position {
        Some(p) => p,
        None => {
            return None;
        },
    };
    match viewport_to_desktop(x, y, viewport) {
        Some((dx, dy)) => Some(MouseEvent { action, x: dx, y: dy }),
        None => None,
    }
}

fn keys_to_inputs(keys: Vec<KeyEvent>) -> (r: Vec<RdpInput>)
    ensures
        r@ == keys@.map_values(|k: KeyEvent| RdpInput::Key(k)),
{
    let mut out = Vec::new();
    for i in 0..keys.len()
        invariant
            out@ == keys@.take(i as int).map_values(|k: KeyEvent| RdpInput::Key(k)),
    {
        out.push(RdpInput::Key(keys[i]));
        assert(keys@.take(i + 1) == keys@.take(i as int).push(keys@[i as int]));
        assert(keys@.take(i + 1).map_values(|k: KeyEvent| RdpInput::Key(k)) =~= keys@.take(
            i as int,
        ).map_values(|k: KeyEvent| RdpInput::Key(k)).push(RdpInput::Key(keys@[i as int])));
    }
    assert(keys@.take(keys.len() as int) == keys@);
    out
}

/// The RDP input events for a window input event, pointer positions shifted by the viewport
/// offset.
pub fn input_events_in_viewport(event: InputRequest, viewport: RdpViewport) -> (r: Vec<RdpInput>)
    ensures
        r@ == spec_input_events(event, viewport),
{
    match event {
        InputRequest::KeyPress { keyval, keycode, modifiers } => keys_to_inputs(
            keyboard_events(keyval, keycode, modifiers, false),
        ),
        InputRequest::KeyRelease { keyval, keycode } => keys_to_inputs(
            keyboard_events(keyval, keycode, 0, true),
        ),
        InputRequest::Pointer { input, position } => {
            let mut out = Vec::new();
            if let Some(m) = pointer_event(input, position, viewport) {
                out.push(RdpInput::Mouse(m));
            }
            assert(out@ =~= spec_input_events(event, viewport));
            out
        },
    }
}

/// Letters map to the same key whatever their case.
pub proof fn letter_case_maps_to_same_key(keyval: u32)
    requires
        0x61 <= keyval <= 0x7a,
    ensures
        spec_keyval_scancode((keyval - 0x20) as u32) == spec_keyval_scancode(keyval),
        spec_keyval_scancode(keyval) is Some,
{
    assert(ascii_key_char((keyval - 0x20) as u32) == ascii_key_char(keyval));
}

/// A key press ends with the pressed key, after releases of the modifiers that are not held;
/// a held modifier is never released.
pub proof fn key_press_ends_with_the_key(keyval: u32, keycode: u32, modifiers: u32)
    requires
        spec_keyval_scancode(keyval) is Some,
    ensures
        spec_keyboard_events(keyval, keycode, modifiers, false).last() == (KeyEvent {
            release: false,
            extended: (spec_keyval_scancode(keyval)->0).1,
            scan_code: (spec_keyval_scancode(keyval)->0).0,
        }),
        modifiers & CONTROL_MASK != 0 ==> forall|i: int|
            0 <= i < spec_keyboard_events(keyval, keycode, modifiers, false).len() - 1
                ==> #[trigger] spec_keyboard_events(keyval, keycode, modifiers, false)[i].scan_code
                != 0x1d,
{
    let rel = if !spec_is_modifier_keyval(keyval) {
        spec_modifier_releases(modifiers)
    } else {
        Seq::empty()
    };
    let evs = spec_keyboard_events(keyval, keycode, modifiers, false);
    assert(evs == rel + seq![spec_keyboard_event(keyval, keycode, false)->0]);
    if modifiers & CONTROL_MASK != 0 {
        assert forall|i: int| 0 <= i < evs.len() - 1 implies #[trigger] evs[i].scan_code != 0x1d by {
            assert(evs[i] == rel[i]);
        }
    }
}

/// A key release sends only the release of that key.
pub proof fn key_release_is_single_event(keyval: u32, keycode: u32)
    requires
        spec_keyboard_event(keyval, keycode, true) is Some,
    ensures
        spec_keyboard_events(keyval, keycode, 0, true) == seq![
            spec_keyboard_event(keyval, keycode, true)->0,
        ],
{
    assert(spec_keyboard_events(keyval, keycode, 0, true) =~= seq![
        spec_keyboard_event(keyval, keycode, true)->0,
    ]);
}

/// The scan codes of the modifier keys whose modifier bit is set in `modifiers`: Shift (left
/// 0x2a, right 0x36), Control (0x1d, either side), Alt (0x38, either side), Super (0x5b, 0x5c).
pub open spec fn is_held_modifier_scan_code(modifiers: u32, scan_code: u8) -> bool {
    ||| modifiers & SHIFT_MASK != 0 && (scan_code == 0x2a || scan_code == 0x36)
    ||| modifiers & CONTROL_MASK != 0 && scan_code == 0x1d
    ||| modifiers & ALT_MASK != 0 && scan_code == 0x38
    ||| modifiers & SUPER_MASK != 0 && (scan_code == 0x5b || scan_code == 0x5c)
}

proof fn lemma_modifier_releases_skip_held(modifiers: u32)
    ensures
        forall|i: int|
            0 <= i < spec_modifier_releases(modifiers).len() ==> (#[trigger] spec_modifier_releases(
                modifiers,
            )[i]).release && !is_held_modifier_scan_code(modifiers, spec_modifier_releases(modifiers)[i].scan_code),
{
    let a = if modifiers & SHIFT_MASK == 0 {
        seq![release(0x2a, false), release(0x36, false)]
    } else {
        Seq::empty()
    };
    let b = if modifiers & CONTROL_MASK == 0 {
        seq![release(0x1d, false), release(0x1d, true)]
    } else {
        Seq::empty()
    };
    let c = if modifiers & ALT_MASK == 0 {
        seq![release(0x38, false), release(0x38, true)]
    } else {
        Seq::empty()
    };
    let d = if modifiers & SUPER_MASK == 0 {
        seq![release(0x5b, true), release(0x5c, true)]
    } else {
        Seq::empty()
    };
    let rel = spec_modifier_releases(modifiers);
    assert(rel == a + b + c + d);
    assert forall|i: int| 0 <= i < rel.len() implies (#[trigger] rel[i]).release
        && !is_held_modifier_scan_code(modifiers, rel[i].scan_code) by {
        if i < a.len() {
            assert(rel[i] == a[i]);
        } else if i < a.len() + b.len() {
            assert(rel[i] == b[i - a.len()]);
        } else if i < a.len() + b.len() + c.len() {
            assert(rel[i] == c[i - a.len() - b.len()]);
        } else {
            assert(rel[i] == d[i - a.len() - b.len() - c.len()]);
        }
    }
}

/// A key press never releases a modifier that is held: every release it sends is of a modifier
/// key whose bit is clear in the modifier state, so Shift, Control, Alt and Super stay down on
/// the remote side while the user holds them (a held Shift still types capitals).
pub proof fn key_press_never_releases_held_modifiers(keyval: u32, keycode: u32, modifiers: u32)
    ensures
        forall|i: int|
            0 <= i < spec_keyboard_events(keyval, keycode, modifiers, false).len() && (#[trigger] spec_keyboard_events(
                keyval,
                keycode,
                modifiers,
                false,
            )[i]).release ==> !is_held_modifier_scan_code(
                modifiers,
                spec_keyboard_events(keyval, keycode, modifiers, false)[i].scan_code,
            ),
{
    lemma_modifier_releases_skip_held(modifiers);
    let rel = if !spec_is_modifier_keyval(keyval) {
        spec_modifier_releases(modifiers)
    } else {
        Seq::empty()
    };
    let key = match spec_keyboard_event(keyval, keycode, false) {
        Some(e) => seq![e],
        None => Seq::<KeyEvent>::empty(),
    };
    let evs = spec_keyboard_events(keyval, keycode, modifiers, false);
    assert(evs == rel + key);
    assert forall|i: int| 0 <= i < evs.len() && (#[trigger] evs[i]).release implies !is_held_modifier_scan_code(
        modifiers,
        evs[i].scan_code,
    ) by {
        if i < rel.len() {
            assert(evs[i] == rel[i]);
        } else {
            assert(evs[i] == key[i - rel.len()]);
        }
    }
}

/// A press of a key that is not itself a modifier releases, before the key, every modifier
/// key whose bit is clear in the modifier state, so none stays stuck on the remote side.
pub proof fn key_press_releases_unheld_modifiers(keyval: u32, keycode: u32, modifiers: u32)
    requires
        !spec_is_modifier_keyval(keyval),
    ensures
        ({
            let evs = spec_keyboard_events(keyval, keycode, modifiers, false);
            &&& modifiers & SHIFT_MASK == 0 ==> evs.contains(release(0x2a, false)) && evs.contains(
                release(0x36, false),
            )
            &&& modifiers & CONTROL_MASK == 0 ==> evs.contains(release(0x1d, false)) && evs.contains(
                release(0x1d, true),
            )
            &&& modifiers & ALT_MASK == 0 ==> evs.contains(release(0x38, false)) && evs.contains(
                release(0x38, true),
            )
            &&& modifiers & SUPER_MASK == 0 ==> evs.contains(release(0x5b, true)) && evs.contains(
                release(0x5c, true),
            )
        }),
{
    let a = if modifiers & SHIFT_MASK == 0 {
        seq![release(0x2a, false), release(0x36, false)]
    } else {
        Seq::empty()
    };
    let b = if modifiers & CONTROL_MASK == 0 {
        seq![release(0x1d, false), release(0x1d, true)]
    } else {
        Seq::empty()
    };
    let c = if modifiers & ALT_MASK == 0 {
        seq![release(0x38, false), release(0x38, true)]
    } else {
        Seq::empty()
    };
    let d = if modifiers & SUPER_MASK == 0 {
        seq![release(0x5b, true), release(0x5c, true)]
    } else {
        Seq::empty()
    };
    let key = match spec_keyboard_event(keyval, keycode, false) {
        Some(e) => seq![e],
        None => Seq::<KeyEvent>::empty(),
    };
    let evs = spec_keyboard_events(keyval, keycode, modifiers, false);
    assert(evs == a + b + c + d + key);
    let ab: int = a.len() as int;
    let abc: int = (a.len() + b.len()) as int;
    let abcd: int = (a.len() + b.len() + c.len()) as int;
    if modifiers & SHIFT_MASK == 0 {
        assert(evs[0] == release(0x2a, false));
        assert(evs[1] == release(0x36, false));
    }
    if modifiers & CONTROL_MASK == 0 {
        assert(evs[ab] == release(0x1d, false));
        assert(evs[ab + 1] == release(0x1d, true));
    }
    if modifiers & ALT_MASK == 0 {
        assert(evs[abc] == release(0x38, false));
        assert(evs[abc + 1] == release(0x38, true));
    }
    if modifiers & SUPER_MASK == 0 {
        assert(evs[abcd] == release(0x5b, true));
        assert(evs[abcd + 1] == release(0x5c, true));
    }
}

} // verus!
