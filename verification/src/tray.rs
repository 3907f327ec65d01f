//! The system tray icons: what they show and which tray action each menu entry sends.
use crate::cli::WindowMode;
use crate::config::QuitPolicy;
use crate::desktop::WINBRIDGE_ICON_NAME;
use crate::lifecycle::{tray_quit_action, TrayAction};
use crate::text::owned;
use vstd::prelude::*;

verus! {

/// An entry of a tray menu.
#[derive(Debug, Clone, PartialEq, Eq)]
pub enum TrayMenuItem {
    /// A labelled entry that sends a tray action when activated.
    Standard { label: String, action: TrayAction },
    Separator,
}

/// An entry as plain values: its label and action, or `None` for a separator.
pub open spec fn item_view(item: TrayMenuItem) -> Option<(Seq<char>, TrayAction)> {
    match item {
        TrayMenuItem::Standard { label, action } => Some((label@, action)),
        TrayMenuItem::Separator => None,
    }
}

/// The category a tray icon declares to the status notifier host.
#[derive(Debug, Clone, Copy, PartialEq, Eq, Structural)]
pub enum TrayCategory {
    ApplicationStatus,
    Communications,
    SystemServices,
    Hardware,
}

fn item(label: &str, action: TrayAction) -> (r: TrayMenuItem)
    ensures
        item_view(r) == Some((label@, action)),
{
    TrayMenuItem::Standard { label: owned(label), action }
}

/// The label of the quit entry of both trays.
pub const QUIT_LABEL: &'static str = "Pause VM and Quit winbridge";

/// The tray of the VM manager, whose quit entry follows the configured quit policy.
#[derive(Debug, Clone, Copy, PartialEq, Eq, Structural)]
pub struct WinbridgeTray {
    pub quit_policy: QuitPolicy,
}

/// The menu of the VM manager's tray.
pub open spec fn winbridge_tray_menu(quit: TrayAction) -> Seq<Option<(Seq<char>, TrayAction)>> {
    seq![
        Some(("Open Winbridge"@, TrayAction::Open { mode: WindowMode::App })),
        Some(("Open Windows Desktop"@, TrayAction::Open { mode: WindowMode::Desktop })),
        Some(("Repair Winbridge"@, TrayAction::RepairKakao)),
        Some(("Repair Wallpaper"@, TrayAction::RepairWallpaper)),
        Some(("Pause VM (managed save)"@, TrayAction::Pause)),
        Some(("Shutdown VM"@, TrayAction::Shutdown)),
        None,
        Some((QUIT_LABEL@, quit)),
    ]
}

/// The menu of the app tray.
pub open spec fn app_tray_menu(quit: TrayAction) -> Seq<Option<(Seq<char>, TrayAction)>> {
    seq![
        Some(("Open Winbridge"@, TrayAction::Open { mode: WindowMode::App })),
        Some(("Repair Winbridge"@, TrayAction::RepairKakao)),
        None,
        Some((QUIT_LABEL@, quit)),
    ]
}

/// The action of quitting winbridge under a quit policy.
pub open spec fn quit_action(policy: QuitPolicy) -> TrayAction {
    match policy {
        QuitPolicy::ManagedSave => TrayAction::ManagedSaveThenQuit,
        QuitPolicy::KeepRunning => TrayAction::Quit,
    }
}

fn quit_action_exec(policy: QuitPolicy) -> (r: TrayAction)
    ensures
        r == quit_action(policy),
{
    let r = tray_quit_action(policy);
    match policy {
        QuitPolicy::ManagedSave => {
            assert(r is ManagedSaveThenQuit);
        },
        QuitPolicy::KeepRunning => {
            assert(r is Quit);
        },
    }
    r
}

impl WinbridgeTray {
    pub fn icon_name(&self) -> (r: String)
        ensures
            r@ == "computer"@,
    {
        owned("computer")
    }

    pub fn title(&self) -> (r: String)
        ensures
            r@ == "winbridge - Windows VM"@,
    {
        owned("winbridge - Windows VM")
    }

    /// Open, repair, pause and shut down entries, a separator, and the quit entry.
    pub fn menu(&self) -> (r: Vec<TrayMenuItem>)
        ensures
            r@.map_values(|i: TrayMenuItem| item_view(i)) == winbridge_tray_menu(
                quit_action(self.quit_policy),
            ),
    {
        let mut v: Vec<TrayMenuItem> = Vec::new();
        v.push(item("Open Winbridge", TrayAction::Open { mode: WindowMode::App }));
        v.push(item("Open Windows Desktop", TrayAction::Open { mode: WindowMode::Desktop }));
        v.push(item("Repair Winbridge", TrayAction::RepairKakao));
        v.push(item("Repair Wallpaper", TrayAction::RepairWallpaper));
        v.push(item("Pause VM (managed save)", TrayAction::Pause));
        v.push(item("Shutdown VM", TrayAction::Shutdown));
        v.push(TrayMenuItem::Separator);
        v.push(item(QUIT_LABEL, quit_action_exec(self.quit_policy)));
        assert(v@.map_values(|i: TrayMenuItem| item_view(i)) =~= winbridge_tray_menu(
            quit_action(self.quit_policy),
        ));
        v
    }
}

/// The app tray, shown while a KakaoTalk window runs, whose quit entry follows the configured
/// quit policy.
#[derive(Debug, Clone, Copy, PartialEq, Eq, Structural)]
pub struct WinbridgeAppTray {
    pub quit_policy: QuitPolicy,
}

impl WinbridgeAppTray {
    pub fn category(&self) -> (r: TrayCategory)
        ensures
            r == TrayCategory::Communications,
    {
        TrayCategory::Communications
    }

    pub fn id(&self) -> (r: String)
        ensures
            r@ == WINBRIDGE_ICON_NAME@,
    {
        owned(WINBRIDGE_ICON_NAME)
    }

    /// No themed icon: the tray shows the pixmap.
    pub fn icon_name(&self) -> (r: String)
        ensures
            r@ == Seq::<char>::empty(),
    {
        String::new()
    }

    pub fn title(&self) -> (r: String)
        ensures
            r@ == "winbridge"@,
    {
        owned("winbridge")
    }

    /// Clicking the icon opens KakaoTalk.
    pub fn activate(&self) -> (r: TrayAction)
        ensures
            r == (TrayAction::Open { mode: WindowMode::App }),
    {
        TrayAction::Open { mode: WindowMode::App }
    }

    /// Open and repair entries, a separator, and the quit entry.
    pub fn menu(&self) -> (r: Vec<TrayMenuItem>)
        ensures
            r@.map_values(|i: TrayMenuItem| item_view(i)) == app_tray_menu(quit_action(self.quit_policy)),
    {
        let mut v: Vec<TrayMenuItem> = Vec::new();
        v.push(item("Open Winbridge", TrayAction::Open { mode: WindowMode::App }));
        v.push(item("Repair Winbridge", TrayAction::RepairKakao));
        v.push(TrayMenuItem::Separator);
        v.push(item(QUIT_LABEL, quit_action_exec(self.quit_policy)));
        assert(v@.map_values(|i: TrayMenuItem| item_view(i)) =~= app_tray_menu(
            quit_action(self.quit_policy),
        ));
        v
    }
}

/// The side of the square icon pixmap, in pixels.
pub const ICON_PIXMAP_SIZE: u32 = 64;

/// RGBA pixels reordered as the ARGB bytes a tray icon pixmap holds.
pub open spec fn argb_of_rgba(rgba: Seq<u8>) -> Seq<u8> {
    Seq::new(
        rgba.len() / 4 * 4,
        |i: int| {
            let p = i / 4 * 4;
            let k = i % 4;
            if k == 0 {
                rgba[p + 3]
            } else {
                rgba[p + k - 1]
            }
        },
    )
}

/// Reorders RGBA pixel bytes to ARGB; a trailing partial pixel is dropped.
pub fn rgba_to_argb(rgba: &[u8]) -> (r: Vec<u8>)
    ensures
        r@ == argb_of_rgba(rgba@),
{
    let mut out: Vec<u8> = Vec::new();
    let len = rgba.len();
    let n = len / 4;
    let mut p: usize = 0;
    while p < n
        invariant
            len == rgba@.len(),
            n == len / 4,
            p <= n,
            out@.len() == p * 4,
            forall|i: int| 0 <= i < out@.len() ==> #[trigger] out@[i] == argb_of_rgba(rgba@)[i],
        decreases n - p,
    {
        assert(p * 4 + 4 <= len) by (nonlinear_arith)
            requires
                p < n,
                n == len / 4,
        ;
        let base = p * 4;
        out.push(rgba[base + 3]);
        out.push(rgba[base]);
        out.push(rgba[base + 1]);
        out.push(rgba[base + 2]);
        assert forall|i: int| 0 <= i < out@.len() implies #[trigger] out@[i] == argb_of_rgba(rgba@)[i] by {
            if i >= base {
                assert(i / 4 == p && i % 4 == i - base) by (nonlinear_arith)
                    requires
                        base == p * 4,
                        base <= i < base + 4,
                ;
            }
        }
        p = p + 1;
    }
    assert(n * 4 == rgba@.len() / 4 * 4);
    assert(out@ =~= argb_of_rgba(rgba@));
    out
}

/// What a tray entry with `label` must send: each label names one action, and the quit entry
/// sends the quit that the quit policy calls for.
pub open spec fn entry_sends_what_its_label_says(
    policy: QuitPolicy,
    label: Seq<char>,
    action: TrayAction,
) -> bool {
    &&& label == "Open Winbridge"@ ==> action == TrayAction::Open { mode: WindowMode::App }
    &&& label == "Open Windows Desktop"@ ==> action == TrayAction::Open { mode: WindowMode::Desktop }
    &&& label == "Repair Winbridge"@ ==> action == TrayAction::RepairKakao
    &&& label == "Repair Wallpaper"@ ==> action == TrayAction::RepairWallpaper
    &&& label == "Pause VM (managed save)"@ ==> action == TrayAction::Pause
    &&& label == "Shutdown VM"@ ==> action == TrayAction::Shutdown
    &&& label == QUIT_LABEL@ ==> (policy == QuitPolicy::ManagedSave ==> action
        == TrayAction::ManagedSaveThenQuit) && (policy == QuitPolicy::KeepRunning ==> action
        == TrayAction::Quit)
}

proof fn lemma_labels_differ()
    ensures
        "Open Winbridge"@ != "Open Windows Desktop"@,
        "Open Winbridge"@ != "Repair Winbridge"@,
        "Open Winbridge"@ != "Repair Wallpaper"@,
        "Open Winbridge"@ != "Pause VM (managed save)"@,
        "Open Winbridge"@ != "Shutdown VM"@,
        "Open Winbridge"@ != QUIT_LABEL@,
        "Open Windows Desktop"@ != "Repair Winbridge"@,
        "Open Windows Desktop"@ != "Repair Wallpaper"@,
        "Open Windows Desktop"@ != "Pause VM (managed save)"@,
        "Open Windows Desktop"@ != "Shutdown VM"@,
        "Open Windows Desktop"@ != QUIT_LABEL@,
        "Repair Winbridge"@ != "Repair Wallpaper"@,
        "Repair Winbridge"@ != "Pause VM (managed save)"@,
        "Repair Winbridge"@ != "Shutdown VM"@,
        "Repair Winbridge"@ != QUIT_LABEL@,
        "Repair Wallpaper"@ != "Pause VM (managed save)"@,
        "Repair Wallpaper"@ != "Shutdown VM"@,
        "Repair Wallpaper"@ != QUIT_LABEL@,
        "Pause VM (managed save)"@ != "Shutdown VM"@,
        "Pause VM (managed save)"@ != QUIT_LABEL@,
        "Shutdown VM"@ != QUIT_LABEL@,
{
    reveal_strlit("Open Winbridge");
    reveal_strlit("Open Windows Desktop");
    reveal_strlit("Repair Winbridge");
    reveal_strlit("Repair Wallpaper");
    reveal_strlit("Pause VM (managed save)");
    reveal_strlit("Shutdown VM");
    reveal_strlit("Pause VM and Quit winbridge");
    assert(QUIT_LABEL@ == "Pause VM and Quit winbridge"@);
    assert("Open Winbridge"@.len() == 14);
    assert("Open Windows Desktop"@.len() == 20);
    assert("Repair Winbridge"@.len() == 16);
    assert("Repair Wallpaper"@.len() == 16);
    assert("Pause VM (managed save)"@.len() == 23);
    assert("Shutdown VM"@.len() == 11);
    assert("Pause VM and Quit winbridge"@.len() == 27);
    assert("Repair Winbridge"@[8] != "Repair Wallpaper"@[8]);
}

/// Whether a menu has an entry with `label`.
pub open spec fn offers(menu: Seq<Option<(Seq<char>, TrayAction)>>, label: Seq<char>) -> bool {
    exists|i: int| 0 <= i < menu.len() && (#[trigger] menu[i] matches Some((l, _)) && l == label)
}

/// Every entry of the VM manager's tray sends the action its label names (Shutdown VM shuts the
/// VM down, Pause VM managed-saves it, and so on), and the menu offers every one of them.
pub proof fn manager_tray_entries_send_what_they_say(policy: QuitPolicy)
    ensures
        forall|i: int|
            0 <= i < winbridge_tray_menu(quit_action(policy)).len() ==> (#[trigger] winbridge_tray_menu(
                quit_action(policy),
            )[i] matches Some((l, a)) ==> entry_sends_what_its_label_says(policy, l, a)),
        offers(winbridge_tray_menu(quit_action(policy)), "Open Winbridge"@),
        offers(winbridge_tray_menu(quit_action(policy)), "Open Windows Desktop"@),
        offers(winbridge_tray_menu(quit_action(policy)), "Repair Winbridge"@),
        offers(winbridge_tray_menu(quit_action(policy)), "Repair Wallpaper"@),
        offers(winbridge_tray_menu(quit_action(policy)), "Pause VM (managed save)"@),
        offers(winbridge_tray_menu(quit_action(policy)), "Shutdown VM"@),
        offers(winbridge_tray_menu(quit_action(policy)), QUIT_LABEL@),
{
    lemma_labels_differ();
    let m = winbridge_tray_menu(quit_action(policy));
    assert(m[0] == Some(("Open Winbridge"@, TrayAction::Open { mode: WindowMode::App })));
    assert(m[1] == Some(("Open Windows Desktop"@, TrayAction::Open { mode: WindowMode::Desktop })));
    assert(m[2] == Some(("Repair Winbridge"@, TrayAction::RepairKakao)));
    assert(m[3] == Some(("Repair Wallpaper"@, TrayAction::RepairWallpaper)));
    assert(m[4] == Some(("Pause VM (managed save)"@, TrayAction::Pause)));
    assert(m[5] == Some(("Shutdown VM"@, TrayAction::Shutdown)));
    assert(m[6] is None);
    assert(m[7] == Some((QUIT_LABEL@, quit_action(policy))));
}

/// Every entry of the app tray sends the action its label names, and the menu offers opening,
/// repairing and quitting.
pub proof fn app_tray_entries_send_what_they_say(policy: QuitPolicy)
    ensures
        forall|i: int|
            0 <= i < app_tray_menu(quit_action(policy)).len() ==> (#[trigger] app_tray_menu(
                quit_action(policy),
            )[i] matches Some((l, a)) ==> entry_sends_what_its_label_says(policy, l, a)),
        offers(app_tray_menu(quit_action(policy)), "Open Winbridge"@),
        offers(app_tray_menu(quit_action(policy)), "Repair Winbridge"@),
        offers(app_tray_menu(quit_action(policy)), QUIT_LABEL@),
{
    lemma_labels_differ();
    let m = app_tray_menu(quit_action(policy));
    assert(m[0] == Some(("Open Winbridge"@, TrayAction::Open { mode: WindowMode::App })));
    assert(m[1] == Some(("Repair Winbridge"@, TrayAction::RepairKakao)));
    assert(m[2] is None);
    assert(m[3] == Some((QUIT_LABEL@, quit_action(policy))));
}

} // verus!
