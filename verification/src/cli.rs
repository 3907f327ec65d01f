//! Command-line surface of winbridge: the commands and their options.
use vstd::prelude::*;

verus! {

/// Parsed command line.
#[derive(Debug)]
pub struct Cli {
    pub verbose: bool,
    pub command: Option<Command>,
}

/// The subcommands; with none given, winbridge runs as a tray manager.
#[derive(Debug)]
pub enum Command {
    /// Start or resume the VM and open the RDP window.
    Start { mode: WindowMode, display: DisplayStrategy },
    /// Close the RDP window and pause the VM.
    Stop { shutdown: bool },
    /// Install the desktop launcher and icon for the current user.
    InstallDesktopEntry { executable: Option<String> },
    /// Remove the desktop launcher and icon for the current user.
    UninstallDesktopEntry,
    /// Print the VM state.
    Status,
    /// Diagnose host, VM, and RDP readiness.
    Doctor,
    /// Write a diagnostic bundle for troubleshooting.
    DiagnosticBundle { output: Option<String> },
    /// Restart and foreground the Windows app through the QEMU guest agent.
    RepairKakao,
    /// Restore the Windows wallpaper from a reachable source or the theme cache.
    RepairWallpaper,
    /// Install Windows http/https forwarding so guest links open on the host.
    InstallUrlForwarder,
}

/// Which window `start` opens once the VM is ready.
#[derive(Clone, Copy, Debug, PartialEq, Eq, Structural)]
pub enum WindowMode {
    App,
    Desktop,
}

/// RDP display strategy for app-mode experiments.
#[derive(Clone, Copy, Debug, PartialEq, Eq, Structural)]
pub enum DisplayStrategy {
    StableSlots,
    ExperimentalMultimon,
}

} // verus!
