use vstd::prelude::*;
use crate::health::HealthState;

verus! {

/// Which tray icon asset stands for a state.
#[derive(Debug, Clone, Copy, PartialEq, Eq, Structural)]
pub enum TrayIcon {
    Connected,
    Waiting,
    Stopped,
}

/// The icon shown for a state.
pub open spec fn icon_of(state: HealthState) -> TrayIcon {
    match state {
        HealthState::Running => TrayIcon::Connected,
        HealthState::Waiting => TrayIcon::Waiting,
        HealthState::Stopped => TrayIcon::Stopped,
    }
}

/// The tooltip shown for a state.
pub open spec fn tooltip_of(state: HealthState) -> Seq<char> {
    match state {
        HealthState::Running => "Bridge to Fig - Connected"@,
        HealthState::Waiting => "Bridge to Fig - Waiting for Plugin"@,
        HealthState::Stopped => "Bridge to Fig - Server Stopped"@,
    }
}

/// The file name of an icon asset.
pub open spec fn asset_of(icon: TrayIcon) -> Seq<char> {
    match icon {
        TrayIcon::Connected => "tray-connected-32x32.png"@,
        TrayIcon::Waiting => "tray-waiting-32x32.png"@,
        TrayIcon::Stopped => "tray-stopped-32x32.png"@,
    }
}

impl TrayIcon {
    /// The icon that stands for `state`.
    pub fn for_state(state: HealthState) -> (r: TrayIcon)
        ensures
            r == icon_of(state),
    {
        match state {
            HealthState::Running => TrayIcon::Connected,
            HealthState::Waiting => TrayIcon::Waiting,
            HealthState::Stopped => TrayIcon::Stopped,
        }
    }

    /// The file name of this icon's asset.
    pub fn asset_name(&self) -> (r: &'static str)
        ensures
            r@ == asset_of(*self),
    {
        match self {
            TrayIcon::Connected => "tray-connected-32x32.png",
            TrayIcon::Waiting => "tray-waiting-32x32.png",
            TrayIcon::Stopped => "tray-stopped-32x32.png",
        }
    }
}

/// The tooltip text that stands for `state`.
pub fn tooltip_for(state: HealthState) -> (r: &'static str)
    ensures
        r@ == tooltip_of(state),
{
    match state {
        HealthState::Running => "Bridge to Fig - Connected",
        HealthState::Waiting => "Bridge to Fig - Waiting for Plugin",
        HealthState::Stopped => "Bridge to Fig - Server Stopped",
    }
}

/// The tooltip shown before any poll has completed.
pub fn initial_tooltip() -> (r: &'static str)
    ensures
        r@ == "Bridge to Fig"@,
{
    "Bridge to Fig"
}

} // verus!
