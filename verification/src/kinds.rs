//! The closed enumeration of client kinds, the media-backend sub-key, the
//! per-registry configuration of enabled kinds, and the addressable slots.

use vstd::prelude::*;

verus! {

/// One category of external-subsystem integration the registry can provide
/// a handle for.
#[derive(Clone, Copy, PartialEq, Eq, Structural, Debug)]
pub enum ClientKind {
    Wayland,
    Clipboard,
    Workspaces,
    Music,
    Tray,
    Upower,
}

/// Identifies one media-player backend. The music kind keeps one client
/// instance per backend; all other kinds keep a single instance.
#[derive(Clone, Copy, PartialEq, Eq, Structural, Debug)]
pub enum MusicBackend {
    Mpd,
    Mpris,
}

/// Which optional kinds a registry serves. The display-server kind is always
/// served, so it has no flag here. A kind left out of the configuration gets
/// no storage and its accessor reports it as disabled without ever invoking
/// a constructor.
#[derive(Clone, Copy, PartialEq, Eq, Structural, Debug)]
pub struct ClientConfig {
    pub clipboard: bool,
    pub workspaces: bool,
    pub music: bool,
    pub tray: bool,
    pub upower: bool,
}

impl ClientConfig {
    /// Whether kind `k` is served under this configuration.
    pub open spec fn enables(self, k: ClientKind) -> bool {
        match k {
            ClientKind::Wayland => true,
            ClientKind::Clipboard => self.clipboard,
            ClientKind::Workspaces => self.workspaces,
            ClientKind::Music => self.music,
            ClientKind::Tray => self.tray,
            ClientKind::Upower => self.upower,
        }
    }

    /// A configuration serving every kind.
    pub fn all() -> (c: ClientConfig)
        ensures
            forall|k: ClientKind| c.enables(k),
    {
        ClientConfig { clipboard: true, workspaces: true, music: true, tray: true, upower: true }
    }
}

/// One addressable storage cell of the registry: each single-instance kind
/// has one slot, and the music kind has one slot per backend.
#[derive(Clone, Copy, PartialEq, Eq, Structural, Debug)]
pub enum SlotKey {
    Wayland,
    Clipboard,
    Workspaces,
    Music(MusicBackend),
    Tray,
    Upower,
}

impl SlotKey {
    /// The kind a slot belongs to.
    pub open spec fn kind(self) -> ClientKind {
        match self {
            SlotKey::Wayland => ClientKind::Wayland,
            SlotKey::Clipboard => ClientKind::Clipboard,
            SlotKey::Workspaces => ClientKind::Workspaces,
            SlotKey::Music(_) => ClientKind::Music,
            SlotKey::Tray => ClientKind::Tray,
            SlotKey::Upower => ClientKind::Upower,
        }
    }
}

} // verus!
