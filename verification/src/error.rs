//! The error an accessor reports when it cannot hand out a handle, naming
//! the subsystem concerned and, for a construction failure, the reason.

use vstd::prelude::*;
use vstd::string::StringExecFns;

use crate::kinds::ClientKind;

verus! {

/// The label a diagnostic uses for kind `k`.
pub open spec fn kind_label(k: ClientKind) -> Seq<char> {
    match k {
        ClientKind::Wayland => "wayland"@,
        ClientKind::Clipboard => "clipboard"@,
        ClientKind::Workspaces => "workspaces"@,
        ClientKind::Music => "music"@,
        ClientKind::Tray => "tray"@,
        ClientKind::Upower => "upower"@,
    }
}

/// The label a diagnostic uses for kind `k`.
pub fn kind_name(k: ClientKind) -> (r: &'static str)
    ensures
        r@ == kind_label(k),
{
    match k {
        ClientKind::Wayland => "wayland",
        ClientKind::Clipboard => "clipboard",
        ClientKind::Workspaces => "workspaces",
        ClientKind::Music => "music",
        ClientKind::Tray => "tray",
        ClientKind::Upower => "upower",
    }
}

/// Why an accessor returned no handle.
#[derive(Debug)]
pub enum ClientError {
    /// The requested kind is not enabled in this registry's configuration;
    /// no constructor was invoked.
    Disabled(ClientKind),
    /// The named kind's constructor was invoked and reported failure, with
    /// the constructor's own reason.
    Construction(ClientKind, String),
}

impl ClientError {
    /// The diagnostic `message` returns.
    pub open spec fn message_spec(self) -> Seq<char> {
        match self {
            ClientError::Disabled(k) => kind_label(k) + " client support is not enabled in this registry"@,
            ClientError::Construction(k, m) => kind_label(k) + " client construction failed: "@ + m@,
        }
    }

    /// A diagnostic naming the subsystem and, for a construction failure,
    /// the constructor's reason.
    pub fn message(&self) -> (r: String)
        ensures
            r@ == self.message_spec(),
    {
        match self {
            ClientError::Disabled(k) => {
                String::from_str(kind_name(*k)).concat(" client support is not enabled in this registry")
            },
            ClientError::Construction(k, m) => {
                String::from_str(kind_name(*k)).concat(" client construction failed: ").concat(m.as_str())
            },
        }
    }
}

} // verus!
