//! Behavioural tests of the registry: lazy single construction, per-backend
//! construction, dependency ordering, disabled kinds, and failure reporting.

use std::cell::{Cell, RefCell};

use client_registry::error::ClientError;
use client_registry::kinds::{ClientConfig, ClientKind, MusicBackend};
use client_registry::provide::ProvidesClient;
use client_registry::registry::{Clients, Handle};

type TestClients = Clients<String, String, String, String, String>;

fn all() -> TestClients {
    Clients::new(ClientConfig::all())
}

#[test]
fn config_all_enables_every_kind() {
    let c = ClientConfig::all();
    assert!(c.clipboard && c.workspaces && c.music && c.tray && c.upower);
}

#[test]
fn single_construction_same_identity() {
    let mut reg = all();
    let calls = Cell::new(0u32);
    let h1 = reg
        .wayland(|| {
            calls.set(calls.get() + 1);
            Ok("display-server".to_string())
        })
        .unwrap();
    let h2 = reg
        .wayland(|| {
            calls.set(calls.get() + 1);
            Ok("another display-server".to_string())
        })
        .unwrap();
    let h3 = reg
        .wayland(|| {
            calls.set(calls.get() + 1);
            Ok("yet another".to_string())
        })
        .unwrap();
    assert_eq!(calls.get(), 1);
    assert_eq!(h1.id, h2.id);
    assert_eq!(h2.id, h3.id);
    assert_eq!(h1.client, "display-server");
    assert_eq!(h3.client, "display-server");
}

#[test]
fn constructor_not_invoked_before_first_access() {
    let mut reg = all();
    let wayland_calls = Cell::new(0u32);
    let tray_calls = Cell::new(0u32);
    // Touch only the tray slot; the display-server constructor must not run.
    let _ = reg
        .tray(|| {
            tray_calls.set(tray_calls.get() + 1);
            Ok("tray".to_string())
        })
        .unwrap();
    assert_eq!(wayland_calls.get(), 0);
    assert_eq!(tray_calls.get(), 1);
    let _ = reg
        .wayland(|| {
            wayland_calls.set(wayland_calls.get() + 1);
            Ok("display-server".to_string())
        })
        .unwrap();
    assert_eq!(wayland_calls.get(), 1);
}

#[test]
fn per_key_construction_for_music() {
    let mut reg = all();
    let calls = Cell::new(0u32);
    let mk = |b: MusicBackend| {
        calls.set(calls.get() + 1);
        Ok(match b {
            MusicBackend::Mpd => "mpd".to_string(),
            MusicBackend::Mpris => "mpris".to_string(),
        })
    };
    let a1 = reg.music(MusicBackend::Mpd, mk).unwrap();
    let b1 = reg.music(MusicBackend::Mpris, mk).unwrap();
    let a2 = reg.music(MusicBackend::Mpd, mk).unwrap();
    assert_eq!(calls.get(), 2);
    assert_eq!(a1.id, a2.id);
    assert_ne!(a1.id, b1.id);
    assert_eq!(a1.client, "mpd");
    assert_eq!(b1.client, "mpris");
    assert_eq!(a2.client, "mpd");
}

#[test]
fn dependency_constructed_first_and_shared() {
    // The spec's example scenario: a fresh registry, the clipboard accessor
    // called first. The display-server constructor runs and completes before
    // the clipboard constructor, both slots end up filled, and a later
    // direct display-server access serves the instance constructed here.
    let mut reg = all();
    let events = RefCell::new(Vec::new());
    let seen_wayland_id = Cell::new(u64::MAX);
    let ch = reg
        .clipboard(
            || {
                events.borrow_mut().push("display-server constructed");
                Ok("display-server".to_string())
            },
            |wayland: Handle<String>| {
                events.borrow_mut().push("clipboard constructed");
                seen_wayland_id.set(wayland.id);
                assert_eq!(wayland.client, "display-server");
                Ok("clipboard".to_string())
            },
        )
        .unwrap();
    assert_eq!(
        events.borrow().as_slice(),
        ["display-server constructed", "clipboard constructed"]
    );
    assert_eq!(ch.client, "clipboard");
    // A direct access now serves the cached instance without reconstruction.
    let wayland_calls = Cell::new(0u32);
    let wh = reg
        .wayland(|| {
            wayland_calls.set(wayland_calls.get() + 1);
            Ok("unused".to_string())
        })
        .unwrap();
    assert_eq!(wayland_calls.get(), 0);
    assert_eq!(wh.id, seen_wayland_id.get());
    assert_ne!(wh.id, ch.id);
}

#[test]
fn clipboard_served_from_cache_on_second_access() {
    let mut reg = all();
    let clipboard_calls = Cell::new(0u32);
    let wayland_calls = Cell::new(0u32);
    let mk_wayland = || {
        wayland_calls.set(wayland_calls.get() + 1);
        Ok("display-server".to_string())
    };
    let h1 = reg
        .clipboard(&mk_wayland, |_wayland| {
            clipboard_calls.set(clipboard_calls.get() + 1);
            Ok("clipboard".to_string())
        })
        .unwrap();
    let h2 = reg
        .clipboard(&mk_wayland, |_wayland| {
            clipboard_calls.set(clipboard_calls.get() + 1);
            Ok("clipboard again".to_string())
        })
        .unwrap();
    // Neither constructor ran again: the cached clipboard is served as-is,
    // and its already-constructed dependency is not reconstructed either.
    assert_eq!(clipboard_calls.get(), 1);
    assert_eq!(wayland_calls.get(), 1);
    assert_eq!(h1.id, h2.id);
    assert_eq!(h2.client, "clipboard");
}

#[test]
fn dependency_failure_propagates_and_dependent_is_not_constructed() {
    let mut reg = all();
    let clipboard_calls = Cell::new(0u32);
    let err = reg
        .clipboard(
            || Err("connection refused".to_string()),
            |_wayland| {
                clipboard_calls.set(clipboard_calls.get() + 1);
                Ok("clipboard".to_string())
            },
        )
        .unwrap_err();
    assert_eq!(clipboard_calls.get(), 0);
    assert!(matches!(
        &err,
        ClientError::Construction(ClientKind::Wayland, m) if m == "connection refused"
    ));
    assert_eq!(
        err.message(),
        "wayland client construction failed: connection refused"
    );
}

#[test]
fn failed_construction_leaves_slot_empty_for_retry() {
    let mut reg = all();
    let calls = Cell::new(0u32);
    let err = reg
        .workspaces(|| {
            calls.set(calls.get() + 1);
            Err("no compatible compositor detected".to_string())
        })
        .unwrap_err();
    assert_eq!(calls.get(), 1);
    assert_eq!(
        err.message(),
        "workspaces client construction failed: no compatible compositor detected"
    );
    let h = reg
        .workspaces(|| {
            calls.set(calls.get() + 1);
            Ok("compositor".to_string())
        })
        .unwrap();
    assert_eq!(calls.get(), 2);
    assert_eq!(h.client, "compositor");
}

#[test]
fn disabled_kind_is_reported_and_never_constructed() {
    let config = ClientConfig {
        clipboard: true,
        workspaces: true,
        music: true,
        tray: false,
        upower: false,
    };
    let mut reg: TestClients = Clients::new(config);
    let tray_calls = Cell::new(0u32);
    let err = reg
        .tray(|| {
            tray_calls.set(tray_calls.get() + 1);
            Ok("tray".to_string())
        })
        .unwrap_err();
    assert_eq!(tray_calls.get(), 0);
    assert!(matches!(&err, ClientError::Disabled(ClientKind::Tray)));
    assert_eq!(
        err.message(),
        "tray client support is not enabled in this registry"
    );
    let err = reg.upower(|| Err("unused".to_string())).unwrap_err();
    assert!(matches!(&err, ClientError::Disabled(ClientKind::Upower)));
}

#[test]
fn disabled_music_kind_serves_no_backend() {
    let config = ClientConfig {
        clipboard: true,
        workspaces: true,
        music: false,
        tray: true,
        upower: true,
    };
    let mut reg: TestClients = Clients::new(config);
    let calls = Cell::new(0u32);
    let err = reg
        .music(MusicBackend::Mpd, |_b| {
            calls.set(calls.get() + 1);
            Ok("mpd".to_string())
        })
        .unwrap_err();
    assert_eq!(calls.get(), 0);
    assert!(matches!(&err, ClientError::Disabled(ClientKind::Music)));
    assert_eq!(
        err.message(),
        "music client support is not enabled in this registry"
    );
}

#[test]
fn upower_construction_failure_names_the_subsystem() {
    let mut reg = all();
    let err = reg
        .upower(|| Err("no session bus available".to_string()))
        .unwrap_err();
    assert!(matches!(
        &err,
        ClientError::Construction(ClientKind::Upower, m) if m == "no session bus available"
    ));
    assert_eq!(
        err.message(),
        "upower client construction failed: no session bus available"
    );
}

#[test]
fn music_failure_is_per_backend() {
    let mut reg = all();
    let err = reg
        .music(MusicBackend::Mpd, |_b| Err("mpd socket missing".to_string()))
        .unwrap_err();
    assert_eq!(
        err.message(),
        "music client construction failed: mpd socket missing"
    );
    // The other backend is unaffected, and the failed one can be retried.
    let h = reg
        .music(MusicBackend::Mpris, |_b| Ok("mpris".to_string()))
        .unwrap();
    assert_eq!(h.client, "mpris");
    let h = reg.music(MusicBackend::Mpd, |_b| Ok("mpd".to_string())).unwrap();
    assert_eq!(h.client, "mpd");
}

/// A consumer context holding the registry, with hand-written glue routing
/// a capability request to the matching accessor.
struct Context {
    clients: RefCell<TestClients>,
}

impl ProvidesClient<String> for Context {
    fn provide(&self) -> Handle<String> {
        self.clients
            .borrow_mut()
            .wayland(|| Ok("display-server".to_string()))
            .expect("the display-server client to be constructible")
    }
}

#[test]
fn provider_serves_one_identity_per_context() {
    let ctx = Context {
        clients: RefCell::new(all()),
    };
    let h1 = ctx.provide();
    let h2 = ctx.provide();
    assert_eq!(h1.id, h2.id);
    assert_eq!(h1.client, "display-server");
}
