//! The registry: per-kind lazy slots, the mathematical model of their state,
//! and one accessor per kind.

use vstd::prelude::*;

use std::sync::Arc;

use crate::error::ClientError;
use crate::kinds::{ClientConfig, ClientKind, MusicBackend, SlotKey};

verus! {

/// One constructed client instance together with its identity.
///
/// The registry wraps every instance it constructs in one of these before
/// caching it, and all handles it hands out for that construction share it.
/// Within one registry, two handles lead to the same underlying instance
/// exactly when their identities are equal.
#[derive(Debug)]
pub struct Instance<T> {
    /// Identity of the construction event that produced this instance.
    pub id: u64,
    /// The client that was constructed.
    pub client: T,
}

/// A shared handle to a cached client instance.
pub type Handle<T> = Arc<Instance<T>>;

/// Relies on `<Arc<T> as Clone>::clone`: the clone is another pointer to the
/// same allocation, so as a value it is the value cloned.
#[verifier::external_body]
fn clone_handle<T>(h: &Handle<T>) -> (r: Handle<T>)
    ensures
        r == *h,
{
    h.clone()
}

/// The identity stored in an optional slot, if any.
pub open spec fn slot_id<T>(slot: Option<Handle<T>>) -> Option<u64> {
    match slot {
        Some(h) => Some(h.id),
        None => None,
    }
}

/// Whether some entry of `m` is keyed by `b`.
pub open spec fn music_has(m: Seq<(MusicBackend, u64)>, b: MusicBackend) -> bool {
    exists|i: int| 0 <= i < m.len() && m[i].0 == b
}

/// The index of the entry of `m` keyed by `b`.
pub open spec fn music_index(m: Seq<(MusicBackend, u64)>, b: MusicBackend) -> int {
    choose|i: int| 0 <= i < m.len() && m[i].0 == b
}

/// The identity cached for backend `b`, if any.
pub open spec fn music_lookup(m: Seq<(MusicBackend, u64)>, b: MusicBackend) -> Option<u64> {
    if music_has(m, b) {
        Some(m[music_index(m, b)].1)
    } else {
        None
    }
}

/// No two entries of `m` share a backend or an identity.
pub open spec fn music_distinct(m: Seq<(MusicBackend, u64)>) -> bool {
    forall|i: int, j: int|
        0 <= i < j < m.len() ==> m[i].0 != m[j].0 && m[i].1 != m[j].1
}

/// The mathematical state of a registry: which kinds it serves, per slot the
/// identity of the cached instance if any, how many times each slot's
/// constructor has been invoked, and the identity the next construction will
/// receive.
#[verifier::ext_equal]
pub struct RegistryModel {
    pub config: ClientConfig,
    pub wayland: Option<u64>,
    pub clipboard: Option<u64>,
    pub workspaces: Option<u64>,
    pub music: Seq<(MusicBackend, u64)>,
    pub tray: Option<u64>,
    pub upower: Option<u64>,
    pub next_id: u64,
    pub made: Map<SlotKey, nat>,
}

impl RegistryModel {
    /// The identity cached in slot `k`, if any.
    pub open spec fn cached(self, k: SlotKey) -> Option<u64> {
        match k {
            SlotKey::Wayland => self.wayland,
            SlotKey::Clipboard => self.clipboard,
            SlotKey::Workspaces => self.workspaces,
            SlotKey::Music(b) => music_lookup(self.music, b),
            SlotKey::Tray => self.tray,
            SlotKey::Upower => self.upower,
        }
    }

    /// How many instances the registry has cached.
    pub open spec fn slot_count(self) -> int {
        opt_count(self.wayland) + opt_count(self.clipboard) + opt_count(self.workspaces)
            + opt_count(self.tray) + opt_count(self.upower) + self.music.len()
    }

    /// Well-formedness: every cached identity was assigned before the next
    /// one to be handed out, the music slots are keyed and identified
    /// distinctly, and identities are assigned consecutively, so the next
    /// one equals the number of cached instances.
    pub open spec fn wf(self) -> bool {
        &&& music_distinct(self.music)
        &&& (self.clipboard is Some ==> self.wayland is Some)
        &&& (self.wayland matches Some(id) ==> id < self.next_id)
        &&& (self.clipboard matches Some(id) ==> id < self.next_id)
        &&& (self.workspaces matches Some(id) ==> id < self.next_id)
        &&& (self.tray matches Some(id) ==> id < self.next_id)
        &&& (self.upower matches Some(id) ==> id < self.next_id)
        &&& (forall|i: int| 0 <= i < self.music.len() ==> #[trigger] self.music[i].1 < self.next_id)
        &&& self.next_id == self.slot_count()
    }
}

/// 1 for a filled slot, 0 for an empty one.
pub open spec fn opt_count(o: Option<u64>) -> int {
    match o {
        Some(_) => 1,
        None => 0,
    }
}

/// A registry holds at most five single-instance slots and one music slot
/// per backend, so the identity counter stays tiny.
pub proof fn lemma_next_id_bound(m: RegistryModel)
    requires
        m.wf(),
    ensures
        m.next_id <= 7,
{
    if m.music.len() >= 3 {
        assert(m.music[0].0 != m.music[1].0);
        assert(m.music[0].0 != m.music[2].0);
        assert(m.music[1].0 != m.music[2].0);
        assert(false);
    }
}

/// A distinctly keyed table serves the entry at any index holding `b`.
pub proof fn lemma_music_lookup_found(m: Seq<(MusicBackend, u64)>, b: MusicBackend, i: int)
    requires
        music_distinct(m),
        0 <= i < m.len(),
        m[i].0 == b,
    ensures
        music_lookup(m, b) == Some(m[i].1),
{
    assert(music_has(m, b));
    let j = music_index(m, b);
    assert(0 <= j < m.len() && m[j].0 == b);
    if i < j {
        assert(m[i].0 != m[j].0);
    } else if j < i {
        assert(m[j].0 != m[i].0);
    }
}

/// Pushing an entry for a backend not yet present: the new backend is now
/// served with the pushed identity, and every other backend as before.
pub proof fn lemma_music_push(m: Seq<(MusicBackend, u64)>, b: MusicBackend, id: u64)
    requires
        music_distinct(m),
        !music_has(m, b),
    ensures
        music_lookup(m.push((b, id)), b) == Some(id),
        forall|b2: MusicBackend|
            b2 != b ==> music_lookup(m.push((b, id)), b2) == music_lookup(m, b2),
{
    let p = m.push((b, id));
    assert(p[m.len() as int] == (b, id));
    assert(music_has(p, b));
    let j = music_index(p, b);
    assert(0 <= j < p.len() && p[j].0 == b);
    if j < m.len() {
        assert(m[j] == p[j]);
        assert(music_has(m, b));
    }
    assert(music_lookup(p, b) == Some(id));
    assert forall|b2: MusicBackend| b2 != b implies music_lookup(p, b2) == music_lookup(m, b2) by {
        if music_has(m, b2) {
            let i = music_index(m, b2);
            assert(0 <= i < m.len() && m[i].0 == b2);
            assert(p[i] == m[i]);
            assert(music_has(p, b2));
            let j2 = music_index(p, b2);
            assert(0 <= j2 < p.len() && p[j2].0 == b2);
            assert(j2 != m.len() as int);
            assert(p[j2] == m[j2]);
            if i < j2 {
                assert(m[i].0 != m[j2].0);
            } else if j2 < i {
                assert(m[j2].0 != m[i].0);
            }
        } else {
            if music_has(p, b2) {
                let j2 = music_index(p, b2);
                assert(0 <= j2 < p.len() && p[j2].0 == b2);
                assert(j2 != m.len() as int);
                assert(p[j2] == m[j2]);
                assert(music_has(m, b2));
            }
        }
    }
}

/// Whether `out` is a result `ctor` can produce when handed the very
/// display-server handle whose identity `m` caches.
pub open spec fn built_on_wayland<W, C, FC: FnOnce(Handle<W>) -> Result<C, String>>(
    ctor: FC,
    out: Result<C, String>,
    m: RegistryModel,
) -> bool {
    exists|wh: Handle<W>|
        #[trigger] call_ensures(ctor, (wh,), out) && m.cached(SlotKey::Wayland) == Some(wh.id)
}

/// What one accessor call amounted to for the slot it addressed.
pub enum Outcome {
    /// A handle with the given identity was served.
    Provided(u64),
    /// The slot's constructor was invoked and reported failure.
    Failed,
    /// The slot's kind is not enabled; nothing was invoked.
    Disabled,
}

/// The outcome an accessor result stands for.
pub open spec fn outcome_of<T>(r: Result<Handle<T>, ClientError>) -> Outcome {
    match r {
        Ok(h) => Outcome::Provided(h.id),
        Err(ClientError::Disabled(_)) => Outcome::Disabled,
        Err(ClientError::Construction(_, _)) => Outcome::Failed,
    }
}

/// `pre`'s invocation counts with one more recorded against slot `k`.
pub open spec fn bump(pre: RegistryModel, k: SlotKey) -> Map<SlotKey, nat> {
    pre.made.insert(k, pre.made[k] + 1)
}

/// The model after slot `k`'s constructor was invoked and failed: only the
/// invocation count changes; no instance is cached.
pub open spec fn failed_step(pre: RegistryModel, k: SlotKey) -> RegistryModel {
    RegistryModel { made: bump(pre, k), ..pre }
}

/// `pre` with slot `k` filled by identity `id`.
pub open spec fn set_slot(pre: RegistryModel, k: SlotKey, id: u64) -> RegistryModel {
    match k {
        SlotKey::Wayland => RegistryModel { wayland: Some(id), ..pre },
        SlotKey::Clipboard => RegistryModel { clipboard: Some(id), ..pre },
        SlotKey::Workspaces => RegistryModel { workspaces: Some(id), ..pre },
        SlotKey::Music(b) => RegistryModel { music: pre.music.push((b, id)), ..pre },
        SlotKey::Tray => RegistryModel { tray: Some(id), ..pre },
        SlotKey::Upower => RegistryModel { upower: Some(id), ..pre },
    }
}

/// The model after slot `k`'s constructor was invoked and the new instance
/// was cached under the next identity.
pub open spec fn provided_step(pre: RegistryModel, k: SlotKey) -> RegistryModel {
    RegistryModel {
        next_id: (pre.next_id + 1) as u64,
        made: bump(pre, k),
        ..set_slot(pre, k, pre.next_id)
    }
}

/// Whether slot `k`'s dependency, if its kind has one, is already
/// constructed: the clipboard client is built from the display-server
/// handle, so its constructor only ever runs with that slot filled.
pub open spec fn dep_ready(pre: RegistryModel, k: SlotKey) -> bool {
    k == SlotKey::Clipboard ==> pre.cached(SlotKey::Wayland) is Some
}

/// The transition one accessor call makes on the slot it addresses: a
/// disabled kind changes nothing; a filled slot serves its identity and
/// changes nothing; an empty slot of an enabled kind — its dependency, if
/// any, already constructed — has its constructor invoked exactly once,
/// which either fills the slot with the next identity or leaves the slot
/// empty.
pub open spec fn slot_step(
    pre: RegistryModel,
    post: RegistryModel,
    k: SlotKey,
    o: Outcome,
) -> bool {
    match o {
        Outcome::Disabled => !pre.config.enables(k.kind()) && post == pre,
        Outcome::Failed => pre.config.enables(k.kind()) && pre.cached(k) is None && dep_ready(
            pre,
            k,
        ) && post == failed_step(pre, k),
        Outcome::Provided(id) => pre.config.enables(k.kind()) && ((pre.cached(k) == Some(id)
            && post == pre) || (pre.cached(k) is None && dep_ready(pre, k) && id == pre.next_id
            && post == provided_step(pre, k))),
    }
}

/// The heterogeneous lazy registry. It owns at most one shared client
/// instance per kind (one per backend for the music kind), constructs an
/// instance only the first time its slot is asked for, and serves every
/// later call from the cache. The kinds it serves at all are fixed by the
/// configuration it is created with; an accessor of a kind left out reports
/// it as disabled and constructs nothing.
///
/// The type parameters are the client types the surrounding application
/// integrates: the display-server client `W`, the clipboard watcher `C`,
/// the workspace tracker `K`, the media-player client `M` and the tray
/// event source `T`. The power-state slot caches the D-Bus properties proxy
/// directly.
///
/// Every accessor takes the registry by exclusive reference, so concurrent
/// logical flows serialise their calls and check-construct-store is atomic
/// with respect to other callers: however simultaneous first accesses are
/// ordered, exactly one of them constructs, and all receive one identity.
pub struct Clients<W, C, K, M, T> {
    config: ClientConfig,
    next_id: u64,
    wayland: Option<Handle<W>>,
    clipboard: Option<Handle<C>>,
    workspaces: Option<Handle<K>>,
    music: Vec<(MusicBackend, Handle<M>)>,
    tray: Option<Handle<T>>,
    upower: Option<Handle<zbus::fdo::PropertiesProxy<'static>>>,
    made: Ghost<Map<SlotKey, nat>>,
}

/// The D-Bus properties proxy the power-state slot caches; the registry
/// stores values of it and never looks inside.
#[verifier::external_type_specification]
#[verifier::external_body]
pub struct ExPropertiesProxy<'a>(zbus::fdo::PropertiesProxy<'a>);

impl<W, C, K, M, T> View for Clients<W, C, K, M, T> {
    type V = RegistryModel;

    closed spec fn view(&self) -> RegistryModel {
        RegistryModel {
            config: self.config,
            wayland: slot_id(self.wayland),
            clipboard: slot_id(self.clipboard),
            workspaces: slot_id(self.workspaces),
            music: self.music@.map_values(|p: (MusicBackend, Handle<M>)| (p.0, p.1.id)),
            tray: slot_id(self.tray),
            upower: slot_id(self.upower),
            next_id: self.next_id,
            made: self.made@,
        }
    }
}

impl<W, C, K, M, T> Clients<W, C, K, M, T> {
    /// A fresh registry serving the kinds `config` enables: every slot
    /// empty, and no constructor invoked yet.
    pub fn new(config: ClientConfig) -> (r: Clients<W, C, K, M, T>)
        ensures
            r@.wf(),
            r@.config == config,
            r@.next_id == 0,
            forall|k: SlotKey| r@.cached(k) is None,
            forall|k: SlotKey| r@.made[k] == 0,
    {
        let r = Clients {
            config,
            next_id: 0,
            wayland: None,
            clipboard: None,
            workspaces: None,
            music: Vec::new(),
            tray: None,
            upower: None,
            made: Ghost(Map::total(|k: SlotKey| 0nat)),
        };
        proof {
            assert(forall|k: SlotKey| r@.cached(k) is None) by {
                assert(forall|b: MusicBackend| !music_has(r@.music, b));
            }
        }
        r
    }

    /// The display-server client, constructing it on first access.
    ///
    /// If the slot is already filled the cached handle is served unchanged
    /// and `ctor` is not invoked. Otherwise `ctor` is invoked once: on
    /// success its client is cached under a fresh identity and a handle to
    /// it is returned; on failure the slot stays empty and the error names
    /// this subsystem and the constructor's reason.
    pub fn wayland<F: FnOnce() -> Result<W, String>>(&mut self, ctor: F) -> (r: Result<
        Handle<W>,
        ClientError,
    >)
        requires
            old(self)@.wf(),
            call_requires(ctor, ()),
        ensures
            final(self)@.wf(),
            slot_step(old(self)@, final(self)@, SlotKey::Wayland, outcome_of(r)),
            r matches Ok(h) ==> final(self)@.cached(SlotKey::Wayland) == Some(h.id),
            old(self)@.cached(SlotKey::Wayland) matches Some(id) ==> r matches Ok(h) && h.id
                == id,
            r is Err ==> old(self)@.cached(SlotKey::Wayland) is None,
            old(self)@.cached(SlotKey::Wayland) is None ==> match r {
                Ok(h) => call_ensures(ctor, (), Ok(h.client)),
                Err(e) => e matches ClientError::Construction(k, m) && k == ClientKind::Wayland
                    && call_ensures(ctor, (), Err(m)),
            },
    {
        if self.wayland.is_some() {
            return Ok(clone_handle(self.wayland.as_ref().unwrap()));
        }
        proof {
            lemma_next_id_bound(old(self)@);
        }
        match ctor() {
            Ok(client) => {
                let id = self.next_id;
                let h = Arc::new(Instance { id, client });
                self.wayland = Some(clone_handle(&h));
                self.next_id = id + 1;
                self.made = Ghost(bump(old(self)@, SlotKey::Wayland));
                proof {
                    assert(self@ =~= provided_step(old(self)@, SlotKey::Wayland));
                }
                Ok(h)
            },
            Err(m) => {
                let e = ClientError::Construction(ClientKind::Wayland, m);
                self.made = Ghost(bump(old(self)@, SlotKey::Wayland));
                proof {
                    assert(self@ =~= failed_step(old(self)@, SlotKey::Wayland));
                }
                Err(e)
            },
        }
    }

    /// The workspace-tracker client, constructing it on first access.
    ///
    /// If the kind is disabled in this registry's configuration the accessor
    /// reports that and invokes nothing. Otherwise a filled slot is served
    /// unchanged without invoking `ctor`, and an empty one has `ctor`
    /// invoked exactly once: on success its client is cached under a fresh
    /// identity; on failure the slot stays empty and the error carries the
    /// constructor's reason.
    pub fn workspaces<F: FnOnce() -> Result<K, String>>(&mut self, ctor: F) -> (r: Result<
        Handle<K>,
        ClientError,
    >)
        requires
            old(self)@.wf(),
            call_requires(ctor, ()),
        ensures
            final(self)@.wf(),
            slot_step(old(self)@, final(self)@, SlotKey::Workspaces, outcome_of(r)),
            r matches Ok(h) ==> final(self)@.cached(SlotKey::Workspaces) == Some(h.id),
            !old(self)@.config.enables(ClientKind::Workspaces) ==> r == Err::<
                Handle<K>,
                ClientError,
            >(ClientError::Disabled(ClientKind::Workspaces)),
            old(self)@.config.enables(ClientKind::Workspaces) ==> (old(self)@.cached(
                SlotKey::Workspaces,
            ) matches Some(id) ==> r matches Ok(h) && h.id == id),
            old(self)@.config.enables(ClientKind::Workspaces) && old(self)@.cached(
                SlotKey::Workspaces,
            ) is None ==> match r {
                Ok(h) => call_ensures(ctor, (), Ok(h.client)),
                Err(e) => e matches ClientError::Construction(k, m) && k == ClientKind::Workspaces
                    && call_ensures(ctor, (), Err(m)),
            },
    {
        if !self.config.workspaces {
            return Err(ClientError::Disabled(ClientKind::Workspaces));
        }
        if self.workspaces.is_some() {
            return Ok(clone_handle(self.workspaces.as_ref().unwrap()));
        }
        proof {
            lemma_next_id_bound(old(self)@);
        }
        match ctor() {
            Ok(client) => {
                let id = self.next_id;
                let h = Arc::new(Instance { id, client });
                self.workspaces = Some(clone_handle(&h));
                self.next_id = id + 1;
                self.made = Ghost(bump(old(self)@, SlotKey::Workspaces));
                proof {
                    assert(self@ =~= provided_step(old(self)@, SlotKey::Workspaces));
                }
                Ok(h)
            },
            Err(m) => {
                let e = ClientError::Construction(ClientKind::Workspaces, m);
                self.made = Ghost(bump(old(self)@, SlotKey::Workspaces));
                proof {
                    assert(self@ =~= failed_step(old(self)@, SlotKey::Workspaces));
                }
                Err(e)
            },
        }
    }

    /// The status-tray event source, constructing it on first access.
    ///
    /// If the kind is disabled in this registry's configuration the accessor
    /// reports that and invokes nothing. Otherwise a filled slot is served
    /// unchanged without invoking `ctor`, and an empty one has `ctor`
    /// invoked exactly once: on success its client is cached under a fresh
    /// identity; on failure the slot stays empty and the error carries the
    /// constructor's reason.
    pub fn tray<F: FnOnce() -> Result<T, String>>(&mut self, ctor: F) -> (r: Result<
        Handle<T>,
        ClientError,
    >)
        requires
            old(self)@.wf(),
            call_requires(ctor, ()),
        ensures
            final(self)@.wf(),
            slot_step(old(self)@, final(self)@, SlotKey::Tray, outcome_of(r)),
            r matches Ok(h) ==> final(self)@.cached(SlotKey::Tray) == Some(h.id),
            !old(self)@.config.enables(ClientKind::Tray) ==> r == Err::<
                Handle<T>,
                ClientError,
            >(ClientError::Disabled(ClientKind::Tray)),
            old(self)@.config.enables(ClientKind::Tray) ==> (old(self)@.cached(
                SlotKey::Tray,
            ) matches Some(id) ==> r matches Ok(h) && h.id == id),
            old(self)@.config.enables(ClientKind::Tray) && old(self)@.cached(SlotKey::Tray) is None
                ==> match r {
                Ok(h) => call_ensures(ctor, (), Ok(h.client)),
                Err(e) => e matches ClientError::Construction(k, m) && k == ClientKind::Tray
                    && call_ensures(ctor, (), Err(m)),
            },
    {
        if !self.config.tray {
            return Err(ClientError::Disabled(ClientKind::Tray));
        }
        if self.tray.is_some() {
            return Ok(clone_handle(self.tray.as_ref().unwrap()));
        }
        proof {
            lemma_next_id_bound(old(self)@);
        }
        match ctor() {
            Ok(client) => {
                let id = self.next_id;
                let h = Arc::new(Instance { id, client });
                self.tray = Some(clone_handle(&h));
                self.next_id = id + 1;
                self.made = Ghost(bump(old(self)@, SlotKey::Tray));
                proof {
                    assert(self@ =~= provided_step(old(self)@, SlotKey::Tray));
                }
                Ok(h)
            },
            Err(m) => {
                let e = ClientError::Construction(ClientKind::Tray, m);
                self.made = Ghost(bump(old(self)@, SlotKey::Tray));
                proof {
                    assert(self@ =~= failed_step(old(self)@, SlotKey::Tray));
                }
                Err(e)
            },
        }
    }

    /// The clipboard watcher, constructing it on first access. The clipboard
    /// client depends on the display-server client: this accessor first
    /// obtains that handle through `Self::wayland` (constructing it if its
    /// slot is still empty), and only then, if the clipboard slot is empty,
    /// invokes `ctor` with the fully constructed display-server handle.
    ///
    /// If the kind is disabled in this registry's configuration the accessor
    /// reports that and invokes nothing, not even the dependency. If the
    /// display-server constructor fails, that failure propagates and `ctor`
    /// is not invoked. A filled clipboard slot is served unchanged without
    /// invoking `ctor`.
    #[verifier::rlimit(30)]
    pub fn clipboard<
        FW: FnOnce() -> Result<W, String>,
        FC: FnOnce(Handle<W>) -> Result<C, String>,
    >(&mut self, wayland_ctor: FW, ctor: FC) -> (r: Result<Handle<C>, ClientError>)
        requires
            old(self)@.wf(),
            call_requires(wayland_ctor, ()),
            forall|wh: Handle<W>| call_requires(ctor, (wh,)),
        ensures
            final(self)@.wf(),
            !old(self)@.config.enables(ClientKind::Clipboard) ==> r == Err::<
                Handle<C>,
                ClientError,
            >(ClientError::Disabled(ClientKind::Clipboard)) && slot_step(
                old(self)@,
                final(self)@,
                SlotKey::Clipboard,
                Outcome::Disabled,
            ),
            r matches Err(e) ==> match e {
                ClientError::Disabled(k) => k == ClientKind::Clipboard && !old(
                    self,
                )@.config.enables(ClientKind::Clipboard),
                ClientError::Construction(k, m) => (k == ClientKind::Wayland && call_ensures(
                    wayland_ctor,
                    (),
                    Err::<W, String>(m),
                ) && slot_step(old(self)@, final(self)@, SlotKey::Wayland, Outcome::Failed)) || (k
                    == ClientKind::Clipboard && built_on_wayland(
                    ctor,
                    Err::<C, String>(m),
                    final(self)@,
                )),
            },
            old(self)@.config.enables(ClientKind::Clipboard) && !(r matches Err(
                ClientError::Construction(ClientKind::Wayland, _),
            )) ==> exists|mid: RegistryModel, wid: u64|
                #[trigger] slot_step(old(self)@, mid, SlotKey::Wayland, Outcome::Provided(wid))
                    && slot_step(mid, final(self)@, SlotKey::Clipboard, outcome_of(r)),
            old(self)@.config.enables(ClientKind::Clipboard) && old(self)@.cached(
                SlotKey::Wayland,
            ) is None && !(r matches Err(ClientError::Construction(ClientKind::Wayland, _)))
                ==> exists|w: W| #[trigger] call_ensures(wayland_ctor, (), Ok::<W, String>(w)),
            r matches Ok(h) ==> final(self)@.cached(SlotKey::Clipboard) == Some(h.id) && final(self)@.cached(SlotKey::Wayland) is Some,
            old(self)@.config.enables(ClientKind::Clipboard) ==> (old(self)@.cached(
                SlotKey::Clipboard,
            ) matches Some(id) ==> r matches Ok(h) && h.id == id && final(self)@ == old(self)@),
            old(self)@.config.enables(ClientKind::Clipboard) && old(self)@.cached(
                SlotKey::Clipboard,
            ) is None ==> match r {
                Ok(h) => built_on_wayland(ctor, Ok(h.client), final(self)@),
                Err(e) => match e {
                    ClientError::Construction(k, m) => k == ClientKind::Clipboard
                        ==> built_on_wayland(ctor, Err::<C, String>(m), final(self)@),
                    ClientError::Disabled(_) => true,
                },
            },
    {
        if !self.config.clipboard {
            return Err(ClientError::Disabled(ClientKind::Clipboard));
        }
        let wh = match self.wayland(wayland_ctor) {
            Ok(wh) => wh,
            Err(e) => {
                return Err(e);
            },
        };
        let ghost mid = self@;
        let ghost gwh = wh;
        proof {
            if old(self)@.cached(SlotKey::Wayland) is None {
                assert(call_ensures(wayland_ctor, (), Ok::<W, String>(gwh.client)));
            }
        }
        if self.clipboard.is_some() {
            return Ok(clone_handle(self.clipboard.as_ref().unwrap()));
        }
        proof {
            lemma_next_id_bound(mid);
        }
        match ctor(wh) {
            Ok(client) => {
                let id = self.next_id;
                let h = Arc::new(Instance { id, client });
                self.clipboard = Some(clone_handle(&h));
                self.next_id = id + 1;
                self.made = Ghost(bump(mid, SlotKey::Clipboard));
                proof {
                    assert(self@ =~= provided_step(mid, SlotKey::Clipboard));
                    assert(built_on_wayland(ctor, Ok::<C, String>(h.client), self@)) by {
                        assert(call_ensures(ctor, (gwh,), Ok::<C, String>(h.client))
                            && self@.cached(SlotKey::Wayland) == Some(gwh.id));
                    }
                }
                Ok(h)
            },
            Err(m) => {
                let ghost gm = m;
                let e = ClientError::Construction(ClientKind::Clipboard, m);
                self.made = Ghost(bump(mid, SlotKey::Clipboard));
                proof {
                    assert(self@ =~= failed_step(mid, SlotKey::Clipboard));
                    assert(built_on_wayland(ctor, Err::<C, String>(gm), self@)) by {
                        assert(call_ensures(ctor, (gwh,), Err::<C, String>(gm))
                            && self@.cached(SlotKey::Wayland) == Some(gwh.id));
                    }
                }
                Err(e)
            },
        }
    }

    /// The index of the music slot keyed by `b`, if one is filled.
    fn music_position(&self, b: MusicBackend) -> (r: Option<usize>)
        ensures
            match r {
                Some(i) => i < self.music@.len() && self.music@[i as int].0 == b,
                None => forall|j: int| 0 <= j < self.music@.len() ==> self.music@[j].0 != b,
            },
    {
        let mut i: usize = 0;
        while i < self.music.len()
            invariant
                i <= self.music@.len(),
                forall|j: int| 0 <= j < i ==> self.music@[j].0 != b,
            decreases self.music@.len() - i,
        {
            if self.music[i].0 == b {
                return Some(i);
            }
            i += 1;
        }
        None
    }

    /// The media-player client for backend `backend`, constructing it on
    /// first access. The music kind keeps one instance per backend: each
    /// backend has a slot of its own, and distinct backends never share an
    /// instance.
    ///
    /// If the kind is disabled in this registry's configuration the accessor
    /// reports that and invokes nothing. Otherwise a filled slot for the
    /// backend is served unchanged without invoking `ctor`, and an empty one
    /// has `ctor` invoked exactly once with the backend asked for: on
    /// success its client is cached under a fresh identity; on failure the
    /// slot stays empty and the error carries the constructor's reason.
    pub fn music<F: FnOnce(MusicBackend) -> Result<M, String>>(
        &mut self,
        backend: MusicBackend,
        ctor: F,
    ) -> (r: Result<Handle<M>, ClientError>)
        requires
            old(self)@.wf(),
            call_requires(ctor, (backend,)),
        ensures
            final(self)@.wf(),
            slot_step(old(self)@, final(self)@, SlotKey::Music(backend), outcome_of(r)),
            r matches Ok(h) ==> final(self)@.cached(SlotKey::Music(backend)) == Some(h.id),
            !old(self)@.config.enables(ClientKind::Music) ==> r == Err::<
                Handle<M>,
                ClientError,
            >(ClientError::Disabled(ClientKind::Music)),
            old(self)@.config.enables(ClientKind::Music) ==> (old(self)@.cached(
                SlotKey::Music(backend),
            ) matches Some(id) ==> r matches Ok(h) && h.id == id),
            old(self)@.config.enables(ClientKind::Music) && old(self)@.cached(
                SlotKey::Music(backend),
            ) is None ==> match r {
                Ok(h) => call_ensures(ctor, (backend,), Ok(h.client)),
                Err(e) => e matches ClientError::Construction(k, m) && k == ClientKind::Music
                    && call_ensures(ctor, (backend,), Err(m)),
            },
    {
        if !self.config.music {
            return Err(ClientError::Disabled(ClientKind::Music));
        }
        match self.music_position(backend) {
            Some(i) => {
                proof {
                    assert(self@.music[i as int] == (self.music@[i as int].0, self.music@[i as int].1.id));
                    lemma_music_lookup_found(self@.music, backend, i as int);
                }
                Ok(clone_handle(&self.music[i].1))
            },
            None => {
                proof {
                    lemma_next_id_bound(old(self)@);
                    assert forall|j: int| 0 <= j < old(self)@.music.len() implies old(
                        self,
                    )@.music[j].0 != backend by {
                        assert(old(self)@.music[j] == (self.music@[j].0, self.music@[j].1.id));
                    }
                    assert(!music_has(old(self)@.music, backend));
                }
                match ctor(backend) {
                    Ok(client) => {
                        let id = self.next_id;
                        let h = Arc::new(Instance { id, client });
                        self.music.push((backend, clone_handle(&h)));
                        self.next_id = id + 1;
                        self.made = Ghost(bump(old(self)@, SlotKey::Music(backend)));
                        proof {
                            assert(self@.music =~= old(self)@.music.push((backend, id)));
                            lemma_music_push(old(self)@.music, backend, id);
                            assert(self@ =~= provided_step(old(self)@, SlotKey::Music(backend)));
                            assert(music_distinct(self@.music));
                        }
                        Ok(h)
                    },
                    Err(m) => {
                        let e = ClientError::Construction(ClientKind::Music, m);
                        self.made = Ghost(bump(old(self)@, SlotKey::Music(backend)));
                        proof {
                            assert(self@ =~= failed_step(old(self)@, SlotKey::Music(backend)));
                        }
                        Err(e)
                    },
                }
            },
        }
    }

    /// The power-state observer: a D-Bus properties proxy, constructed on
    /// first access and cached for the registry's lifetime.
    ///
    /// If the kind is disabled in this registry's configuration the accessor
    /// reports that and invokes nothing. Otherwise a filled slot is served
    /// unchanged without invoking `ctor`, and an empty one has `ctor`
    /// invoked exactly once: on success the proxy is cached under a fresh
    /// identity; on failure the slot stays empty and the error carries the
    /// constructor's reason.
    pub fn upower<F: FnOnce() -> Result<zbus::fdo::PropertiesProxy<'static>, String>>(
        &mut self,
        ctor: F,
    ) -> (r: Result<Handle<zbus::fdo::PropertiesProxy<'static>>, ClientError>)
        requires
            old(self)@.wf(),
            call_requires(ctor, ()),
        ensures
            final(self)@.wf(),
            slot_step(old(self)@, final(self)@, SlotKey::Upower, outcome_of(r)),
            r matches Ok(h) ==> final(self)@.cached(SlotKey::Upower) == Some(h.id),
            !old(self)@.config.enables(ClientKind::Upower) ==> r == Err::<
                Handle<zbus::fdo::PropertiesProxy<'static>>,
                ClientError,
            >(ClientError::Disabled(ClientKind::Upower)),
            old(self)@.config.enables(ClientKind::Upower) ==> (old(self)@.cached(
                SlotKey::Upower,
            ) matches Some(id) ==> r matches Ok(h) && h.id == id),
            old(self)@.config.enables(ClientKind::Upower) && old(self)@.cached(
                SlotKey::Upower,
            ) is None ==> match r {
                Ok(h) => call_ensures(ctor, (), Ok(h.client)),
                Err(e) => e matches ClientError::Construction(k, m) && k == ClientKind::Upower
                    && call_ensures(ctor, (), Err(m)),
            },
    {
        if !self.config.upower {
            return Err(ClientError::Disabled(ClientKind::Upower));
        }
        if self.upower.is_some() {
            return Ok(clone_handle(self.upower.as_ref().unwrap()));
        }
        proof {
            lemma_next_id_bound(old(self)@);
        }
        match ctor() {
            Ok(client) => {
                let id = self.next_id;
                let h = Arc::new(Instance { id, client });
                self.upower = Some(clone_handle(&h));
                self.next_id = id + 1;
                self.made = Ghost(bump(old(self)@, SlotKey::Upower));
                proof {
                    assert(self@ =~= provided_step(old(self)@, SlotKey::Upower));
                }
                Ok(h)
            },
            Err(m) => {
                let e = ClientError::Construction(ClientKind::Upower, m);
                self.made = Ghost(bump(old(self)@, SlotKey::Upower));
                proof {
                    assert(self@ =~= failed_step(old(self)@, SlotKey::Upower));
                }
                Err(e)
            },
        }
    }
}

} // verus!
