//! The registry's lifecycle laws, proved over the model: what any one
//! accessor step does to the slots, and what whole traces of accessor steps
//! can and cannot do.

use vstd::prelude::*;

use crate::kinds::{ClientKind, MusicBackend, SlotKey};
use crate::registry::{
    lemma_music_push, lemma_next_id_bound, music_distinct, music_has, Outcome, RegistryModel,
    slot_step,
};

verus! {

/// What any one accessor step does: it preserves well-formedness and the
/// configuration, touches no other slot's cache or count, and on its own
/// slot either serves the cached identity unchanged, or invokes the
/// constructor exactly once — filling the slot with the fresh identity on
/// success and leaving it empty on failure — or, for a disabled kind,
/// changes nothing at all.
pub proof fn lemma_step_props(pre: RegistryModel, post: RegistryModel, k: SlotKey, o: Outcome)
    requires
        pre.wf(),
        slot_step(pre, post, k, o),
    ensures
        post.wf(),
        post.config == pre.config,
        forall|k2: SlotKey| k2 != k ==> post.cached(k2) == pre.cached(k2),
        forall|k2: SlotKey| k2 != k ==> post.made[k2] == pre.made[k2],
        o matches Outcome::Provided(id) ==> post.cached(k) == Some(id),
        o matches Outcome::Provided(id) ==> (pre.cached(k) == Some(id) && post == pre) || (
        pre.cached(k) is None && id == pre.next_id && post.made[k] == pre.made[k] + 1
            && post.next_id == pre.next_id + 1),
        o is Failed ==> post.cached(k) is None && post.made[k] == pre.made[k] + 1 && post.next_id
            == pre.next_id,
        o is Disabled ==> post == pre && !pre.config.enables(k.kind()),
{
    lemma_next_id_bound(pre);
    match o {
        Outcome::Disabled => {},
        Outcome::Failed => {},
        Outcome::Provided(id) => {
            if pre.cached(k) is None {
                match k {
                    SlotKey::Music(b) => {
                        assert(!music_has(pre.music, b));
                        lemma_music_push(pre.music, b, pre.next_id);
                        assert(music_distinct(post.music)) by {
                            assert(forall|i: int|
                                0 <= i < pre.music.len() ==> #[trigger] pre.music[i].0 != b);
                            assert(forall|i: int|
                                0 <= i < pre.music.len() ==> #[trigger] pre.music[i].1
                                    < pre.next_id);
                            assert(post.music.len() == pre.music.len() + 1);
                            assert(forall|i: int|
                                0 <= i < pre.music.len() ==> post.music[i] == pre.music[i]);
                            assert(post.music[pre.music.len() as int] == (b, pre.next_id));
                        }
                    },
                    _ => {},
                }
            }
        },
    }
}

/// A filled slot of an enabled kind is definitive: a step for it serves
/// exactly the cached identity, changes nothing, and invokes nothing.
pub proof fn lemma_cached_step(pre: RegistryModel, post: RegistryModel, k: SlotKey, o: Outcome)
    requires
        pre.wf(),
        pre.config.enables(k.kind()),
        pre.cached(k) is Some,
        slot_step(pre, post, k, o),
    ensures
        post == pre,
        o matches Outcome::Provided(id) && Some(id) == pre.cached(k),
        post.made[k] == pre.made[k],
{
}

/// Single construction: from a state where slot `k` of an enabled kind is
/// empty, a first step that provides a handle invokes the constructor
/// exactly once, and any further step for `k` serves the very same identity,
/// changes nothing, and invokes nothing. Exclusive access to the registry
/// serialises calls, so this also covers simultaneous first-time access:
/// however the calls are ordered, exactly one of them constructs.
pub proof fn lemma_single_construction(
    s0: RegistryModel,
    s1: RegistryModel,
    s2: RegistryModel,
    k: SlotKey,
    id1: u64,
    o2: Outcome,
)
    requires
        s0.wf(),
        s0.config.enables(k.kind()),
        s0.cached(k) is None,
        slot_step(s0, s1, k, Outcome::Provided(id1)),
        slot_step(s1, s2, k, o2),
    ensures
        s1.cached(k) == Some(id1),
        s1.made[k] == s0.made[k] + 1,
        s2 == s1,
        o2 == Outcome::Provided(id1),
        s2.made[k] == s0.made[k] + 1,
{
    lemma_step_props(s0, s1, k, Outcome::Provided(id1));
    lemma_cached_step(s1, s2, k, o2);
}

/// Per-key construction for the music kind: over the backend trace `a`,
/// `b`, `a` (with `a` and `b` distinct, both fresh), the constructor is
/// invoked exactly once for each backend, the third step serves the handle
/// of the first unchanged, and the two backends' instances are distinct.
pub proof fn lemma_per_key_construction(
    s0: RegistryModel,
    s1: RegistryModel,
    s2: RegistryModel,
    s3: RegistryModel,
    a: MusicBackend,
    b: MusicBackend,
    ia: u64,
    ib: u64,
    o3: Outcome,
)
    requires
        s0.wf(),
        s0.config.enables(ClientKind::Music),
        a != b,
        s0.cached(SlotKey::Music(a)) is None,
        s0.cached(SlotKey::Music(b)) is None,
        slot_step(s0, s1, SlotKey::Music(a), Outcome::Provided(ia)),
        slot_step(s1, s2, SlotKey::Music(b), Outcome::Provided(ib)),
        slot_step(s2, s3, SlotKey::Music(a), o3),
    ensures
        o3 == Outcome::Provided(ia),
        s3 == s2,
        ia != ib,
        s3.cached(SlotKey::Music(a)) == Some(ia),
        s3.cached(SlotKey::Music(b)) == Some(ib),
        s3.made[SlotKey::Music(a)] == s0.made[SlotKey::Music(a)] + 1,
        s3.made[SlotKey::Music(b)] == s0.made[SlotKey::Music(b)] + 1,
{
    lemma_step_props(s0, s1, SlotKey::Music(a), Outcome::Provided(ia));
    lemma_step_props(s1, s2, SlotKey::Music(b), Outcome::Provided(ib));
    lemma_cached_step(s2, s3, SlotKey::Music(a), o3);
}

/// Dependency order: when the dependent kind's accessor is the very first
/// registry interaction and both constructions succeed, the display-server
/// step comes first — its instance is constructed, cached and fully
/// identified in the intermediate state, before the clipboard constructor
/// runs — and each constructor is invoked exactly once.
pub proof fn lemma_dependency_order(
    s0: RegistryModel,
    mid: RegistryModel,
    s: RegistryModel,
    wid: u64,
    cid: u64,
)
    requires
        s0.wf(),
        s0.config.enables(ClientKind::Clipboard),
        s0.cached(SlotKey::Wayland) is None,
        s0.cached(SlotKey::Clipboard) is None,
        slot_step(s0, mid, SlotKey::Wayland, Outcome::Provided(wid)),
        slot_step(mid, s, SlotKey::Clipboard, Outcome::Provided(cid)),
    ensures
        mid.cached(SlotKey::Wayland) == Some(wid),
        mid.made[SlotKey::Wayland] == s0.made[SlotKey::Wayland] + 1,
        mid.cached(SlotKey::Clipboard) is None,
        mid.made[SlotKey::Clipboard] == s0.made[SlotKey::Clipboard],
        s.cached(SlotKey::Wayland) == Some(wid),
        s.cached(SlotKey::Clipboard) == Some(cid),
        s.made[SlotKey::Wayland] == s0.made[SlotKey::Wayland] + 1,
        s.made[SlotKey::Clipboard] == s0.made[SlotKey::Clipboard] + 1,
        wid != cid,
{
    lemma_step_props(s0, mid, SlotKey::Wayland, Outcome::Provided(wid));
    lemma_step_props(mid, s, SlotKey::Clipboard, Outcome::Provided(cid));
}

/// Whether `states` records a run of the registry: each consecutive pair of
/// states is one accessor step, addressing the slot and yielding the outcome
/// that `t` records at that position.
pub open spec fn is_run(states: Seq<RegistryModel>, t: Seq<(SlotKey, Outcome)>) -> bool {
    &&& states.len() == t.len() + 1
    &&& forall|i: int|
        0 <= i < t.len() ==> #[trigger] slot_step(states[i], states[i + 1], t[i].0, t[i].1)
}

/// Along any run from a well-formed state, every state stays well-formed and
/// the configuration never changes.
pub proof fn lemma_run_wf(states: Seq<RegistryModel>, t: Seq<(SlotKey, Outcome)>, i: int)
    requires
        states[0].wf(),
        is_run(states, t),
        0 <= i < states.len(),
    ensures
        states[i].wf(),
        states[i].config == states[0].config,
    decreases i,
{
    if i > 0 {
        let j = i - 1;
        lemma_run_wf(states, t, j);
        assert(slot_step(states[j], states[j + 1], t[j].0, t[j].1));
        lemma_step_props(states[j], states[j + 1], t[j].0, t[j].1);
    }
}

/// Laziness: along a run in which no step addresses slot `k`, every state
/// leaves `k` exactly as it began — in particular, a registry never queried
/// for `k` has never invoked the slot's constructor.
pub proof fn lemma_laziness(
    states: Seq<RegistryModel>,
    t: Seq<(SlotKey, Outcome)>,
    k: SlotKey,
    i: int,
)
    requires
        states[0].wf(),
        is_run(states, t),
        forall|j: int| 0 <= j < t.len() ==> (#[trigger] t[j]).0 != k,
        0 <= i < states.len(),
    ensures
        states[i].made[k] == states[0].made[k],
        states[i].cached(k) == states[0].cached(k),
    decreases i,
{
    if i > 0 {
        let j = i - 1;
        lemma_laziness(states, t, k, j);
        lemma_run_wf(states, t, j);
        assert(slot_step(states[j], states[j + 1], t[j].0, t[j].1));
        lemma_step_props(states[j], states[j + 1], t[j].0, t[j].1);
    }
}

/// Absent kind: under a configuration that leaves the slot's kind out, no run
/// whatever can fill slot `k` or invoke its constructor.
pub proof fn lemma_absent_kind(
    states: Seq<RegistryModel>,
    t: Seq<(SlotKey, Outcome)>,
    k: SlotKey,
    i: int,
)
    requires
        states[0].wf(),
        !states[0].config.enables(k.kind()),
        states[0].cached(k) is None,
        states[0].made[k] == 0,
        is_run(states, t),
        0 <= i < states.len(),
    ensures
        states[i].cached(k) is None,
        states[i].made[k] == 0,
    decreases i,
{
    if i > 0 {
        let j = i - 1;
        lemma_absent_kind(states, t, k, j);
        lemma_run_wf(states, t, j);
        assert(slot_step(states[j], states[j + 1], t[j].0, t[j].1));
        lemma_step_props(states[j], states[j + 1], t[j].0, t[j].1);
    }
}

} // verus!
