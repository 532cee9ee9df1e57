use vstd::prelude::*;

use crate::blurring::{blur_targets, BlurringScene, DEFAULT_BLUR_RADIUS, MAX_BLUR_RADIUS};
use crate::command::{all_within, balanced, marker_count, unmarked, Command, CommandList};
use crate::kawase::{DEFAULT_KAWASE_ITERATIONS, KawaseScene, MAX_KAWASE_ITERATIONS};
use crate::key::{adjusted, Key};
use crate::round_quads::RoundQuadsScene;
use crate::target::{chain_targets, full_target, level_target, RenderTarget};

verus! {

/// Which technique is active.
#[derive(Clone, Copy, Debug, PartialEq, Eq, Structural)]
pub enum SceneKind {
    RoundQuads,
    Blurring,
    Kawase,
}

/// What can be observed of the active scene: its technique, the viewport size
/// last supplied, its tunable parameter (blur radius or iteration count; zero
/// for round quads) and the sizes of the render targets it owns.
pub ghost struct SceneState {
    pub kind: SceneKind,
    pub width: i32,
    pub height: i32,
    pub setting: nat,
    pub targets: Seq<RenderTarget>,
}

/// The render targets that a scene of `kind` owns at the given size.
pub open spec fn targets_for(kind: SceneKind, width: i32, height: i32, setting: nat) -> Seq<
    RenderTarget,
> {
    match kind {
        SceneKind::RoundQuads => Seq::empty(),
        SceneKind::Blurring => blur_targets(width, height),
        SceneKind::Kawase => chain_targets(width, height, setting),
    }
}

pub open spec fn setting_bounds(kind: SceneKind) -> (nat, nat) {
    match kind {
        SceneKind::RoundQuads => (0, 0),
        SceneKind::Blurring => (1, MAX_BLUR_RADIUS as nat),
        SceneKind::Kawase => (1, MAX_KAWASE_ITERATIONS as nat),
    }
}

/// A state that some scene can be in.
pub open spec fn valid_state(s: SceneState) -> bool {
    &&& setting_bounds(s.kind).0 <= s.setting <= setting_bounds(s.kind).1
    &&& s.targets == targets_for(s.kind, s.width, s.height, s.setting)
}

/// A freshly constructed scene of `kind` at the given size.
pub open spec fn fresh_state(kind: SceneKind, width: i32, height: i32) -> SceneState {
    let setting: nat = match kind {
        SceneKind::RoundQuads => 0,
        SceneKind::Blurring => DEFAULT_BLUR_RADIUS as nat,
        SceneKind::Kawase => DEFAULT_KAWASE_ITERATIONS as nat,
    };
    SceneState { kind, width, height, setting, targets: targets_for(kind, width, height, setting) }
}

/// The technique that a function key selects.
pub open spec fn key_kind(key: Key) -> Option<SceneKind> {
    match key {
        Key::F1 => Some(SceneKind::RoundQuads),
        Key::F2 => Some(SceneKind::Blurring),
        Key::F3 => Some(SceneKind::Kawase),
        _ => None,
    }
}

/// The state after a key press offered to the selector.
pub open spec fn switched(s: SceneState, width: i32, height: i32, key: Key) -> SceneState {
    match key_kind(key) {
        Some(kind) => fresh_state(kind, width, height),
        None => s,
    }
}

/// The state after a key press handed to the active scene.
pub open spec fn keyed(s: SceneState, key: Key) -> SceneState {
    let (lo, hi) = setting_bounds(s.kind);
    let setting = adjusted(s.setting as int, key, lo as int, hi as int) as nat;
    match s.kind {
        SceneKind::RoundQuads => s,
        _ => SceneState {
            setting,
            targets: targets_for(s.kind, s.width, s.height, setting),
            ..s
        },
    }
}

/// The state after the viewport changed size.
pub open spec fn resized(s: SceneState, width: i32, height: i32) -> SceneState {
    SceneState { width, height, targets: targets_for(s.kind, width, height, s.setting), ..s }
}

/// The active scene. Exactly one technique is alive at a time; switching
/// drops the old one with all it owns and builds a fresh one.
pub enum Scenes {
    RoundQuads(RoundQuadsScene),
    Blurring(BlurringScene),
    Kawase(KawaseScene),
}

impl Scenes {
    pub open spec fn wf(&self) -> bool {
        match self {
            Scenes::RoundQuads(_) => true,
            Scenes::Blurring(s) => s.wf(),
            Scenes::Kawase(s) => s.wf(),
        }
    }

    pub open spec fn state(&self) -> SceneState {
        match self {
            Scenes::RoundQuads(s) => SceneState {
                kind: SceneKind::RoundQuads,
                width: s.width(),
                height: s.height(),
                setting: 0,
                targets: s.targets(),
            },
            Scenes::Blurring(s) => SceneState {
                kind: SceneKind::Blurring,
                width: s.width(),
                height: s.height(),
                setting: s.radius() as nat,
                targets: s.targets(),
            },
            Scenes::Kawase(s) => SceneState {
                kind: SceneKind::Kawase,
                width: s.width(),
                height: s.height(),
                setting: s.iterations() as nat,
                targets: s.targets(),
            },
        }
    }

    /// The commands of one frame of the active scene.
    pub open spec fn plan(&self, debug: bool) -> Seq<Command> {
        match self {
            Scenes::RoundQuads(s) => s.plan(debug),
            Scenes::Blurring(s) => s.plan(debug),
            Scenes::Kawase(s) => s.plan(debug),
        }
    }

    /// Starts with the Kawase scene at the window's size.
    pub fn new(width: i32, height: i32) -> (r: Scenes)
        ensures
            r.wf(),
            r.state() == fresh_state(SceneKind::Kawase, width, height),
    {
        Scenes::Kawase(KawaseScene::new(width, height))
    }

    /// F1, F2 and F3 replace the active scene by a fresh round-quads, blurring
    /// or Kawase scene at the window's size; other keys change nothing.
    pub fn switch_scene(&mut self, width: i32, height: i32, key: Key)
        requires
            old(self).wf(),
        ensures
            final(self).wf(),
            final(self).state() == switched(old(self).state(), width, height, key),
            key_kind(key) is None ==> *final(self) == *old(self),
    {
        match key {
            Key::F1 => *self = Scenes::RoundQuads(RoundQuadsScene::new(width, height)),
            Key::F2 => *self = Scenes::Blurring(BlurringScene::new(width, height)),
            Key::F3 => *self = Scenes::Kawase(KawaseScene::new(width, height)),
            _ => {},
        }
    }

    /// Hands a key press to the active scene; round quads ignores it.
    pub fn on_key(&mut self, key: Key)
        requires
            old(self).wf(),
        ensures
            final(self).wf(),
            final(self).state() == keyed(old(self).state(), key),
            *old(self) is RoundQuads ==> *final(self) == *old(self),
    {
        match self {
            Scenes::RoundQuads(_) => {},
            Scenes::Blurring(scene) => scene.on_key(key),
            Scenes::Kawase(scene) => scene.on_key(key),
        }
    }

    /// The commands of one frame. Debug scopes appear only when
    /// `debug_enabled` holds, and are then properly nested and all closed.
    pub fn draw(&self, debug_enabled: bool) -> (r: Vec<Command>)
        requires
            self.wf(),
        ensures
            r@ == self.plan(debug_enabled),
            balanced(r@),
            !debug_enabled ==> marker_count(r@) == 0,
    {
        let mut list = CommandList::new(debug_enabled);
        match self {
            Scenes::RoundQuads(scene) => scene.draw(&mut list),
            Scenes::Blurring(scene) => scene.draw(&mut list),
            Scenes::Kawase(scene) => scene.draw(&mut list),
        }
        assert(list.commands() =~= self.plan(debug_enabled));
        list.finish()
    }

    /// Recreates the active scene's size-dependent targets.
    pub fn resize(&mut self, width: i32, height: i32)
        requires
            old(self).wf(),
        ensures
            final(self).wf(),
            final(self).state() == resized(old(self).state(), width, height),
    {
        match self {
            Scenes::RoundQuads(scene) => scene.resize(width, height),
            Scenes::Blurring(scene) => scene.resize(width, height),
            Scenes::Kawase(scene) => scene.resize(width, height),
        }
    }

    pub fn kind(&self) -> (r: SceneKind)
        ensures
            r == self.state().kind,
    {
        match self {
            Scenes::RoundQuads(_) => SceneKind::RoundQuads,
            Scenes::Blurring(_) => SceneKind::Blurring,
            Scenes::Kawase(_) => SceneKind::Kawase,
        }
    }
}

/// The chain level whose size a target of `kind` has: every target of the
/// blurring scene is at full resolution, target `i` of the Kawase chain is at
/// level `i`.
pub open spec fn target_level(kind: SceneKind, i: int) -> nat {
    match kind {
        SceneKind::Kawase => i as nat,
        _ => 0,
    }
}

/// Every state that a well-formed scene is in is a valid one.
pub proof fn lemma_scenes_state_valid(s: Scenes)
    requires
        s.wf(),
    ensures
        valid_state(s.state()),
{
}

/// After a resize every render target takes its size from the new viewport
/// alone: full-resolution targets match it exactly, and a target at chain
/// level `i` has the viewport halved `i` times, rounded down and at least one
/// pixel. A resize to the size already held changes nothing.
pub proof fn lemma_resize_determines_targets(s: SceneState, width: i32, height: i32)
    requires
        valid_state(s),
    ensures
        valid_state(resized(s, width, height)),
        resized(s, width, height).width == width,
        resized(s, width, height).height == height,
        forall|i: int|
            0 <= i < resized(s, width, height).targets.len() ==> #[trigger] resized(
                s,
                width,
                height,
            ).targets[i] == level_target(width, height, target_level(s.kind, i)),
        level_target(width, height, 0) == full_target(width, height),
        resized(s, s.width, s.height) == s,
        resized(resized(s, width, height), width, height) == resized(s, width, height),
{
}

/// F1, F2 and F3 select the technique they name, as a fresh instance that
/// keeps nothing of the scene that was active before; pressing the same key
/// again yields the same state.
pub proof fn lemma_switch_selects_fresh(
    s: SceneState,
    t: SceneState,
    width: i32,
    height: i32,
    key: Key,
)
    requires
        key_kind(key) is Some,
    ensures
        switched(s, width, height, key).kind == key_kind(key)->0,
        valid_state(switched(s, width, height, key)),
        switched(s, width, height, key) == switched(t, width, height, key),
        switched(switched(s, width, height, key), width, height, key) == switched(
            s,
            width,
            height,
            key,
        ),
{
}

/// Round quads ignores every key: handing it one changes nothing.
pub proof fn lemma_round_quads_ignores_keys(s: SceneState, key: Key)
    requires
        s.kind == SceneKind::RoundQuads,
    ensures
        keyed(s, key) == s,
{
}

/// Key handling keeps a scene valid.
pub proof fn lemma_keyed_valid(s: SceneState, key: Key)
    requires
        valid_state(s),
    ensures
        valid_state(keyed(s, key)),
{
}

/// A Kawase scene owns exactly `iterations + 1` targets, and after a key press
/// that changes the iteration count the chain already has the new length.
pub proof fn lemma_kawase_chain_length(s: SceneState, key: Key)
    requires
        valid_state(s),
        s.kind == SceneKind::Kawase,
    ensures
        s.targets.len() == s.setting + 1,
        keyed(s, key).kind == SceneKind::Kawase,
        keyed(s, key).targets.len() == keyed(s, key).setting + 1,
{
}

/// A frame draws into and samples only render targets that the active scene
/// owns at that moment; in particular, once a key press has changed the Kawase
/// iteration count, the next frame already works on the chain of the new
/// length.
pub proof fn lemma_frame_uses_owned_targets(s: Scenes, debug: bool)
    requires
        s.wf(),
    ensures
        all_within(s.plan(debug), s.state().targets.len()),
{
    match s {
        Scenes::RoundQuads(q) => q.lemma_plan_within(debug),
        Scenes::Blurring(b) => b.lemma_plan_within(debug),
        Scenes::Kawase(k) => k.lemma_plan_within(debug),
    }
}

/// Debug scopes never change what is drawn: take the markers out of a frame
/// drawn with debugging enabled and what is left is the frame drawn without.
pub proof fn lemma_debug_scopes_only_annotate(s: Scenes, debug: bool)
    requires
        s.wf(),
    ensures
        unmarked(s.plan(debug)) == s.plan(false),
{
    match s {
        Scenes::RoundQuads(q) => q.lemma_debug_adds_only_markers(debug),
        Scenes::Blurring(b) => b.lemma_debug_adds_only_markers(debug),
        Scenes::Kawase(k) => k.lemma_debug_adds_only_markers(debug),
    }
}

} // verus!
