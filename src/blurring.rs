use vstd::prelude::*;

use crate::command::{
    all_within, fullscreen_pass, lemma_concat_within, lemma_fullscreen_pass_plain,
    lemma_fullscreen_pass_within, lemma_quads_pass_plain, lemma_quads_pass_within,
    lemma_scoped_within, lemma_unmarked_concat, lemma_unmarked_scoped, quads_pass, scoped,
    unmarked, Command, CommandList, Program, Scope, Surface,
};
use crate::key::{adjusted, Key};
use crate::target::{full_target, RenderTarget};

verus! {

pub const DEFAULT_BLUR_RADIUS: u32 = 4;

pub const MAX_BLUR_RADIUS: u32 = 16;

/// The targets of the separable blur: the scene image, then its horizontal
/// blur, both at full resolution.
pub open spec fn blur_targets(width: i32, height: i32) -> Seq<RenderTarget> {
    seq![full_target(width, height), full_target(width, height)]
}

/// A two-pass separable blur: the scene is drawn into target 0, blurred
/// horizontally into target 1, and blurred vertically onto the window.
pub struct BlurringScene {
    width: i32,
    height: i32,
    radius: u32,
    targets: Vec<RenderTarget>,
}

impl BlurringScene {
    pub closed spec fn width(&self) -> i32 {
        self.width
    }

    pub closed spec fn height(&self) -> i32 {
        self.height
    }

    pub closed spec fn radius(&self) -> u32 {
        self.radius
    }

    pub closed spec fn targets(&self) -> Seq<RenderTarget> {
        self.targets@
    }

    pub open spec fn wf(&self) -> bool {
        &&& 1 <= self.radius() <= MAX_BLUR_RADIUS
        &&& self.targets() == blur_targets(self.width(), self.height())
    }

    pub open spec fn plan(&self, debug: bool) -> Seq<Command> {
        let size = (self.width(), self.height());
        let r = Command::SetBlurRadius(self.radius());
        scoped(
            debug,
            Scope::Blurring,
            scoped(debug, Scope::Scene, quads_pass(Surface::Target(0), size)) + scoped(
                debug,
                Scope::BlurHorizontal,
                fullscreen_pass(Surface::Target(1), size, Program::BlurHorizontal, 0, r),
            ) + scoped(
                debug,
                Scope::BlurVertical,
                fullscreen_pass(Surface::Window, size, Program::BlurVertical, 1, r),
            ),
        )
    }

    fn allocate(width: i32, height: i32) -> (r: Vec<RenderTarget>)
        ensures
            r@ == blur_targets(width, height),
    {
        let mut r: Vec<RenderTarget> = Vec::new();
        r.push(RenderTarget { width, height });
        r.push(RenderTarget { width, height });
        assert(r@ =~= blur_targets(width, height));
        r
    }

    pub fn new(width: i32, height: i32) -> (r: BlurringScene)
        ensures
            r.wf(),
            r.width() == width,
            r.height() == height,
            r.radius() == DEFAULT_BLUR_RADIUS,
    {
        BlurringScene {
            width,
            height,
            radius: DEFAULT_BLUR_RADIUS,
            targets: Self::allocate(width, height),
        }
    }

    /// The viewport size last supplied.
    pub fn size(&self) -> (r: (i32, i32))
        ensures
            r == (self.width(), self.height()),
    {
        (self.width, self.height)
    }

    pub fn blur_radius(&self) -> (r: u32)
        ensures
            r == self.radius(),
    {
        self.radius
    }

    pub fn render_targets(&self) -> (r: &Vec<RenderTarget>)
        ensures
            r@ == self.targets(),
    {
        &self.targets
    }

    /// Recreates both targets at the new size.
    pub fn resize(&mut self, width: i32, height: i32)
        requires
            old(self).wf(),
        ensures
            final(self).wf(),
            final(self).width() == width,
            final(self).height() == height,
            final(self).radius() == old(self).radius(),
    {
        self.width = width;
        self.height = height;
        self.targets = Self::allocate(width, height);
    }

    /// The arrows raise and lower the radius within `1..=MAX_BLUR_RADIUS`.
    pub fn on_key(&mut self, key: Key)
        requires
            old(self).wf(),
        ensures
            final(self).wf(),
            final(self).width() == old(self).width(),
            final(self).height() == old(self).height(),
            final(self).radius() == adjusted(
                old(self).radius() as int,
                key,
                1,
                MAX_BLUR_RADIUS as int,
            ),
    {
        match key {
            Key::ArrowUp => {
                if self.radius < MAX_BLUR_RADIUS {
                    self.radius = self.radius + 1;
                }
            },
            Key::ArrowDown => {
                if self.radius > 1 {
                    self.radius = self.radius - 1;
                }
            },
            _ => {},
        }
    }

    /// Appends this frame's commands to `list`.
    pub fn draw(&self, list: &mut CommandList)
        requires
            self.wf(),
            old(list).wf(),
            old(list).debug_enabled() ==> old(list).open_scopes() + 2 < usize::MAX,
        ensures
            final(list).wf(),
            final(list).commands() == old(list).commands() + self.plan(old(list).debug_enabled()),
            final(list).debug_enabled() == old(list).debug_enabled(),
            final(list).open_scopes() == old(list).open_scopes(),
    {
        let ghost before = list.commands();
        let ghost debug = list.debug_enabled();
        let size = (self.width, self.height);
        let r = Command::SetBlurRadius(self.radius);
        list.push_debug_group(Scope::Blurring);
        let ghost p0 = list.commands();
        list.push_debug_group(Scope::Scene);
        list.emit_quads_pass(Surface::Target(0), size);
        list.pop_debug_group();
        let ghost p1 = list.commands();
        assert(p1 =~= p0 + scoped(debug, Scope::Scene, quads_pass(Surface::Target(0), size)));
        list.push_debug_group(Scope::BlurHorizontal);
        list.emit_fullscreen_pass(Surface::Target(1), size, Program::BlurHorizontal, 0, r);
        list.pop_debug_group();
        let ghost p2 = list.commands();
        assert(p2 =~= p1 + scoped(
            debug,
            Scope::BlurHorizontal,
            fullscreen_pass(Surface::Target(1), size, Program::BlurHorizontal, 0, r),
        ));
        list.push_debug_group(Scope::BlurVertical);
        list.emit_fullscreen_pass(Surface::Window, size, Program::BlurVertical, 1, r);
        list.pop_debug_group();
        let ghost p3 = list.commands();
        assert(p3 =~= p2 + scoped(
            debug,
            Scope::BlurVertical,
            fullscreen_pass(Surface::Window, size, Program::BlurVertical, 1, r),
        ));
        list.pop_debug_group();
        assert(list.commands() =~= before + self.plan(debug));
    }

    /// A frame draws into and samples only the two targets of the scene.
    pub proof fn lemma_plan_within(&self, debug: bool)
        requires
            self.wf(),
        ensures
            all_within(self.plan(debug), self.targets().len()),
    {
        let n = self.targets().len();
        let size = (self.width(), self.height());
        let r = Command::SetBlurRadius(self.radius());
        let scene = quads_pass(Surface::Target(0), size);
        let h = fullscreen_pass(Surface::Target(1), size, Program::BlurHorizontal, 0, r);
        let v = fullscreen_pass(Surface::Window, size, Program::BlurVertical, 1, r);
        lemma_quads_pass_within(Surface::Target(0), size, n);
        lemma_fullscreen_pass_within(Surface::Target(1), size, Program::BlurHorizontal, 0, r, n);
        lemma_fullscreen_pass_within(Surface::Window, size, Program::BlurVertical, 1, r, n);
        lemma_scoped_within(debug, Scope::Scene, scene, n);
        lemma_scoped_within(debug, Scope::BlurHorizontal, h, n);
        lemma_scoped_within(debug, Scope::BlurVertical, v, n);
        let a = scoped(debug, Scope::Scene, scene);
        let b = scoped(debug, Scope::BlurHorizontal, h);
        let c = scoped(debug, Scope::BlurVertical, v);
        lemma_concat_within(a, b, n);
        lemma_concat_within(a + b, c, n);
        lemma_scoped_within(debug, Scope::Blurring, a + b + c, n);
    }

    /// With debugging enabled a frame differs only by its debug markers.
    pub proof fn lemma_debug_adds_only_markers(&self, debug: bool)
        ensures
            unmarked(self.plan(debug)) == self.plan(false),
    {
        let size = (self.width(), self.height());
        let r = Command::SetBlurRadius(self.radius());
        let scene = quads_pass(Surface::Target(0), size);
        let h = fullscreen_pass(Surface::Target(1), size, Program::BlurHorizontal, 0, r);
        let v = fullscreen_pass(Surface::Window, size, Program::BlurVertical, 1, r);
        lemma_quads_pass_plain(Surface::Target(0), size);
        lemma_fullscreen_pass_plain(Surface::Target(1), size, Program::BlurHorizontal, 0, r);
        lemma_fullscreen_pass_plain(Surface::Window, size, Program::BlurVertical, 1, r);
        let a = scoped(debug, Scope::Scene, scene);
        let b = scoped(debug, Scope::BlurHorizontal, h);
        let c = scoped(debug, Scope::BlurVertical, v);
        lemma_unmarked_scoped(debug, Scope::Scene, scene);
        lemma_unmarked_scoped(debug, Scope::BlurHorizontal, h);
        lemma_unmarked_scoped(debug, Scope::BlurVertical, v);
        lemma_unmarked_concat(a, b);
        lemma_unmarked_concat(a + b, c);
        lemma_unmarked_scoped(debug, Scope::Blurring, a + b + c);
    }
}

} // verus!
