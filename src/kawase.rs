use vstd::prelude::*;

use crate::command::{
    all_within, fullscreen_pass, lemma_concat_within, lemma_fullscreen_pass_plain,
    lemma_fullscreen_pass_within, lemma_quads_pass_plain, lemma_quads_pass_within,
    lemma_scoped_within, lemma_unmarked_concat, lemma_unmarked_scoped, quads_pass, scoped,
    unmarked, Command, CommandList, Program, Scope, Surface,
};
use crate::key::{adjusted, Key};
use crate::target::{chain_targets, kawase_chain, RenderTarget};

verus! {

pub const DEFAULT_KAWASE_ITERATIONS: usize = 4;

pub const MAX_KAWASE_ITERATIONS: usize = 8;

/// A Kawase blur over a chain of `iterations + 1` targets: target 0 has the
/// viewport's size and each further level halves it. The scene is drawn into
/// target 0, downsampled level by level to the smallest target, upsampled back
/// to target 0, and presented on the window.
pub struct KawaseScene {
    width: i32,
    height: i32,
    iterations: usize,
    targets: Vec<RenderTarget>,
}

impl KawaseScene {
    pub closed spec fn width(&self) -> i32 {
        self.width
    }

    pub closed spec fn height(&self) -> i32 {
        self.height
    }

    pub closed spec fn iterations(&self) -> usize {
        self.iterations
    }

    pub closed spec fn targets(&self) -> Seq<RenderTarget> {
        self.targets@
    }

    pub open spec fn wf(&self) -> bool {
        &&& 1 <= self.iterations() <= MAX_KAWASE_ITERATIONS
        &&& self.targets() == chain_targets(self.width(), self.height(), self.iterations() as nat)
    }

    pub open spec fn target_size(&self, level: int) -> (i32, i32) {
        (self.targets()[level].width, self.targets()[level].height)
    }

    /// Downsamples level `level - 1` into level `level`.
    pub open spec fn down_pass(&self, level: nat) -> Seq<Command> {
        let src = self.target_size(level - 1);
        fullscreen_pass(
            Surface::Target(level as usize),
            self.target_size(level as int),
            Program::KawaseDown,
            (level - 1) as usize,
            Command::SetTexelSize(src.0, src.1),
        )
    }

    /// Upsamples level `level + 1` into level `level`.
    pub open spec fn up_pass(&self, level: nat) -> Seq<Command> {
        let src = self.target_size(level + 1int);
        fullscreen_pass(
            Surface::Target(level as usize),
            self.target_size(level as int),
            Program::KawaseUp,
            (level + 1) as usize,
            Command::SetTexelSize(src.0, src.1),
        )
    }

    /// The downsample passes into levels `1..=k`, in increasing order.
    pub open spec fn down_passes(&self, k: nat) -> Seq<Command>
        decreases k,
    {
        if k == 0 {
            Seq::empty()
        } else {
            self.down_passes((k - 1) as nat) + self.down_pass(k)
        }
    }

    /// The first `k` upsample passes, from level `iterations - 1` down.
    pub open spec fn up_passes(&self, k: nat) -> Seq<Command>
        decreases k,
    {
        if k == 0 {
            Seq::empty()
        } else {
            self.up_passes((k - 1) as nat) + self.up_pass((self.iterations() - k) as nat)
        }
    }

    pub open spec fn plan(&self, debug: bool) -> Seq<Command> {
        let n = self.iterations() as nat;
        let full = (self.width(), self.height());
        scoped(
            debug,
            Scope::Kawase,
            scoped(debug, Scope::Scene, quads_pass(Surface::Target(0), self.target_size(0)))
                + scoped(debug, Scope::KawaseDown, self.down_passes(n)) + scoped(
                debug,
                Scope::KawaseUp,
                self.up_passes(n),
            ) + scoped(
                debug,
                Scope::Present,
                fullscreen_pass(
                    Surface::Window,
                    full,
                    Program::Blit,
                    0,
                    Command::SetTexelSize(full.0, full.1),
                ),
            ),
        )
    }

    pub fn new(width: i32, height: i32) -> (r: KawaseScene)
        ensures
            r.wf(),
            r.width() == width,
            r.height() == height,
            r.iterations() == DEFAULT_KAWASE_ITERATIONS,
    {
        KawaseScene {
            width,
            height,
            iterations: DEFAULT_KAWASE_ITERATIONS,
            targets: kawase_chain(width, height, DEFAULT_KAWASE_ITERATIONS),
        }
    }

    /// The viewport size last supplied.
    pub fn size(&self) -> (r: (i32, i32))
        ensures
            r == (self.width(), self.height()),
    {
        (self.width, self.height)
    }

    pub fn iteration_count(&self) -> (r: usize)
        ensures
            r == self.iterations(),
    {
        self.iterations
    }

    pub fn render_targets(&self) -> (r: &Vec<RenderTarget>)
        ensures
            r@ == self.targets(),
    {
        &self.targets
    }

    /// Reallocates the whole chain at the new size.
    pub fn resize(&mut self, width: i32, height: i32)
        requires
            old(self).wf(),
        ensures
            final(self).wf(),
            final(self).width() == width,
            final(self).height() == height,
            final(self).iterations() == old(self).iterations(),
    {
        self.width = width;
        self.height = height;
        self.targets = kawase_chain(width, height, self.iterations);
    }

    /// The arrows raise and lower the iteration count within
    /// `1..=MAX_KAWASE_ITERATIONS`; a change reallocates the chain at once, so
    /// that no draw sees a chain of the old length.
    pub fn on_key(&mut self, key: Key)
        requires
            old(self).wf(),
        ensures
            final(self).wf(),
            final(self).width() == old(self).width(),
            final(self).height() == old(self).height(),
            final(self).iterations() == adjusted(
                old(self).iterations() as int,
                key,
                1,
                MAX_KAWASE_ITERATIONS as int,
            ),
    {
        let n = match key {
            Key::ArrowUp => if self.iterations < MAX_KAWASE_ITERATIONS {
                self.iterations + 1
            } else {
                self.iterations
            },
            Key::ArrowDown => if self.iterations > 1 {
                self.iterations - 1
            } else {
                self.iterations
            },
            _ => self.iterations,
        };
        if n != self.iterations {
            self.iterations = n;
            self.targets = kawase_chain(self.width, self.height, n);
        }
    }

    /// Appends this frame's commands to `list`.
    pub fn draw(&self, list: &mut CommandList)
        requires
            self.wf(),
            old(list).wf(),
            old(list).debug_enabled() ==> old(list).open_scopes() + 2 < usize::MAX,
        ensures
            final(list).wf(),
            final(list).commands() == old(list).commands() + self.plan(old(list).debug_enabled()),
            final(list).debug_enabled() == old(list).debug_enabled(),
            final(list).open_scopes() == old(list).open_scopes(),
    {
        let ghost before = list.commands();
        let ghost debug = list.debug_enabled();
        let n = self.iterations;
        let full = (self.width, self.height);
        list.push_debug_group(Scope::Kawase);
        let ghost p0 = list.commands();

        list.push_debug_group(Scope::Scene);
        let t0 = self.targets[0];
        list.emit_quads_pass(Surface::Target(0), (t0.width, t0.height));
        list.pop_debug_group();
        let ghost p1 = list.commands();
        assert(p1 =~= p0 + scoped(
            debug,
            Scope::Scene,
            quads_pass(Surface::Target(0), self.target_size(0)),
        ));

        list.push_debug_group(Scope::KawaseDown);
        let ghost q = list.commands();
        let mut level: usize = 1;
        while level <= n
            invariant
                self.wf(),
                n == self.iterations(),
                1 <= level <= n + 1,
                list.wf(),
                list.debug_enabled() == debug,
                list.open_scopes() == old(list).open_scopes() + if debug {
                    2nat
                } else {
                    0nat
                },
                list.commands() == q + self.down_passes((level - 1) as nat),
            decreases n + 1 - level,
        {
            let src = self.targets[level - 1];
            let dst = self.targets[level];
            list.emit_fullscreen_pass(
                Surface::Target(level),
                (dst.width, dst.height),
                Program::KawaseDown,
                level - 1,
                Command::SetTexelSize(src.width, src.height),
            );
            assert(list.commands() =~= q + self.down_passes(level as nat));
            level = level + 1;
        }
        list.pop_debug_group();
        let ghost p2 = list.commands();
        assert(p2 =~= p1 + scoped(debug, Scope::KawaseDown, self.down_passes(n as nat)));

        list.push_debug_group(Scope::KawaseUp);
        let ghost u = list.commands();
        let mut k: usize = 0;
        while k < n
            invariant
                self.wf(),
                n == self.iterations(),
                k <= n,
                list.wf(),
                list.debug_enabled() == debug,
                list.open_scopes() == old(list).open_scopes() + if debug {
                    2nat
                } else {
                    0nat
                },
                list.commands() == u + self.up_passes(k as nat),
            decreases n - k,
        {
            let level = n - 1 - k;
            let src = self.targets[level + 1];
            let dst = self.targets[level];
            list.emit_fullscreen_pass(
                Surface::Target(level),
                (dst.width, dst.height),
                Program::KawaseUp,
                level + 1,
                Command::SetTexelSize(src.width, src.height),
            );
            assert(list.commands() =~= u + self.up_passes((k + 1) as nat));
            k = k + 1;
        }
        list.pop_debug_group();
        let ghost p3 = list.commands();
        assert(p3 =~= p2 + scoped(debug, Scope::KawaseUp, self.up_passes(n as nat)));

        list.push_debug_group(Scope::Present);
        list.emit_fullscreen_pass(
            Surface::Window,
            full,
            Program::Blit,
            0,
            Command::SetTexelSize(full.0, full.1),
        );
        list.pop_debug_group();
        let ghost p4 = list.commands();
        assert(p4 =~= p3 + scoped(
            debug,
            Scope::Present,
            fullscreen_pass(
                Surface::Window,
                full,
                Program::Blit,
                0,
                Command::SetTexelSize(full.0, full.1),
            ),
        ));
        list.pop_debug_group();
        assert(list.commands() =~= before + self.plan(debug));
    }

    proof fn lemma_down_passes_within(&self, k: nat)
        requires
            self.wf(),
            k <= self.iterations(),
        ensures
            all_within(self.down_passes(k), self.targets().len()),
        decreases k,
    {
        let n = self.targets().len();
        if k == 0 {
            assert(self.down_passes(k) =~= Seq::<Command>::empty());
        } else {
            self.lemma_down_passes_within((k - 1) as nat);
            let src = self.target_size(k - 1);
            lemma_fullscreen_pass_within(
                Surface::Target(k as usize),
                self.target_size(k as int),
                Program::KawaseDown,
                (k - 1) as usize,
                Command::SetTexelSize(src.0, src.1),
                n,
            );
            lemma_concat_within(self.down_passes((k - 1) as nat), self.down_pass(k), n);
        }
    }

    proof fn lemma_up_passes_within(&self, k: nat)
        requires
            self.wf(),
            k <= self.iterations(),
        ensures
            all_within(self.up_passes(k), self.targets().len()),
        decreases k,
    {
        let n = self.targets().len();
        if k == 0 {
            assert(self.up_passes(k) =~= Seq::<Command>::empty());
        } else {
            self.lemma_up_passes_within((k - 1) as nat);
            let level = (self.iterations() - k) as nat;
            let src = self.target_size(level + 1int);
            lemma_fullscreen_pass_within(
                Surface::Target(level as usize),
                self.target_size(level as int),
                Program::KawaseUp,
                (level + 1) as usize,
                Command::SetTexelSize(src.0, src.1),
                n,
            );
            lemma_concat_within(self.up_passes((k - 1) as nat), self.up_pass(level), n);
        }
    }

    /// A frame draws into and samples only targets of the current chain.
    pub proof fn lemma_plan_within(&self, debug: bool)
        requires
            self.wf(),
        ensures
            all_within(self.plan(debug), self.targets().len()),
    {
        let n = self.targets().len();
        let nn = self.iterations() as nat;
        let full = (self.width(), self.height());
        let scene = quads_pass(Surface::Target(0), self.target_size(0));
        let present = fullscreen_pass(
            Surface::Window,
            full,
            Program::Blit,
            0,
            Command::SetTexelSize(full.0, full.1),
        );
        lemma_quads_pass_within(Surface::Target(0), self.target_size(0), n);
        lemma_scoped_within(debug, Scope::Scene, scene, n);
        self.lemma_down_passes_within(nn);
        lemma_scoped_within(debug, Scope::KawaseDown, self.down_passes(nn), n);
        self.lemma_up_passes_within(nn);
        lemma_scoped_within(debug, Scope::KawaseUp, self.up_passes(nn), n);
        lemma_fullscreen_pass_within(
            Surface::Window,
            full,
            Program::Blit,
            0,
            Command::SetTexelSize(full.0, full.1),
            n,
        );
        lemma_scoped_within(debug, Scope::Present, present, n);
        let a = scoped(debug, Scope::Scene, scene);
        let b = scoped(debug, Scope::KawaseDown, self.down_passes(nn));
        let c = scoped(debug, Scope::KawaseUp, self.up_passes(nn));
        let d = scoped(debug, Scope::Present, present);
        lemma_concat_within(a, b, n);
        lemma_concat_within(a + b, c, n);
        lemma_concat_within(a + b + c, d, n);
        lemma_scoped_within(debug, Scope::Kawase, a + b + c + d, n);
    }

    proof fn lemma_down_passes_plain(&self, k: nat)
        ensures
            unmarked(self.down_passes(k)) == self.down_passes(k),
        decreases k,
    {
        if k == 0 {
            assert(unmarked(self.down_passes(k)) =~= self.down_passes(k));
        } else {
            self.lemma_down_passes_plain((k - 1) as nat);
            let src = self.target_size(k - 1);
            lemma_fullscreen_pass_plain(
                Surface::Target(k as usize),
                self.target_size(k as int),
                Program::KawaseDown,
                (k - 1) as usize,
                Command::SetTexelSize(src.0, src.1),
            );
            lemma_unmarked_concat(self.down_passes((k - 1) as nat), self.down_pass(k));
        }
    }

    proof fn lemma_up_passes_plain(&self, k: nat)
        ensures
            unmarked(self.up_passes(k)) == self.up_passes(k),
        decreases k,
    {
        if k == 0 {
            assert(unmarked(self.up_passes(k)) =~= self.up_passes(k));
        } else {
            self.lemma_up_passes_plain((k - 1) as nat);
            let level = (self.iterations() - k) as nat;
            let src = self.target_size(level + 1int);
            lemma_fullscreen_pass_plain(
                Surface::Target(level as usize),
                self.target_size(level as int),
                Program::KawaseUp,
                (level + 1) as usize,
                Command::SetTexelSize(src.0, src.1),
            );
            lemma_unmarked_concat(self.up_passes((k - 1) as nat), self.up_pass(level));
        }
    }

    /// With debugging enabled a frame differs only by its debug markers.
    pub proof fn lemma_debug_adds_only_markers(&self, debug: bool)
        ensures
            unmarked(self.plan(debug)) == self.plan(false),
    {
        let nn = self.iterations() as nat;
        let full = (self.width(), self.height());
        let scene = quads_pass(Surface::Target(0), self.target_size(0));
        let present = fullscreen_pass(
            Surface::Window,
            full,
            Program::Blit,
            0,
            Command::SetTexelSize(full.0, full.1),
        );
        lemma_quads_pass_plain(Surface::Target(0), self.target_size(0));
        self.lemma_down_passes_plain(nn);
        self.lemma_up_passes_plain(nn);
        lemma_fullscreen_pass_plain(
            Surface::Window,
            full,
            Program::Blit,
            0,
            Command::SetTexelSize(full.0, full.1),
        );
        let a = scoped(debug, Scope::Scene, scene);
        let b = scoped(debug, Scope::KawaseDown, self.down_passes(nn));
        let c = scoped(debug, Scope::KawaseUp, self.up_passes(nn));
        let d = scoped(debug, Scope::Present, present);
        lemma_unmarked_scoped(debug, Scope::Scene, scene);
        lemma_unmarked_scoped(debug, Scope::KawaseDown, self.down_passes(nn));
        lemma_unmarked_scoped(debug, Scope::KawaseUp, self.up_passes(nn));
        lemma_unmarked_scoped(debug, Scope::Present, present);
        lemma_unmarked_concat(a, b);
        lemma_unmarked_concat(a + b, c);
        lemma_unmarked_concat(a + b + c, d);
        lemma_unmarked_scoped(debug, Scope::Kawase, a + b + c + d);
    }
}

} // verus!
