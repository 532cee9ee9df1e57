use vstd::prelude::*;

use crate::command::{
    all_within, lemma_quads_pass_plain, lemma_quads_pass_within, lemma_scoped_within,
    lemma_unmarked_scoped, quads_pass, scoped, unmarked, Command, CommandList, Scope, Surface,
};
use crate::target::RenderTarget;

verus! {

/// The baseline technique: instanced round quads drawn straight to the
/// window. It owns no render target and ignores key input.
pub struct RoundQuadsScene {
    width: i32,
    height: i32,
}

impl RoundQuadsScene {
    pub closed spec fn width(&self) -> i32 {
        self.width
    }

    pub closed spec fn height(&self) -> i32 {
        self.height
    }

    pub open spec fn targets(&self) -> Seq<RenderTarget> {
        Seq::empty()
    }

    pub open spec fn plan(&self, debug: bool) -> Seq<Command> {
        scoped(debug, Scope::RoundQuads, quads_pass(Surface::Window, (self.width(), self.height())))
    }

    pub fn new(width: i32, height: i32) -> (r: RoundQuadsScene)
        ensures
            r.width() == width,
            r.height() == height,
    {
        RoundQuadsScene { width, height }
    }

    /// The viewport size last supplied.
    pub fn size(&self) -> (r: (i32, i32))
        ensures
            r == (self.width(), self.height()),
    {
        (self.width, self.height)
    }

    pub fn resize(&mut self, width: i32, height: i32)
        ensures
            final(self).width() == width,
            final(self).height() == height,
    {
        self.width = width;
        self.height = height;
    }

    /// Appends this frame's commands to `list`.
    pub fn draw(&self, list: &mut CommandList)
        requires
            old(list).wf(),
            old(list).debug_enabled() ==> old(list).open_scopes() < usize::MAX,
        ensures
            final(list).wf(),
            final(list).commands() == old(list).commands() + self.plan(old(list).debug_enabled()),
            final(list).debug_enabled() == old(list).debug_enabled(),
            final(list).open_scopes() == old(list).open_scopes(),
    {
        let ghost before = list.commands();
        let ghost debug = list.debug_enabled();
        list.push_debug_group(Scope::RoundQuads);
        list.emit_quads_pass(Surface::Window, (self.width, self.height));
        list.pop_debug_group();
        assert(list.commands() =~= before + self.plan(debug));
    }

    /// A frame draws only to the window and samples no target.
    pub proof fn lemma_plan_within(&self, debug: bool)
        ensures
            all_within(self.plan(debug), 0),
    {
        let body = quads_pass(Surface::Window, (self.width(), self.height()));
        lemma_quads_pass_within(Surface::Window, (self.width(), self.height()), 0);
        lemma_scoped_within(debug, Scope::RoundQuads, body, 0);
    }

    /// With debugging enabled a frame differs only by its debug markers.
    pub proof fn lemma_debug_adds_only_markers(&self, debug: bool)
        ensures
            unmarked(self.plan(debug)) == self.plan(false),
    {
        let body = quads_pass(Surface::Window, (self.width(), self.height()));
        lemma_unmarked_scoped(debug, Scope::RoundQuads, body);
        lemma_quads_pass_plain(Surface::Window, (self.width(), self.height()));
    }
}

} // verus!
