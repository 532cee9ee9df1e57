use vstd::prelude::*;

verus! {

/// A named debug scope, as shown by GPU profiling tools.
#[derive(Clone, Copy, Debug, PartialEq, Eq, Structural)]
pub enum Scope {
    RoundQuads,
    Blurring,
    Kawase,
    Scene,
    BlurHorizontal,
    BlurVertical,
    KawaseDown,
    KawaseUp,
    Present,
}

impl Scope {
    /// The message that the host passes to the GPU marker.
    pub fn label(&self) -> (r: &'static str)
        ensures
            r@ == match *self {
                Scope::RoundQuads => "round quads"@,
                Scope::Blurring => "blurring"@,
                Scope::Kawase => "kawase"@,
                Scope::Scene => "scene"@,
                Scope::BlurHorizontal => "blur horizontal"@,
                Scope::BlurVertical => "blur vertical"@,
                Scope::KawaseDown => "kawase downsample"@,
                Scope::KawaseUp => "kawase upsample"@,
                Scope::Present => "present"@,
            },
    {
        match self {
            Scope::RoundQuads => "round quads",
            Scope::Blurring => "blurring",
            Scope::Kawase => "kawase",
            Scope::Scene => "scene",
            Scope::BlurHorizontal => "blur horizontal",
            Scope::BlurVertical => "blur vertical",
            Scope::KawaseDown => "kawase downsample",
            Scope::KawaseUp => "kawase upsample",
            Scope::Present => "present",
        }
    }
}

/// Where a pass draws: the window, or a render target of the scene by index.
#[derive(Clone, Copy, Debug, PartialEq, Eq, Structural)]
pub enum Surface {
    Window,
    Target(usize),
}

/// The shader programs that the scenes draw with.
#[derive(Clone, Copy, Debug, PartialEq, Eq, Structural)]
pub enum Program {
    Quads,
    BlurHorizontal,
    BlurVertical,
    KawaseDown,
    KawaseUp,
    Blit,
}

/// One GPU command of a frame plan.
#[derive(Clone, Copy, Debug, PartialEq, Eq, Structural)]
pub enum Command {
    PushDebugGroup(Scope),
    PopDebugGroup,
    BindSurface(Surface),
    Viewport(i32, i32),
    UseProgram(Program),
    /// Samples the texture of the render target with this index.
    BindTexture(usize),
    SetBlurRadius(u32),
    /// Sets the size of the sampled texture, so that tap offsets scale with
    /// its texel size.
    SetTexelSize(i32, i32),
    DrawQuads,
    DrawFullscreen,
}

pub open spec fn is_marker(c: Command) -> bool {
    c is PushDebugGroup || c is PopDebugGroup
}

pub open spec fn marker_delta(c: Command) -> int {
    match c {
        Command::PushDebugGroup(_) => 1,
        Command::PopDebugGroup => -1,
        _ => 0,
    }
}

/// Open scopes at the end of `s`: pushes minus pops.
pub open spec fn depth(s: Seq<Command>) -> int
    decreases s.len(),
{
    if s.len() == 0 {
        0
    } else {
        depth(s.drop_last()) + marker_delta(s.last())
    }
}

/// The number of marker commands in `s`.
pub open spec fn marker_count(s: Seq<Command>) -> nat
    decreases s.len(),
{
    if s.len() == 0 {
        0
    } else {
        marker_count(s.drop_last()) + if is_marker(s.last()) {
            1nat
        } else {
            0nat
        }
    }
}

/// No prefix of `s` pops more scopes than it pushed.
pub open spec fn properly_nested(s: Seq<Command>) -> bool
    decreases s.len(),
{
    s.len() == 0 || (properly_nested(s.drop_last()) && depth(s) >= 0)
}

/// Every scope pushed in `s` is popped again, in stack order.
pub open spec fn balanced(s: Seq<Command>) -> bool {
    properly_nested(s) && depth(s) == 0
}

/// `body` bracketed by a debug scope when debugging is enabled.
pub open spec fn scoped(debug: bool, scope: Scope, body: Seq<Command>) -> Seq<Command> {
    if debug {
        seq![Command::PushDebugGroup(scope)] + body + seq![Command::PopDebugGroup]
    } else {
        body
    }
}

/// A pass that samples one render target and covers `dest` with a fullscreen
/// triangle.
pub open spec fn fullscreen_pass(
    dest: Surface,
    size: (i32, i32),
    program: Program,
    source: usize,
    param: Command,
) -> Seq<Command> {
    seq![
        Command::BindSurface(dest),
        Command::Viewport(size.0, size.1),
        Command::UseProgram(program),
        Command::BindTexture(source),
        param,
        Command::DrawFullscreen,
    ]
}

/// Draws the instanced quads into `dest`.
pub open spec fn quads_pass(dest: Surface, size: (i32, i32)) -> Seq<Command> {
    seq![
        Command::BindSurface(dest),
        Command::Viewport(size.0, size.1),
        Command::UseProgram(Program::Quads),
        Command::DrawQuads,
    ]
}

/// A command that names a render target names one of the first `n`.
pub open spec fn refers_within(c: Command, n: nat) -> bool {
    match c {
        Command::BindSurface(Surface::Target(i)) => i < n,
        Command::BindTexture(i) => i < n,
        _ => true,
    }
}

/// Every command of `s` names only render targets among the first `n`.
pub open spec fn all_within(s: Seq<Command>, n: nat) -> bool {
    forall|j: int| 0 <= j < s.len() ==> refers_within(#[trigger] s[j], n)
}

pub proof fn lemma_concat_within(a: Seq<Command>, b: Seq<Command>, n: nat)
    requires
        all_within(a, n),
        all_within(b, n),
    ensures
        all_within(a + b, n),
{
    assert forall|j: int| 0 <= j < (a + b).len() implies refers_within(#[trigger] (a + b)[j], n) by {
        if j >= a.len() {
            assert((a + b)[j] == b[j - a.len()]);
        }
    }
}

pub proof fn lemma_scoped_within(debug: bool, scope: Scope, body: Seq<Command>, n: nat)
    requires
        all_within(body, n),
    ensures
        all_within(scoped(debug, scope, body), n),
{
    if debug {
        let open = seq![Command::PushDebugGroup(scope)];
        let close = seq![Command::PopDebugGroup];
        assert(all_within(open, n));
        assert(all_within(close, n));
        lemma_concat_within(open, body, n);
        lemma_concat_within(open + body, close, n);
    }
}

pub proof fn lemma_fullscreen_pass_within(
    dest: Surface,
    size: (i32, i32),
    program: Program,
    source: usize,
    param: Command,
    n: nat,
)
    requires
        refers_within(Command::BindSurface(dest), n),
        source < n,
        !(param is BindSurface),
        !(param is BindTexture),
    ensures
        all_within(fullscreen_pass(dest, size, program, source, param), n),
{
}

pub proof fn lemma_quads_pass_within(dest: Surface, size: (i32, i32), n: nat)
    requires
        refers_within(Command::BindSurface(dest), n),
    ensures
        all_within(quads_pass(dest, size), n),
{
}

/// `s` without its debug markers.
pub open spec fn unmarked(s: Seq<Command>) -> Seq<Command>
    decreases s.len(),
{
    if s.len() == 0 {
        s
    } else if is_marker(s.last()) {
        unmarked(s.drop_last())
    } else {
        unmarked(s.drop_last()).push(s.last())
    }
}

pub proof fn lemma_unmarked_concat(a: Seq<Command>, b: Seq<Command>)
    ensures
        unmarked(a + b) == unmarked(a) + unmarked(b),
    decreases b.len(),
{
    if b.len() == 0 {
        assert(a + b =~= a);
        assert(unmarked(a) + unmarked(b) =~= unmarked(a));
    } else {
        assert((a + b).drop_last() =~= a + b.drop_last());
        assert((a + b).last() == b.last());
        lemma_unmarked_concat(a, b.drop_last());
        if !is_marker(b.last()) {
            assert(unmarked(a) + unmarked(b.drop_last()).push(b.last()) =~= (unmarked(a) + unmarked(
                b.drop_last(),
            )).push(b.last()));
        }
    }
}

/// A sequence without markers is its own unmarked form.
pub proof fn lemma_unmarked_plain(s: Seq<Command>)
    requires
        forall|j: int| 0 <= j < s.len() ==> !is_marker(#[trigger] s[j]),
    ensures
        unmarked(s) == s,
    decreases s.len(),
{
    if s.len() > 0 {
        lemma_unmarked_plain(s.drop_last());
        assert(s.drop_last().push(s.last()) =~= s);
    }
}

pub proof fn lemma_unmarked_scoped(debug: bool, scope: Scope, body: Seq<Command>)
    ensures
        unmarked(scoped(debug, scope, body)) == unmarked(body),
{
    if debug {
        let open = seq![Command::PushDebugGroup(scope)];
        let close = seq![Command::PopDebugGroup];
        assert(open.drop_last() =~= Seq::<Command>::empty());
        assert(close.drop_last() =~= Seq::<Command>::empty());
        assert(unmarked(Seq::<Command>::empty()) == Seq::<Command>::empty());
        assert(unmarked(open) =~= Seq::<Command>::empty());
        assert(unmarked(close) =~= Seq::<Command>::empty());
        lemma_unmarked_concat(open, body);
        lemma_unmarked_concat(open + body, close);
        assert(unmarked(open) + unmarked(body) + unmarked(close) =~= unmarked(body));
    }
}

pub proof fn lemma_fullscreen_pass_plain(
    dest: Surface,
    size: (i32, i32),
    program: Program,
    source: usize,
    param: Command,
)
    requires
        !is_marker(param),
    ensures
        unmarked(fullscreen_pass(dest, size, program, source, param)) == fullscreen_pass(
            dest,
            size,
            program,
            source,
            param,
        ),
{
    lemma_unmarked_plain(fullscreen_pass(dest, size, program, source, param));
}

pub proof fn lemma_quads_pass_plain(dest: Surface, size: (i32, i32))
    ensures
        unmarked(quads_pass(dest, size)) == quads_pass(dest, size),
{
    lemma_unmarked_plain(quads_pass(dest, size));
}

proof fn lemma_append(s: Seq<Command>, c: Command)
    ensures
        depth(s.push(c)) == depth(s) + marker_delta(c),
        marker_count(s.push(c)) == marker_count(s) + if is_marker(c) {
            1nat
        } else {
            0nat
        },
        properly_nested(s.push(c)) == (properly_nested(s) && depth(s) + marker_delta(c) >= 0),
{
    assert(s.push(c).drop_last() =~= s);
}

/// The commands of one frame, built in order, with debug scopes that are
/// emitted only when debugging is enabled.
pub struct CommandList {
    cmds: Vec<Command>,
    debug_enabled: bool,
    open: usize,
}

impl CommandList {
    pub closed spec fn commands(&self) -> Seq<Command> {
        self.cmds@
    }

    pub closed spec fn debug_enabled(&self) -> bool {
        self.debug_enabled
    }

    /// Scopes begun and not yet ended while debugging is enabled; always zero
    /// when it is not.
    pub closed spec fn open_scopes(&self) -> nat {
        self.open as nat
    }

    pub closed spec fn wf(&self) -> bool {
        &&& properly_nested(self.cmds@)
        &&& self.debug_enabled ==> depth(self.cmds@) == self.open
        &&& !self.debug_enabled ==> marker_count(self.cmds@) == 0 && depth(self.cmds@) == 0
            && self.open == 0
    }

    pub fn new(debug_enabled: bool) -> (r: CommandList)
        ensures
            r.wf(),
            r.commands() == Seq::<Command>::empty(),
            r.debug_enabled() == debug_enabled,
            r.open_scopes() == 0,
    {
        CommandList { cmds: Vec::new(), debug_enabled, open: 0 }
    }

    /// Appends a command that is not a debug marker.
    pub fn emit(&mut self, c: Command)
        requires
            old(self).wf(),
            !is_marker(c),
        ensures
            final(self).wf(),
            final(self).commands() == old(self).commands().push(c),
            final(self).debug_enabled() == old(self).debug_enabled(),
            final(self).open_scopes() == old(self).open_scopes(),
    {
        proof {
            lemma_append(self.cmds@, c);
        }
        self.cmds.push(c);
    }

    /// Begins a named scope: pushes a marker when debugging is enabled, and
    /// leaves the list exactly as it was when it is not.
    pub fn push_debug_group(&mut self, scope: Scope)
        requires
            old(self).wf(),
            old(self).debug_enabled() ==> old(self).open_scopes() < usize::MAX,
        ensures
            final(self).wf(),
            final(self).commands() == if old(self).debug_enabled() {
                old(self).commands().push(Command::PushDebugGroup(scope))
            } else {
                old(self).commands()
            },
            final(self).debug_enabled() == old(self).debug_enabled(),
            !old(self).debug_enabled() ==> *final(self) == *old(self),
            final(self).open_scopes() == if old(self).debug_enabled() {
                old(self).open_scopes() + 1
            } else {
                old(self).open_scopes()
            },
    {
        if self.debug_enabled {
            proof {
                lemma_append(self.cmds@, Command::PushDebugGroup(scope));
            }
            self.cmds.push(Command::PushDebugGroup(scope));
            self.open = self.open + 1;
        }
    }

    /// Ends the most recent scope: pops its marker when debugging is enabled,
    /// and leaves the list exactly as it was when it is not.
    pub fn pop_debug_group(&mut self)
        requires
            old(self).wf(),
            old(self).debug_enabled() ==> old(self).open_scopes() > 0,
        ensures
            final(self).wf(),
            final(self).commands() == if old(self).debug_enabled() {
                old(self).commands().push(Command::PopDebugGroup)
            } else {
                old(self).commands()
            },
            final(self).debug_enabled() == old(self).debug_enabled(),
            !old(self).debug_enabled() ==> *final(self) == *old(self),
            final(self).open_scopes() == if old(self).debug_enabled() {
                old(self).open_scopes() - 1
            } else {
                old(self).open_scopes() as int
            },
    {
        if self.debug_enabled {
            proof {
                lemma_append(self.cmds@, Command::PopDebugGroup);
            }
            self.cmds.push(Command::PopDebugGroup);
            self.open = self.open - 1;
        }
    }

    /// Appends a fullscreen pass into `dest`, sampling target `source`.
    pub fn emit_fullscreen_pass(
        &mut self,
        dest: Surface,
        size: (i32, i32),
        program: Program,
        source: usize,
        param: Command,
    )
        requires
            old(self).wf(),
            !is_marker(param),
        ensures
            final(self).wf(),
            final(self).commands() == old(self).commands() + fullscreen_pass(
                dest,
                size,
                program,
                source,
                param,
            ),
            final(self).debug_enabled() == old(self).debug_enabled(),
            final(self).open_scopes() == old(self).open_scopes(),
    {
        let ghost before = self.commands();
        self.emit(Command::BindSurface(dest));
        self.emit(Command::Viewport(size.0, size.1));
        self.emit(Command::UseProgram(program));
        self.emit(Command::BindTexture(source));
        self.emit(param);
        self.emit(Command::DrawFullscreen);
        assert(self.commands() =~= before + fullscreen_pass(dest, size, program, source, param));
    }

    /// Appends the instanced quads pass into `dest`.
    pub fn emit_quads_pass(&mut self, dest: Surface, size: (i32, i32))
        requires
            old(self).wf(),
        ensures
            final(self).wf(),
            final(self).commands() == old(self).commands() + quads_pass(dest, size),
            final(self).debug_enabled() == old(self).debug_enabled(),
            final(self).open_scopes() == old(self).open_scopes(),
    {
        let ghost before = self.commands();
        self.emit(Command::BindSurface(dest));
        self.emit(Command::Viewport(size.0, size.1));
        self.emit(Command::UseProgram(Program::Quads));
        self.emit(Command::DrawQuads);
        assert(self.commands() =~= before + quads_pass(dest, size));
    }

    /// Hands out the finished frame; every scope must have been ended.
    pub fn finish(self) -> (r: Vec<Command>)
        requires
            self.wf(),
            self.open_scopes() == 0,
        ensures
            r@ == self.commands(),
            balanced(r@),
            !self.debug_enabled() ==> marker_count(r@) == 0,
    {
        self.cmds
    }
}

} // verus!
