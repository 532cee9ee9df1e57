use vstd::prelude::*;
use vstd::string::StringExecFns;

verus! {

/// A programmable stage of a shader program.
#[derive(Clone, Copy, Debug, PartialEq, Eq, Structural)]
pub enum ShaderStage {
    Vertex,
    Fragment,
}

impl ShaderStage {
    /// The short name that diagnostics carry.
    pub fn tag(&self) -> (r: &'static str)
        ensures
            r@ == stage_tag(*self),
    {
        match self {
            ShaderStage::Vertex => "vert",
            ShaderStage::Fragment => "frag",
        }
    }
}

pub open spec fn stage_tag(stage: ShaderStage) -> Seq<char> {
    match stage {
        ShaderStage::Vertex => "vert"@,
        ShaderStage::Fragment => "frag"@,
    }
}

/// The build step that a diagnostic comes from.
#[derive(Clone, Copy, Debug, PartialEq, Eq, Structural)]
pub enum DiagnosticSource {
    Compile(ShaderStage),
    Link,
}

/// A status flag of the GPU that says a compile or link step succeeded.
pub const STATUS_OK: i32 = 1;

/// What the GPU reported for one build step: its status flag, and its info
/// log when `log_to_read` asked for one.
pub struct StepOutcome {
    pub status: i32,
    pub log: Option<String>,
}

/// A failed build step with the GPU's info log, empty when none was read.
pub struct Diagnostic {
    pub source: DiagnosticSource,
    pub log: String,
}

impl View for Diagnostic {
    type V = (DiagnosticSource, Seq<char>);

    open spec fn view(&self) -> (DiagnosticSource, Seq<char>) {
        (self.source, self.log@)
    }
}

/// The info log of a build step: empty when none was read.
pub open spec fn log_text(o: StepOutcome) -> Seq<char> {
    match o.log {
        Some(log) => log@,
        None => Seq::empty(),
    }
}

/// The diagnostic that one build step produces: one, carrying its log, if the
/// step failed; none if it succeeded.
pub open spec fn step_diagnostics(source: DiagnosticSource, o: StepOutcome) -> Seq<
    (DiagnosticSource, Seq<char>),
> {
    if o.status != STATUS_OK {
        seq![(source, log_text(o))]
    } else {
        Seq::empty()
    }
}

/// The diagnostics of a whole program build, in build order.
pub open spec fn program_report(vert: StepOutcome, frag: StepOutcome, link: StepOutcome) -> Seq<
    (DiagnosticSource, Seq<char>),
> {
    step_diagnostics(DiagnosticSource::Compile(ShaderStage::Vertex), vert) + step_diagnostics(
        DiagnosticSource::Compile(ShaderStage::Fragment),
        frag,
    ) + step_diagnostics(DiagnosticSource::Link, link)
}

pub open spec fn message_prefix(source: DiagnosticSource) -> Seq<char> {
    match source {
        DiagnosticSource::Compile(stage) => "SHADER COMPILE ERROR ("@ + stage_tag(stage) + "): "@,
        DiagnosticSource::Link => "PROGRAM LINK ERROR: "@,
    }
}

impl Diagnostic {
    /// The line written to the diagnostic stream, tagged with its step.
    pub fn message(&self) -> (r: String)
        ensures
            r@ == message_prefix(self.source) + self.log@,
    {
        let mut r: String;
        match self.source {
            DiagnosticSource::Compile(stage) => {
                r = "SHADER COMPILE ERROR (".to_owned();
                r.append(stage.tag());
                r.append("): ");
            },
            DiagnosticSource::Link => {
                r = "PROGRAM LINK ERROR: ".to_owned();
            },
        }
        r.append(self.log.as_str());
        r
    }
}

/// How many bytes of info log to read after a step: the reported log length
/// when the step failed and the log is not empty, nothing otherwise. A failed
/// step is reported whether or not a log was read.
pub fn log_to_read(status: i32, log_length: i32) -> (r: Option<usize>)
    ensures
        r == if status != STATUS_OK && log_length > 0 {
            Some(log_length as usize)
        } else {
            None::<usize>
        },
{
    if status != STATUS_OK && log_length > 0 {
        Some(log_length as usize)
    } else {
        None
    }
}

fn push_step(report: &mut Vec<Diagnostic>, source: DiagnosticSource, o: StepOutcome)
    ensures
        final(report)@.map_values(|d: Diagnostic| d@) == old(report)@.map_values(
            |d: Diagnostic| d@,
        ) + step_diagnostics(source, o),
{
    let ghost before = report@.map_values(|d: Diagnostic| d@);
    if o.status != STATUS_OK {
        let log = match o.log {
            Some(log) => log,
            None => String::new(),
        };
        report.push(Diagnostic { source, log });
    }
    assert(report@.map_values(|d: Diagnostic| d@) =~= before + step_diagnostics(source, o));
}

/// Checks the three steps of a program build. A failed step is reported and
/// the build goes on: no failure stops the others from being checked.
pub fn program_diagnostics(vert: StepOutcome, frag: StepOutcome, link: StepOutcome) -> (r: Vec<
    Diagnostic,
>)
    ensures
        r@.map_values(|d: Diagnostic| d@) == program_report(vert, frag, link),
{
    let mut r: Vec<Diagnostic> = Vec::new();
    assert(r@.map_values(|d: Diagnostic| d@) =~= Seq::empty());
    push_step(&mut r, DiagnosticSource::Compile(ShaderStage::Vertex), vert);
    push_step(&mut r, DiagnosticSource::Compile(ShaderStage::Fragment), frag);
    push_step(&mut r, DiagnosticSource::Link, link);
    r
}

/// A vertex stage that failed, beside a fragment stage that compiled, is
/// reported first as a "vert" failure, with whatever log was read, and no
/// "frag" failure is reported.
pub proof fn lemma_vertex_failure_reported(vert: StepOutcome, frag: StepOutcome, link: StepOutcome)
    requires
        vert.status != STATUS_OK,
        frag.status == STATUS_OK,
    ensures
        program_report(vert, frag, link).len() >= 1,
        program_report(vert, frag, link)[0] == (
            DiagnosticSource::Compile(ShaderStage::Vertex),
            log_text(vert),
        ),
        forall|i: int|
            0 <= i < program_report(vert, frag, link).len() ==> #[trigger] program_report(
                vert,
                frag,
                link,
            )[i].0 != DiagnosticSource::Compile(ShaderStage::Fragment),
{
}

/// A build whose steps all succeeded produces no diagnostic.
pub proof fn lemma_clean_build_is_silent(vert: StepOutcome, frag: StepOutcome, link: StepOutcome)
    requires
        vert.status == STATUS_OK,
        frag.status == STATUS_OK,
        link.status == STATUS_OK,
    ensures
        program_report(vert, frag, link) == Seq::<(DiagnosticSource, Seq<char>)>::empty(),
{
    assert(program_report(vert, frag, link) =~= Seq::<(DiagnosticSource, Seq<char>)>::empty());
}

} // verus!
