use blur_scenes::shader::{
    log_to_read, program_diagnostics, DiagnosticSource, ShaderStage, StepOutcome, STATUS_OK,
};

fn ok() -> StepOutcome {
    StepOutcome { status: STATUS_OK, log: None }
}

fn failed(log: &str) -> StepOutcome {
    StepOutcome { status: 0, log: Some(log.to_string()) }
}

#[test]
fn invalid_vertex_stage_is_reported_as_vert() {
    let report = program_diagnostics(failed("0:1: syntax error"), ok(), failed("not compiled"));
    assert_eq!(report.len(), 2);
    assert_eq!(report[0].source, DiagnosticSource::Compile(ShaderStage::Vertex));
    assert_eq!(report[0].message(), "SHADER COMPILE ERROR (vert): 0:1: syntax error");
    assert!(report
        .iter()
        .all(|d| d.source != DiagnosticSource::Compile(ShaderStage::Fragment)));
    assert_eq!(report[1].source, DiagnosticSource::Link);
    assert_eq!(report[1].message(), "PROGRAM LINK ERROR: not compiled");
}

#[test]
fn valid_sources_give_no_diagnostics() {
    assert!(program_diagnostics(ok(), ok(), ok()).is_empty());
}

#[test]
fn fragment_failure_is_reported_as_frag() {
    let report = program_diagnostics(ok(), failed("bad"), ok());
    assert_eq!(report.len(), 1);
    assert_eq!(report[0].message(), "SHADER COMPILE ERROR (frag): bad");
}

#[test]
fn failure_without_log_is_reported() {
    let report = program_diagnostics(StepOutcome { status: 0, log: None }, ok(), ok());
    assert_eq!(report.len(), 1);
    assert_eq!(report[0].source, DiagnosticSource::Compile(ShaderStage::Vertex));
    assert_eq!(report[0].log, "");
    assert_eq!(report[0].message(), "SHADER COMPILE ERROR (vert): ");
}

#[test]
fn fragment_failure_without_log_is_reported() {
    let report = program_diagnostics(ok(), StepOutcome { status: 0, log: None }, ok());
    assert_eq!(report.len(), 1);
    assert_eq!(report[0].message(), "SHADER COMPILE ERROR (frag): ");
}

#[test]
fn link_failure_without_log_is_reported() {
    let report = program_diagnostics(ok(), ok(), StepOutcome { status: 0, log: None });
    assert_eq!(report.len(), 1);
    assert_eq!(report[0].source, DiagnosticSource::Link);
    assert_eq!(report[0].message(), "PROGRAM LINK ERROR: ");
}

#[test]
fn log_is_read_only_after_a_failure() {
    assert_eq!(log_to_read(STATUS_OK, 12), None);
    assert_eq!(log_to_read(0, 12), Some(12));
    assert_eq!(log_to_read(0, 0), None);
    assert_eq!(log_to_read(0, -3), None);
}

#[test]
fn stage_tags() {
    assert_eq!(ShaderStage::Vertex.tag(), "vert");
    assert_eq!(ShaderStage::Fragment.tag(), "frag");
}
