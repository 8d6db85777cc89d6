use camilladsp::graph::{reload_plan, validate_pipeline, PipelineError, PipelineStep, ReloadPlan, StageId, StageKind};

fn stage(name: &str, kind: StageKind) -> StageId {
    StageId { name: name.to_string(), kind }
}

fn graph(gain_kind: StageKind, second: &str) -> Vec<PipelineStep> {
    vec![
        PipelineStep::Mixer { name: "to4".to_string(), channels_in: 2, channels_out: 4 },
        PipelineStep::Filter { channel: 3, stages: vec![stage("eq", StageKind::Biquad), stage(second, gain_kind)] },
        PipelineStep::Filter { channel: 0, stages: vec![stage("ld", StageKind::Loudness)] },
    ]
}

#[test]
fn valid_graph() {
    assert_eq!(validate_pipeline(&graph(StageKind::Gain, "g"), 2, 4), Ok(()));
    assert_eq!(validate_pipeline(&Vec::new(), 2, 2), Ok(()));
}

#[test]
fn invalid_graphs() {
    assert_eq!(validate_pipeline(&graph(StageKind::Gain, "g"), 2, 2), Err(PipelineError::OutputMismatch { channels: 4 }));
    assert_eq!(validate_pipeline(&graph(StageKind::Gain, "g"), 3, 4), Err(PipelineError::MixerInputMismatch { step: 0 }));
    let steps = vec![PipelineStep::Filter { channel: 2, stages: Vec::new() }];
    assert_eq!(validate_pipeline(&steps, 2, 2), Err(PipelineError::ChannelOutOfRange { step: 0 }));
    assert_eq!(validate_pipeline(&Vec::new(), 2, 1), Err(PipelineError::OutputMismatch { channels: 2 }));
}

#[test]
fn parameters_only_reload_updates_in_place() {
    let a = graph(StageKind::Gain, "g");
    let b = graph(StageKind::Gain, "g");
    assert_eq!(reload_plan(&a, &b), ReloadPlan::UpdateParameters);
    assert_eq!(reload_plan(&Vec::new(), &Vec::new()), ReloadPlan::UpdateParameters);
}

#[test]
fn changed_structure_rebuilds() {
    let a = graph(StageKind::Gain, "g");
    assert_eq!(reload_plan(&a, &graph(StageKind::Volume, "g")), ReloadPlan::Rebuild);
    assert_eq!(reload_plan(&a, &graph(StageKind::Gain, "h")), ReloadPlan::Rebuild);
    let mut shorter = graph(StageKind::Gain, "g");
    shorter.pop();
    assert_eq!(reload_plan(&a, &shorter), ReloadPlan::Rebuild);
    let mut moved = graph(StageKind::Gain, "g");
    moved[2] = PipelineStep::Filter { channel: 1, stages: vec![stage("ld", StageKind::Loudness)] };
    assert_eq!(reload_plan(&a, &moved), ReloadPlan::Rebuild);
}
