use planet_render::frame::{
    record_pass, Body, Recovery, RenderCommand, RenderError, SurfaceFault, BACKGROUND_ALPHA,
    BACKGROUND_BLUE, BACKGROUND_GREEN, BACKGROUND_RED, CLEAR_DEPTH,
};

fn draws(commands: &[RenderCommand]) -> Vec<RenderCommand> {
    commands
        .iter()
        .copied()
        .filter(|command| matches!(command, RenderCommand::DrawIndexed { .. }))
        .collect()
}

fn full_draw(index_count: u32) -> RenderCommand {
    RenderCommand::DrawIndexed {
        first_index: 0,
        index_count,
        base_vertex: 0,
        first_instance: 0,
        instance_count: 1,
    }
}

#[test]
fn hidden_secondary_body_gives_one_draw_call() {
    let commands = record_pass(15000, false);
    assert_eq!(draws(&commands), vec![full_draw(15000)]);
}

#[test]
fn shown_secondary_body_gives_two_draw_calls() {
    let commands = record_pass(15000, true);
    assert_eq!(draws(&commands), vec![full_draw(15000), full_draw(15000)]);
}

#[test]
fn pass_without_secondary_body_is_recorded_in_order() {
    let expected = vec![
        RenderCommand::BeginPass { red: 1, green: 1, blue: 2, alpha: 100, depth: 100 },
        RenderCommand::SetPipeline,
        RenderCommand::SetVertexBuffer { slot: 0 },
        RenderCommand::SetIndexBuffer,
        RenderCommand::SetBindGroup { group: 0, body: Body::Primary },
        full_draw(36),
        RenderCommand::EndPass,
        RenderCommand::Submit,
        RenderCommand::Present,
    ];
    assert_eq!(record_pass(36, false), expected);
}

#[test]
fn pass_with_secondary_body_rebinds_and_draws_again() {
    let expected = vec![
        RenderCommand::BeginPass { red: 1, green: 1, blue: 2, alpha: 100, depth: 100 },
        RenderCommand::SetPipeline,
        RenderCommand::SetVertexBuffer { slot: 0 },
        RenderCommand::SetIndexBuffer,
        RenderCommand::SetBindGroup { group: 0, body: Body::Primary },
        full_draw(36),
        RenderCommand::SetBindGroup { group: 0, body: Body::Secondary },
        full_draw(36),
        RenderCommand::EndPass,
        RenderCommand::Submit,
        RenderCommand::Present,
    ];
    assert_eq!(record_pass(36, true), expected);
}

#[test]
fn pipeline_and_mesh_are_bound_once() {
    for show_secondary in [false, true] {
        let commands = record_pass(15000, show_secondary);
        let pipelines: usize =
            commands.iter().filter(|c| matches!(c, RenderCommand::SetPipeline)).count();
        let vertex_buffers: usize =
            commands.iter().filter(|c| matches!(c, RenderCommand::SetVertexBuffer { .. })).count();
        let index_buffers: usize =
            commands.iter().filter(|c| matches!(c, RenderCommand::SetIndexBuffer)).count();
        let passes: usize =
            commands.iter().filter(|c| matches!(c, RenderCommand::BeginPass { .. })).count();
        assert_eq!((pipelines, vertex_buffers, index_buffers, passes), (1, 1, 1, 1));
    }
}

#[test]
fn background_is_near_black_and_depth_clears_to_the_far_plane() {
    let red = BACKGROUND_RED as f64 / 100.0;
    let green = BACKGROUND_GREEN as f64 / 100.0;
    let blue = BACKGROUND_BLUE as f64 / 100.0;
    let alpha = BACKGROUND_ALPHA as f64 / 100.0;
    assert_eq!((red, green, blue, alpha), (0.01, 0.01, 0.02, 1.0));
    assert_eq!(CLEAR_DEPTH as f32 / 100.0, 1.0);
}

#[test]
fn lost_surface_is_recoverable() {
    assert_eq!(SurfaceFault::Lost.classify(), RenderError::RecoverableSurface);
}

#[test]
fn out_of_memory_is_fatal() {
    assert_eq!(SurfaceFault::OutOfMemory.classify(), RenderError::Fatal);
}

#[test]
fn other_faults_are_transient() {
    assert_eq!(SurfaceFault::Timeout.classify(), RenderError::Transient);
    assert_eq!(SurfaceFault::Outdated.classify(), RenderError::Transient);
}

#[test]
fn recovery_variants_are_distinct() {
    assert_ne!(Recovery::Terminate, Recovery::SkipFrame);
}
