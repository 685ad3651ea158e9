use wayggle_bg::graphics::{
    quad_vertex_count, quad_vertices, shader_build_result, GlCommand, Graphics, ShaderBuildError,
    TeardownStep,
};

#[test]
fn render_with_both_uniforms_issues_the_full_command_sequence() {
    let g = Graphics::new(1920, 1080, true, true);
    let cmds = g.render(2500);
    assert_eq!(
        cmds,
        vec![
            GlCommand::MakeCurrent,
            GlCommand::Viewport {
                width: 1920,
                height: 1080,
            },
            GlCommand::UseProgram,
            GlCommand::SetTimeUniform {
                elapsed_millis: 2500,
            },
            GlCommand::SetResolutionUniform {
                width: 1920,
                height: 1080,
            },
            GlCommand::DrawQuad,
            GlCommand::SwapBuffers,
        ]
    );
}

#[test]
fn render_without_time_uniform_skips_it_and_still_draws() {
    let g = Graphics::new(640, 480, false, true);
    let cmds = g.render(999);
    assert!(cmds
        .iter()
        .all(|c| !matches!(c, GlCommand::SetTimeUniform { .. })));
    assert!(cmds.contains(&GlCommand::DrawQuad));
    assert!(cmds.contains(&GlCommand::SwapBuffers));
}

#[test]
fn render_without_any_uniform_skips_both_and_still_draws() {
    let g = Graphics::new(640, 480, false, false);
    let cmds = g.render(0);
    assert_eq!(
        cmds,
        vec![
            GlCommand::MakeCurrent,
            GlCommand::Viewport {
                width: 640,
                height: 480,
            },
            GlCommand::UseProgram,
            GlCommand::DrawQuad,
            GlCommand::SwapBuffers,
        ]
    );
}

#[test]
fn resize_then_render_sets_the_viewport_to_exactly_the_new_size() {
    let mut g = Graphics::new(1920, 1080, true, false);
    // Render any number of times at the old size first.
    g.render(1);
    g.render(2);
    let resize_cmds = g.resize(2560, 1440);
    assert_eq!(
        resize_cmds,
        vec![
            GlCommand::ResizeDrawable {
                width: 2560,
                height: 1440,
            },
            GlCommand::Viewport {
                width: 2560,
                height: 1440,
            },
        ]
    );
    let cmds = g.render(3);
    let viewports: Vec<&GlCommand> = cmds
        .iter()
        .filter(|c| matches!(c, GlCommand::Viewport { .. }))
        .collect();
    assert_eq!(
        viewports,
        vec![&GlCommand::Viewport {
            width: 2560,
            height: 1440,
        }]
    );
}

#[test]
fn teardown_runs_in_the_fixed_order() {
    let g = Graphics::new(100, 100, true, true);
    assert_eq!(
        g.teardown_plan(),
        vec![
            TeardownStep::UnbindContext,
            TeardownStep::DeleteProgram,
            TeardownStep::DeleteBuffer,
            TeardownStep::DestroyTarget,
            TeardownStep::DestroyContext,
            TeardownStep::TerminateDisplay,
        ]
    );
}

#[test]
fn quad_spans_the_normalized_device_coordinate_square() {
    assert_eq!(quad_vertices(), vec![-1, -1, 1, -1, -1, 1, 1, 1]);
    assert_eq!(quad_vertex_count(), 4);
}

#[test]
fn shader_build_succeeds_only_when_all_stages_succeed() {
    let r = shader_build_result(
        true,
        String::new(),
        true,
        String::new(),
        true,
        String::new(),
    );
    assert!(r.is_ok());
}

#[test]
fn vertex_compile_failure_reports_the_vertex_diagnostic() {
    let r = shader_build_result(
        false,
        String::from("bad vertex"),
        true,
        String::new(),
        true,
        String::new(),
    );
    match r {
        Err(ShaderBuildError::VertexCompile { log }) => assert_eq!(log, "bad vertex"),
        other => panic!("expected a vertex compile error, got {:?}", other),
    }
}

#[test]
fn fragment_compile_failure_reports_the_fragment_diagnostic() {
    let r = shader_build_result(
        true,
        String::new(),
        false,
        String::from("bad fragment"),
        true,
        String::new(),
    );
    match r {
        Err(ShaderBuildError::FragmentCompile { log }) => assert_eq!(log, "bad fragment"),
        other => panic!("expected a fragment compile error, got {:?}", other),
    }
}

#[test]
fn link_failure_reports_the_linker_diagnostic() {
    let r = shader_build_result(
        true,
        String::new(),
        true,
        String::new(),
        false,
        String::from("bad link"),
    );
    match r {
        Err(ShaderBuildError::Link { log }) => assert_eq!(log, "bad link"),
        other => panic!("expected a link error, got {:?}", other),
    }
}

#[test]
fn vertex_failure_takes_priority_over_later_stages() {
    let r = shader_build_result(
        false,
        String::from("vertex log"),
        false,
        String::from("fragment log"),
        false,
        String::from("link log"),
    );
    assert!(matches!(
        r,
        Err(ShaderBuildError::VertexCompile { log }) if log == "vertex log"
    ));
}
