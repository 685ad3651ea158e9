//! Model of the render engine: the GPU state the verified core tracks
//! (drawable size and which uniforms the linked program declares) and
//! the exact command sequences a frame, a resize, and a teardown must
//! issue. The unverified binary owns the real GPU handles and performs
//! each command in the order given here.

use vstd::prelude::*;

verus! {

/// One GPU-side effect of a frame or of a resize, in the order the
/// engine must perform it. Sizes are in pixels; elapsed time is in
/// milliseconds since render start (the binary converts it to the
/// floating-point seconds the shader uniform expects).
#[derive(Clone, Copy, Debug, PartialEq, Eq, Structural)]
pub enum GlCommand {
    /// Bind the context and the drawable target as current on this thread.
    MakeCurrent,
    /// Resize the native drawable binding in place.
    ResizeDrawable { width: u32, height: u32 },
    /// Set the viewport to the drawable's full extent.
    Viewport { width: u32, height: u32 },
    /// Bind the linked shader program.
    UseProgram,
    /// Set the time uniform; issued only when the program declares one.
    SetTimeUniform { elapsed_millis: u64 },
    /// Set the resolution uniform; issued only when the program declares one.
    SetResolutionUniform { width: u32, height: u32 },
    /// Draw the full-screen quad as a four-vertex triangle strip.
    DrawQuad,
    /// Present the rendered buffer.
    SwapBuffers,
}

/// One step of the fixed release sequence run when the engine is torn
/// down. GPU object deletion must precede target and context
/// destruction, and the context must be unbound before it is destroyed.
#[derive(Clone, Copy, Debug, PartialEq, Eq, Structural)]
pub enum TeardownStep {
    UnbindContext,
    DeleteProgram,
    DeleteBuffer,
    DestroyTarget,
    DestroyContext,
    TerminateDisplay,
}

/// The engine state the verified core tracks: the current drawable
/// size and whether the linked program declared the time and
/// resolution uniforms. A shader that declares neither is valid; the
/// corresponding uniform is simply never set.
#[derive(Clone, Copy, Debug, PartialEq, Eq, Structural)]
pub struct Graphics {
    pub width: u32,
    pub height: u32,
    pub has_time_uniform: bool,
    pub has_resolution_uniform: bool,
}

/// The commands one frame issues for engine state `g` at elapsed time
/// `elapsed_millis`: make the context current, set the viewport to the
/// stored size, bind the program, set each uniform the program
/// declares, draw the quad, present.
pub open spec fn spec_render_commands(g: Graphics, elapsed_millis: u64) -> Seq<GlCommand> {
    seq![
        GlCommand::MakeCurrent,
        GlCommand::Viewport { width: g.width, height: g.height },
        GlCommand::UseProgram,
    ] + (if g.has_time_uniform {
        seq![GlCommand::SetTimeUniform { elapsed_millis }]
    } else {
        Seq::<GlCommand>::empty()
    }) + (if g.has_resolution_uniform {
        seq![GlCommand::SetResolutionUniform { width: g.width, height: g.height }]
    } else {
        Seq::<GlCommand>::empty()
    }) + seq![GlCommand::DrawQuad, GlCommand::SwapBuffers]
}

/// The commands a resize issues: resize the native drawable binding in
/// place, then update the viewport. No context or target is recreated.
pub open spec fn spec_resize_commands(width: u32, height: u32) -> Seq<GlCommand> {
    seq![
        GlCommand::ResizeDrawable { width, height },
        GlCommand::Viewport { width, height },
    ]
}

/// The fixed five-handle release order: unbind the context from the
/// thread, delete the GPU objects (program, then vertex buffer),
/// destroy the drawable target, destroy the context, terminate the
/// display binding.
pub open spec fn spec_teardown_plan() -> Seq<TeardownStep> {
    seq![
        TeardownStep::UnbindContext,
        TeardownStep::DeleteProgram,
        TeardownStep::DeleteBuffer,
        TeardownStep::DestroyTarget,
        TeardownStep::DestroyContext,
        TeardownStep::TerminateDisplay,
    ]
}

impl Graphics {
    /// Records the engine state after construction: the drawable was
    /// wrapped at the given size, and the uniform lookups reported
    /// whether the program declares the time and resolution uniforms.
    pub fn new(width: u32, height: u32, has_time_uniform: bool, has_resolution_uniform: bool) -> (g:
        Graphics)
        ensures
            g == (Graphics { width, height, has_time_uniform, has_resolution_uniform }),
    {
        Graphics { width, height, has_time_uniform, has_resolution_uniform }
    }

    /// One frame at `elapsed_millis`: returns exactly the commands of
    /// `spec_render_commands`. Total for every engine state — in
    /// particular, a program without a time uniform renders without
    /// one, skipping that uniform rather than failing.
    pub fn render(&self, elapsed_millis: u64) -> (cmds: Vec<GlCommand>)
        ensures
            cmds@ == spec_render_commands(*self, elapsed_millis),
    {
        let mut cmds: Vec<GlCommand> = Vec::new();
        cmds.push(GlCommand::MakeCurrent);
        cmds.push(GlCommand::Viewport { width: self.width, height: self.height });
        cmds.push(GlCommand::UseProgram);
        if self.has_time_uniform {
            cmds.push(GlCommand::SetTimeUniform { elapsed_millis });
        }
        if self.has_resolution_uniform {
            cmds.push(GlCommand::SetResolutionUniform { width: self.width, height: self.height });
        }
        cmds.push(GlCommand::DrawQuad);
        cmds.push(GlCommand::SwapBuffers);
        proof {
            assert(cmds@ =~= spec_render_commands(*self, elapsed_millis));
        }
        cmds
    }

    /// Updates the stored size and returns the commands that apply it
    /// to the native drawable and the viewport. The uniform slots are
    /// unchanged: the engine is never reconstructed on resize.
    pub fn resize(&mut self, width: u32, height: u32) -> (cmds: Vec<GlCommand>)
        ensures
            *final(self) == (Graphics { width, height, ..*old(self) }),
            cmds@ == spec_resize_commands(width, height),
    {
        self.width = width;
        self.height = height;
        let mut cmds: Vec<GlCommand> = Vec::new();
        cmds.push(GlCommand::ResizeDrawable { width, height });
        cmds.push(GlCommand::Viewport { width, height });
        proof {
            assert(cmds@ =~= spec_resize_commands(width, height));
        }
        cmds
    }

    /// The release sequence to run on every exit path, in the exact
    /// order of `spec_teardown_plan`.
    pub fn teardown_plan(&self) -> (steps: Vec<TeardownStep>)
        ensures
            steps@ == spec_teardown_plan(),
    {
        let mut steps: Vec<TeardownStep> = Vec::new();
        steps.push(TeardownStep::UnbindContext);
        steps.push(TeardownStep::DeleteProgram);
        steps.push(TeardownStep::DeleteBuffer);
        steps.push(TeardownStep::DestroyTarget);
        steps.push(TeardownStep::DestroyContext);
        steps.push(TeardownStep::TerminateDisplay);
        proof {
            assert(steps@ =~= spec_teardown_plan());
        }
        steps
    }
}

/// The full-screen quad uploaded as the sole vertex buffer: the four
/// corners of the normalized-device-coordinate square, as a
/// triangle strip, two coordinates per vertex.
pub fn quad_vertices() -> (v: Vec<i8>)
    ensures
        v@ == seq![-1i8, -1i8, 1i8, -1i8, -1i8, 1i8, 1i8, 1i8],
{
    let mut v: Vec<i8> = Vec::new();
    v.push(-1);
    v.push(-1);
    v.push(1);
    v.push(-1);
    v.push(-1);
    v.push(1);
    v.push(1);
    v.push(1);
    proof {
        assert(v@ =~= seq![-1i8, -1i8, 1i8, -1i8, -1i8, 1i8, 1i8, 1i8]);
    }
    v
}

/// The number of vertices the quad draw call covers.
pub fn quad_vertex_count() -> (n: u32)
    ensures
        n == 4,
{
    4
}

/// Why a shader build failed, with the compiler's or linker's
/// diagnostic text surfaced verbatim. Build failures are fatal: they
/// are logic errors in the supplied shader source, not transient.
#[derive(Debug)]
pub enum ShaderBuildError {
    VertexCompile { log: String },
    FragmentCompile { log: String },
    Link { log: String },
}

/// The build verdict from the three stage outcomes the GPU reported.
/// The stages are checked in build order — vertex compile, fragment
/// compile, link — and the first failing stage's diagnostic is the
/// one reported. `Ok` exactly when all three stages succeeded.
pub fn shader_build_result(
    vertex_ok: bool,
    vertex_log: String,
    fragment_ok: bool,
    fragment_log: String,
    link_ok: bool,
    link_log: String,
) -> (r: Result<(), ShaderBuildError>)
    ensures
        r is Ok <==> vertex_ok && fragment_ok && link_ok,
        !vertex_ok ==> (r matches Err(ShaderBuildError::VertexCompile { log }) && log@
            == vertex_log@),
        vertex_ok && !fragment_ok ==> (r matches Err(ShaderBuildError::FragmentCompile { log })
            && log@ == fragment_log@),
        vertex_ok && fragment_ok && !link_ok ==> (r matches Err(ShaderBuildError::Link { log })
            && log@ == link_log@),
{
    if !vertex_ok {
        Err(ShaderBuildError::VertexCompile { log: vertex_log })
    } else if !fragment_ok {
        Err(ShaderBuildError::FragmentCompile { log: fragment_log })
    } else if !link_ok {
        Err(ShaderBuildError::Link { log: link_log })
    } else {
        Ok(())
    }
}

} // verus!
