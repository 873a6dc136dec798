//! One frame: the commands of its render pass, in the order in which they are
//! recorded, and what is to be done when no frame could be acquired.
//!
//! Both bodies are drawn from one mesh with one pipeline. What tells them
//! apart is the uniform buffer that is bound when the draw call is issued.

use vstd::prelude::*;
use crate::state::SurfaceSize;

verus! {

/// Which of the two bodies a bind group belongs to.
#[derive(Clone, Copy, Debug, PartialEq, Eq, Structural)]
pub enum Body {
    /// The planet.
    Primary,
    /// The moon.
    Secondary,
}

/// Red, green and blue of the background, and its alpha, in hundredths:
/// a near-black `(0.01, 0.01, 0.02, 1.0)`.
pub const BACKGROUND_RED: u32 = 1;

pub const BACKGROUND_GREEN: u32 = 1;

pub const BACKGROUND_BLUE: u32 = 2;

pub const BACKGROUND_ALPHA: u32 = 100;

/// The depth that the pass clears to, in hundredths: `1.0`, the far plane.
pub const CLEAR_DEPTH: u32 = 100;

/// One step of recording and finishing a frame.
#[derive(Clone, Copy, Debug, PartialEq, Eq, Structural)]
pub enum RenderCommand {
    /// Begin the pass: clear the colour target and the depth target, which is
    /// attached for depth testing. All values are in hundredths.
    BeginPass { red: u32, green: u32, blue: u32, alpha: u32, depth: u32 },
    /// Bind the pipeline that both bodies share.
    SetPipeline,
    /// Bind the vertex buffer of the mesh.
    SetVertexBuffer { slot: u32 },
    /// Bind the index buffer of the mesh, with 32-bit indices.
    SetIndexBuffer,
    /// Bind the uniform bind group of a body.
    SetBindGroup { group: u32, body: Body },
    /// Draw `index_count` indices from `first_index` on, `instance_count` times.
    DrawIndexed {
        first_index: u32,
        index_count: u32,
        base_vertex: i32,
        first_instance: u32,
        instance_count: u32,
    },
    /// End the pass.
    EndPass,
    /// Submit the recorded commands.
    Submit,
    /// Present the frame.
    Present,
}

/// The draw call of the whole mesh, once.
pub open spec fn full_draw(index_count: u32) -> RenderCommand {
    RenderCommand::DrawIndexed {
        first_index: 0,
        index_count,
        base_vertex: 0,
        first_instance: 0,
        instance_count: 1,
    }
}

/// What is recorded before the first draw call.
pub open spec fn pass_prologue() -> Seq<RenderCommand> {
    seq![
        RenderCommand::BeginPass {
            red: BACKGROUND_RED,
            green: BACKGROUND_GREEN,
            blue: BACKGROUND_BLUE,
            alpha: BACKGROUND_ALPHA,
            depth: CLEAR_DEPTH,
        },
        RenderCommand::SetPipeline,
        RenderCommand::SetVertexBuffer { slot: 0 },
        RenderCommand::SetIndexBuffer,
    ]
}

/// Binding a body's uniforms and drawing the mesh with them.
pub open spec fn body_draw(body: Body, index_count: u32) -> Seq<RenderCommand> {
    seq![RenderCommand::SetBindGroup { group: 0, body }, full_draw(index_count)]
}

/// What follows the last draw call.
pub open spec fn pass_epilogue() -> Seq<RenderCommand> {
    seq![RenderCommand::EndPass, RenderCommand::Submit, RenderCommand::Present]
}

/// The commands of one frame: the primary body is always drawn, the secondary
/// one if it is shown.
pub open spec fn pass_commands(index_count: u32, show_secondary: bool) -> Seq<RenderCommand> {
    pass_prologue() + body_draw(Body::Primary, index_count) + (if show_secondary {
        body_draw(Body::Secondary, index_count)
    } else {
        Seq::empty()
    }) + pass_epilogue()
}

/// Number of draw calls among the commands.
pub open spec fn draw_count(commands: Seq<RenderCommand>) -> nat
    decreases commands.len(),
{
    if commands.len() == 0 {
        0
    } else {
        draw_count(commands.drop_last()) + if commands.last() is DrawIndexed {
            1nat
        } else {
            0nat
        }
    }
}

proof fn lemma_draw_count_push(commands: Seq<RenderCommand>, command: RenderCommand)
    ensures
        draw_count(commands.push(command)) == draw_count(commands) + if command is DrawIndexed {
            1nat
        } else {
            0nat
        },
{
    assert(commands.push(command).drop_last() =~= commands);
}

/// One draw call when the secondary body is hidden, two when it is shown; each
/// covers the whole index range, once.
pub proof fn lemma_draw_calls(index_count: u32, show_secondary: bool)
    ensures
        draw_count(pass_commands(index_count, show_secondary)) == if show_secondary {
            2nat
        } else {
            1nat
        },
        forall|i: int|
            0 <= i < pass_commands(index_count, show_secondary).len() && (#[trigger] pass_commands(
                index_count,
                show_secondary,
            )[i]) is DrawIndexed ==> pass_commands(index_count, show_secondary)[i] == full_draw(
                index_count,
            ),
{
    let all = pass_commands(index_count, show_secondary);
    let e = Seq::<RenderCommand>::empty();
    assert(draw_count(e) == 0);
    let s1 = e.push(all[0]);
    lemma_draw_count_push(e, all[0]);
    let s2 = s1.push(all[1]);
    lemma_draw_count_push(s1, all[1]);
    let s3 = s2.push(all[2]);
    lemma_draw_count_push(s2, all[2]);
    let s4 = s3.push(all[3]);
    lemma_draw_count_push(s3, all[3]);
    let s5 = s4.push(all[4]);
    lemma_draw_count_push(s4, all[4]);
    let s6 = s5.push(all[5]);
    lemma_draw_count_push(s5, all[5]);
    let s7 = s6.push(all[6]);
    lemma_draw_count_push(s6, all[6]);
    let s8 = s7.push(all[7]);
    lemma_draw_count_push(s7, all[7]);
    let s9 = s8.push(all[8]);
    lemma_draw_count_push(s8, all[8]);
    if show_secondary {
        let s10 = s9.push(all[9]);
        lemma_draw_count_push(s9, all[9]);
        let s11 = s10.push(all[10]);
        lemma_draw_count_push(s10, all[10]);
        assert(s11 =~= all);
    } else {
        assert(s9 =~= all);
    }
}

/// Records the render pass of one frame.
pub fn record_pass(index_count: u32, show_secondary: bool) -> (commands: Vec<RenderCommand>)
    ensures
        commands@ == pass_commands(index_count, show_secondary),
        draw_count(commands@) == if show_secondary {
            2nat
        } else {
            1nat
        },
{
    let draw = RenderCommand::DrawIndexed {
        first_index: 0,
        index_count,
        base_vertex: 0,
        first_instance: 0,
        instance_count: 1,
    };
    let mut commands: Vec<RenderCommand> = Vec::new();
    commands.push(
        RenderCommand::BeginPass {
            red: BACKGROUND_RED,
            green: BACKGROUND_GREEN,
            blue: BACKGROUND_BLUE,
            alpha: BACKGROUND_ALPHA,
            depth: CLEAR_DEPTH,
        },
    );
    commands.push(RenderCommand::SetPipeline);
    commands.push(RenderCommand::SetVertexBuffer { slot: 0 });
    commands.push(RenderCommand::SetIndexBuffer);
    commands.push(RenderCommand::SetBindGroup { group: 0, body: Body::Primary });
    commands.push(draw);
    if show_secondary {
        commands.push(RenderCommand::SetBindGroup { group: 0, body: Body::Secondary });
        commands.push(draw);
    }
    commands.push(RenderCommand::EndPass);
    commands.push(RenderCommand::Submit);
    commands.push(RenderCommand::Present);
    proof {
        assert(commands@ =~= pass_commands(index_count, show_secondary));
        lemma_draw_calls(index_count, show_secondary);
    }
    commands
}

/// Why no frame could be acquired from the surface.
#[derive(Clone, Copy, Debug, PartialEq, Eq, Structural)]
pub enum SurfaceFault {
    /// The frame did not become available in time.
    Timeout,
    /// The surface has changed under the swap chain.
    Outdated,
    /// The surface is no longer valid.
    Lost,
    /// No memory is left for a new frame.
    OutOfMemory,
}

/// What a failed frame means for the renderer.
#[derive(Clone, Copy, Debug, PartialEq, Eq, Structural)]
pub enum RenderError {
    /// Nothing can be done: the process must end.
    Fatal,
    /// The surface must be configured again; the next frame may succeed.
    RecoverableSurface,
    /// This frame is lost, the next one is tried as if nothing had happened.
    Transient,
}

/// What the caller does about a failed frame.
#[derive(Clone, Copy, Debug, PartialEq, Eq, Structural)]
pub enum Recovery {
    /// End the process.
    Terminate,
    /// Configure the surface again, and make a new depth target, for this size.
    Reconfigure { size: SurfaceSize },
    /// Report the fault and go on with the next frame.
    SkipFrame,
}

/// The class of a fault: a lost surface can be recovered, memory that has run
/// out cannot, and everything else passes.
pub open spec fn error_class(fault: SurfaceFault) -> RenderError {
    match fault {
        SurfaceFault::Lost => RenderError::RecoverableSurface,
        SurfaceFault::OutOfMemory => RenderError::Fatal,
        SurfaceFault::Timeout => RenderError::Transient,
        SurfaceFault::Outdated => RenderError::Transient,
    }
}

/// The recovery that a class of error calls for, on a surface of `size`.
pub open spec fn recovery_for(error: RenderError, size: SurfaceSize) -> Recovery {
    match error {
        RenderError::Fatal => Recovery::Terminate,
        RenderError::RecoverableSurface => Recovery::Reconfigure { size },
        RenderError::Transient => Recovery::SkipFrame,
    }
}

impl SurfaceFault {
    /// Classifies the fault.
    pub fn classify(self) -> (error: RenderError)
        ensures
            error == error_class(self),
    {
        match self {
            SurfaceFault::Lost => RenderError::RecoverableSurface,
            SurfaceFault::OutOfMemory => RenderError::Fatal,
            SurfaceFault::Timeout => RenderError::Transient,
            SurfaceFault::Outdated => RenderError::Transient,
        }
    }
}

} // verus!
