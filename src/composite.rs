use vstd::prelude::*;

verus! {

/// Vertices of the full-screen triangle; the vertex stage generates them.
pub const FULLSCREEN_VERTICES: u32 = 3;

/// Compilation state of the composite pipeline, polled once a frame.
#[derive(Clone, Copy, Debug, PartialEq, Eq, Structural)]
pub enum PipelineStatus {
    Pending,
    Ready,
    Failed,
}

/// What one slot of the composite bind group holds.
#[derive(Clone, Copy, Debug, PartialEq, Eq, Structural)]
pub enum BindingKind {
    ColorTexture,
    Sampler,
    SettingsUniform,
    DepthTexture,
    NormalTexture,
}

/// The one draw the composite stage issues: `vertex_count` generated
/// vertices, `instance_count` instances, no vertex or index buffer.
#[derive(Clone, Copy, Debug, PartialEq, Eq, Structural)]
pub struct DrawCall {
    pub vertex_count: u32,
    pub instance_count: u32,
}

#[derive(Clone, Copy, Debug, PartialEq, Eq, Structural)]
pub enum CompositeAction {
    /// Nothing is drawn this frame; the next frame tries again.
    Skip,
    Draw(DrawCall),
}

#[derive(Clone, Copy, Debug, PartialEq, Eq, Structural)]
pub enum CompositeError {
    /// The view has no normal pre-pass texture: the camera lacks the normal
    /// pre-pass, a configuration error.
    MissingNormalPrepass,
}

pub open spec fn composite_layout_spec() -> Seq<BindingKind> {
    seq![
        BindingKind::ColorTexture,
        BindingKind::ColorTexture,
        BindingKind::Sampler,
        BindingKind::SettingsUniform,
        BindingKind::DepthTexture,
        BindingKind::NormalTexture,
    ]
}

/// The slots of the composite bind group, in binding order: the colour
/// source twice, the sampler, the settings uniform, depth, normals.
pub fn composite_layout() -> (r: Vec<BindingKind>)
    ensures
        r@ == composite_layout_spec(),
{
    let r = vec![
        BindingKind::ColorTexture,
        BindingKind::ColorTexture,
        BindingKind::Sampler,
        BindingKind::SettingsUniform,
        BindingKind::DepthTexture,
        BindingKind::NormalTexture,
    ];
    assert(r@ =~= composite_layout_spec());
    r
}

/// Decides what the composite stage does for one view. It skips while the
/// pipeline is not ready or no uniform buffer backs the settings; it fails
/// when the normal pre-pass is missing; otherwise it draws one full-screen
/// triangle.
pub fn plan_composite(pipeline: PipelineStatus, uniform_bound: bool, normal_view_present: bool) -> (r:
    Result<CompositeAction, CompositeError>)
    ensures
        pipeline != PipelineStatus::Ready ==> r == Ok::<CompositeAction, CompositeError>(
            CompositeAction::Skip,
        ),
        pipeline == PipelineStatus::Ready && !uniform_bound ==> r == Ok::<
            CompositeAction,
            CompositeError,
        >(CompositeAction::Skip),
        pipeline == PipelineStatus::Ready && uniform_bound && !normal_view_present ==> r == Err::<
            CompositeAction,
            CompositeError,
        >(CompositeError::MissingNormalPrepass),
        pipeline == PipelineStatus::Ready && uniform_bound && normal_view_present ==> r == Ok::<
            CompositeAction,
            CompositeError,
        >(CompositeAction::Draw(DrawCall { vertex_count: FULLSCREEN_VERTICES, instance_count: 1 })),
{
    match pipeline {
        PipelineStatus::Ready => {},
        _ => {
            return Ok(CompositeAction::Skip);
        },
    }
    if !uniform_bound {
        return Ok(CompositeAction::Skip);
    }
    if !normal_view_present {
        return Err(CompositeError::MissingNormalPrepass);
    }
    Ok(CompositeAction::Draw(DrawCall { vertex_count: FULLSCREEN_VERTICES, instance_count: 1 }))
}

} // verus!
