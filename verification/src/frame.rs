//! Frame renderer: per scheduler tick, given the viewer pose the platform
//! reported, compute the whole plan of the frame — size the render target,
//! then for each view in the order supplied set its viewport, upload the
//! uniforms derived from that view, and draw the fixed mesh once. When
//! tracking reported no pose the plan is empty and the tick is a no-op.
//! The host carries the plan out: it binds the session's framebuffer, clears
//! color and depth once, and performs the view commands in order, deriving
//! the single-precision uniform matrices from the view each command names.

use vstd::prelude::*;
use crate::mesh::INDEX_COUNT;

verus! {

/// A viewport rectangle inside the target framebuffer, as reported by the
/// platform's layer for one view.
#[derive(Clone, Copy, Debug, PartialEq, Eq, Structural)]
pub struct Viewport {
    pub x: i32,
    pub y: i32,
    pub width: u32,
    pub height: u32,
}

/// One eye's view for this tick. Its rigid transform and projection matrix
/// are single-precision host values that never enter the plan itself: a
/// command names the view it derives its uniforms from by index.
#[derive(Clone, Copy, Debug, PartialEq, Eq, Structural)]
pub struct EyeView {
    pub viewport: Viewport,
}

/// The per-tick pose: one view per eye, in the order the platform supplied.
/// Ephemeral — used for one plan, never retained across ticks.
pub struct ViewerPose {
    pub views: Vec<EyeView>,
}

/// A pose the renderer can plan from: at least one view, and the render
/// target width (first view's width scaled by the view count) representable.
pub open spec fn wf_pose(views: Seq<EyeView>) -> bool {
    &&& views.len() >= 1
    &&& views[0].viewport.width * views.len() <= u32::MAX
    &&& views.len() <= u32::MAX
}

/// One view's slice of the frame: set this viewport, upload the uniform
/// matrices derived from this view (fixed model matrix; view matrix from
/// the view's rigid transform; the view's own projection matrix), then issue
/// one indexed triangle-list draw of the whole mesh.
#[derive(Clone, Copy, Debug, PartialEq, Eq, Structural)]
pub struct ViewCommand {
    /// Index of the pose view the uniforms derive from.
    pub view_index: usize,
    pub viewport: Viewport,
    /// Number of indices of the draw call: always the whole fixed mesh.
    pub index_count: u32,
}

/// The plan of one rendered frame: after binding the session's framebuffer
/// and clearing color and depth once, run the view commands in order.
pub struct FramePlan {
    /// Render-target width: the first view's width scaled by the view count.
    pub canvas_width: u32,
    /// Render-target height: the first view's height.
    pub canvas_height: u32,
    pub view_commands: Vec<ViewCommand>,
}

/// What a correct plan for a pose looks like: one command per view, in pose
/// order, each carrying that view's viewport, naming that view for its
/// uniforms, and drawing the whole mesh; the target sized from the first
/// view scaled by the view count.
pub open spec fn spec_frame_plan_ok(views: Seq<EyeView>, plan: FramePlan) -> bool {
    &&& plan.view_commands@.len() == views.len()
    &&& forall|i: int|
        0 <= i < views.len() ==> #[trigger] plan.view_commands@[i] == (ViewCommand {
            view_index: i as usize,
            viewport: views[i].viewport,
            index_count: INDEX_COUNT,
        })
    &&& plan.canvas_width == views[0].viewport.width * views.len()
    &&& plan.canvas_height == views[0].viewport.height
}

/// Compute the plan for one tick. A missing pose (tracking lost) is a
/// recoverable per-tick condition: the result is `None`, nothing is drawn,
/// and no session state is touched — the loop continues unaffected.
pub fn plan_frame(pose: &Option<ViewerPose>) -> (r: Option<FramePlan>)
    requires
        pose matches Some(p) ==> wf_pose(p.views@),
    ensures
        r is Some <==> pose is Some,
        pose matches Some(p) ==> r is Some && spec_frame_plan_ok(p.views@, r->Some_0),
{
    match pose {
        None => None,
        Some(p) => {
            let count = p.views.len();
            let first = p.views[0].viewport;
            let canvas_width = first.width * (count as u32);
            let mut view_commands: Vec<ViewCommand> = Vec::new();
            let mut i: usize = 0;
            while i < p.views.len()
                invariant
                    0 <= i <= p.views@.len(),
                    view_commands@.len() == i,
                    forall|k: int|
                        0 <= k < i ==> #[trigger] view_commands@[k] == (ViewCommand {
                            view_index: k as usize,
                            viewport: p.views@[k].viewport,
                            index_count: INDEX_COUNT,
                        }),
                decreases p.views@.len() - i,
            {
                let viewport = p.views[i].viewport;
                view_commands.push(
                    ViewCommand { view_index: i, viewport, index_count: INDEX_COUNT },
                );
                i = i + 1;
            }
            Some(
                FramePlan {
                    canvas_width,
                    canvas_height: first.height,
                    view_commands,
                },
            )
        }
    }
}

/// Each view's uniforms come from a different view: the commands of a plan
/// name pairwise distinct views, so two eyes are never drawn from the same
/// transform unless the platform supplied identical views.
pub proof fn lemma_plan_views_distinct(views: Seq<EyeView>, plan: FramePlan)
    requires
        spec_frame_plan_ok(views, plan),
    ensures
        forall|i: int, j: int|
            0 <= i < j < plan.view_commands@.len() ==> (#[trigger] plan.view_commands@[i]).view_index
                != (#[trigger] plan.view_commands@[j]).view_index,
{
    assert(plan.view_commands.len() == plan.view_commands@.len());
    assert forall|i: int, j: int| 0 <= i < j < plan.view_commands@.len() implies (
    #[trigger] plan.view_commands@[i]).view_index != (#[trigger] plan.view_commands@[j]).view_index by {
        assert(plan.view_commands@[i].view_index == i as usize);
        assert(plan.view_commands@[j].view_index == j as usize);
    }
}

} // verus!
