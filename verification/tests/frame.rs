use webxr_session::frame::{plan_frame, EyeView, ViewerPose, Viewport};

fn view(x: i32, width: u32, height: u32) -> EyeView {
    EyeView {
        viewport: Viewport {
            x,
            y: 0,
            width,
            height,
        },
    }
}

#[test]
fn missing_pose_is_a_noop_tick() {
    assert!(plan_frame(&None).is_none());
}

#[test]
fn single_view_plan_draws_once() {
    let pose = ViewerPose {
        views: vec![view(0, 800, 600)],
    };
    let plan = plan_frame(&Some(pose)).expect("pose present");
    assert_eq!(plan.view_commands.len(), 1);
    assert_eq!(plan.view_commands[0].view_index, 0);
    assert_eq!(plan.view_commands[0].viewport.width, 800);
    assert_eq!(plan.view_commands[0].index_count, 36);
    assert_eq!(plan.canvas_width, 800);
    assert_eq!(plan.canvas_height, 600);
}

#[test]
fn two_view_plan_keeps_pose_order_and_scales_canvas() {
    let pose = ViewerPose {
        views: vec![view(0, 640, 720), view(640, 640, 720)],
    };
    let plan = plan_frame(&Some(pose)).expect("pose present");
    assert_eq!(plan.view_commands.len(), 2);
    assert_eq!(plan.view_commands[0].view_index, 0);
    assert_eq!(plan.view_commands[1].view_index, 1);
    assert_eq!(plan.view_commands[0].viewport.x, 0);
    assert_eq!(plan.view_commands[1].viewport.x, 640);
    // Render target: first view's dimensions, width scaled by view count.
    assert_eq!(plan.canvas_width, 1280);
    assert_eq!(plan.canvas_height, 720);
}
