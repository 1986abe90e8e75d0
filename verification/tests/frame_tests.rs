use renderer::color::{initial_color, pack_color, Color};
use renderer::frame::{plan_frame, run_plan_uniform, GpuOp, TRIANGLE_INSTANCES, TRIANGLE_VERTICES};
use renderer::ui::UiFrameOutput;

fn quiet_frame(color: Color) -> UiFrameOutput {
    UiFrameOutput { color, color_changed: false, textures_set: Vec::new(), textures_free: Vec::new() }
}

#[test]
fn plan_without_change_has_no_uniform_write() {
    let plan = plan_frame(&quiet_frame(initial_color()));
    assert_eq!(
        plan,
        vec![
            GpuOp::UploadUiBuffers,
            GpuOp::BeginPass,
            GpuOp::DrawTriangle { vertices: 3, instances: 1 },
            GpuOp::DrawUi,
            GpuOp::EndPass,
            GpuOp::Submit,
            GpuOp::Present,
        ]
    );
}

#[test]
fn plan_draws_three_vertices_one_instance() {
    assert_eq!(TRIANGLE_VERTICES, 3);
    assert_eq!(TRIANGLE_INSTANCES, 1);
    let plan = plan_frame(&quiet_frame(initial_color()));
    assert!(plan.iter().any(|op| matches!(op, GpuOp::DrawTriangle { vertices: 3, instances: 1 })));
}

#[test]
fn uniform_write_is_enqueued_before_submit() {
    let ui = UiFrameOutput {
        color: initial_color(),
        color_changed: true,
        textures_set: vec![11, 12],
        textures_free: vec![9],
    };
    let plan = plan_frame(&ui);
    let write_at = plan
        .iter()
        .position(|op| matches!(op, GpuOp::WriteColorUniform { .. }))
        .expect("changed color must enqueue a write");
    let submit_at = plan.iter().position(|op| matches!(op, GpuOp::Submit)).expect("plan must submit");
    assert!(write_at < submit_at);
    assert_eq!(write_at, 0);
}

#[test]
fn texture_frees_come_only_after_submit() {
    let ui = UiFrameOutput {
        color: initial_color(),
        color_changed: true,
        textures_set: vec![1, 2, 3],
        textures_free: vec![4, 5],
    };
    let plan = plan_frame(&ui);
    let submit_at = plan.iter().position(|op| matches!(op, GpuOp::Submit)).unwrap();
    for (at, op) in plan.iter().enumerate() {
        if matches!(op, GpuOp::FreeTexture { .. }) {
            assert!(at > submit_at);
        }
    }
    assert_eq!(plan[plan.len() - 2], GpuOp::FreeTexture { id: 4 });
    assert_eq!(plan[plan.len() - 1], GpuOp::FreeTexture { id: 5 });
}

#[test]
fn texture_updates_keep_reported_order_before_pass() {
    let ui = UiFrameOutput {
        color: initial_color(),
        color_changed: false,
        textures_set: vec![31, 7, 31],
        textures_free: Vec::new(),
    };
    let plan = plan_frame(&ui);
    assert_eq!(plan[0], GpuOp::UpdateTexture { id: 31 });
    assert_eq!(plan[1], GpuOp::UpdateTexture { id: 7 });
    assert_eq!(plan[2], GpuOp::UpdateTexture { id: 31 });
    assert_eq!(plan[3], GpuOp::UploadUiBuffers);
}

#[test]
fn first_frame_draw_observes_opaque_red() {
    // Startup writes the initial color; the first redraw changes nothing.
    let startup = pack_color(&initial_color());
    let plan = plan_frame(&quiet_frame(initial_color()));
    let observed = run_plan_uniform(&startup, &plan);
    assert_eq!(observed, pack_color(&initial_color()));
    let mut red = 1.0f32.to_le_bytes().to_vec();
    red.extend_from_slice(&0.0f32.to_le_bytes());
    red.extend_from_slice(&0.0f32.to_le_bytes());
    red.extend_from_slice(&1.0f32.to_le_bytes());
    assert_eq!(observed, red);
}

#[test]
fn alpha_drag_to_half_reaches_next_draw() {
    let startup = pack_color(&initial_color());
    let dragged = Color { a: 0.5f32.to_bits(), ..initial_color() };
    let ui = UiFrameOutput {
        color: dragged,
        color_changed: true,
        textures_set: vec![0, 1],
        textures_free: vec![0],
    };
    let plan = plan_frame(&ui);
    let observed = run_plan_uniform(&startup, &plan);
    let mut expected = 1.0f32.to_le_bytes().to_vec();
    expected.extend_from_slice(&0.0f32.to_le_bytes());
    expected.extend_from_slice(&0.0f32.to_le_bytes());
    expected.extend_from_slice(&0.5f32.to_le_bytes());
    assert_eq!(observed, expected);
}

#[test]
fn unchanged_color_leaves_prior_uniform_bytes() {
    let prior = pack_color(&Color { r: 5, g: 6, b: 7, a: 8 });
    let plan = plan_frame(&quiet_frame(initial_color()));
    assert_eq!(run_plan_uniform(&prior, &plan), prior);
}
