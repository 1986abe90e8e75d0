use vstd::prelude::*;
use crate::color::Color;
use crate::color::packed_bytes;
use crate::color::pack_color;
use crate::ui::UiFrameOutput;

verus! {

/// Vertices of the procedurally generated triangle.
pub const TRIANGLE_VERTICES: u32 = 3;
/// Instances drawn of it.
pub const TRIANGLE_INSTANCES: u32 = 1;

/// One recorded step of a redraw, in the order the host performs it against
/// the queue, the encoder and the render pass.
#[derive(Clone, Copy, PartialEq, Eq, Structural, Debug)]
pub enum GpuOp {
    /// Enqueue a total overwrite of the color uniform record with this
    /// color's packed bytes.
    WriteColorUniform { color: Color },
    /// Apply one texture addition or update to the UI texture cache.
    UpdateTexture { id: u64 },
    /// Upload the tessellated UI vertex and index data.
    UploadUiBuffers,
    /// Open the render pass that clears the target to black.
    BeginPass,
    /// Draw the scene triangle: fixed vertex count, one instance.
    DrawTriangle { vertices: u32, instances: u32 },
    /// Draw the tessellated UI geometry on top of the scene.
    DrawUi,
    /// Close the render pass.
    EndPass,
    /// Submit the recorded command buffer to the queue.
    Submit,
    /// Present the acquired frame to the compositor.
    Present,
    /// Release one texture marked for removal.
    FreeTexture { id: u64 },
}

/// The uniform write of a frame: one enqueued overwrite when the widget
/// changed the color, nothing otherwise.
pub open spec fn spec_write_ops(ui: UiFrameOutput) -> Seq<GpuOp> {
    if ui.color_changed {
        seq![GpuOp::WriteColorUniform { color: ui.color }]
    } else {
        Seq::empty()
    }
}

/// One texture update per id, in the order the UI reported them.
pub open spec fn spec_set_ops(ids: Seq<u64>) -> Seq<GpuOp>
    decreases ids.len(),
{
    if ids.len() == 0 {
        Seq::empty()
    } else {
        spec_set_ops(ids.drop_last()).push(GpuOp::UpdateTexture { id: ids.last() })
    }
}

/// One texture release per id, in the order the UI reported them.
pub open spec fn spec_free_ops(ids: Seq<u64>) -> Seq<GpuOp>
    decreases ids.len(),
{
    if ids.len() == 0 {
        Seq::empty()
    } else {
        spec_free_ops(ids.drop_last()).push(GpuOp::FreeTexture { id: ids.last() })
    }
}

/// The fixed middle of every frame: upload the UI buffers, then one render
/// pass — scene triangle first, UI on top — then submit and present.
pub open spec fn spec_pass_ops() -> Seq<GpuOp> {
    seq![
        GpuOp::UploadUiBuffers,
        GpuOp::BeginPass,
        GpuOp::DrawTriangle { vertices: TRIANGLE_VERTICES, instances: TRIANGLE_INSTANCES },
        GpuOp::DrawUi,
        GpuOp::EndPass,
        GpuOp::Submit,
        GpuOp::Present,
    ]
}

/// The whole plan of one redraw: the uniform write (if any), the texture
/// updates, the fixed pass, and last — after submission — the releases.
pub open spec fn spec_frame_plan(ui: UiFrameOutput) -> Seq<GpuOp> {
    spec_write_ops(ui) + spec_set_ops(ui.textures_set@) + spec_pass_ops() + spec_free_ops(
        ui.textures_free@,
    )
}

/// Builds the ordered command plan of one redraw.
pub fn plan_frame(ui: &UiFrameOutput) -> (plan: Vec<GpuOp>)
    ensures
        plan@ == spec_frame_plan(*ui),
{
    let mut ops: Vec<GpuOp> = Vec::new();
    if ui.color_changed {
        ops.push(GpuOp::WriteColorUniform { color: ui.color });
    }
    proof {
        assert(ops@ =~= spec_write_ops(*ui));
    }
    let mut i: usize = 0;
    while i < ui.textures_set.len()
        invariant
            i <= ui.textures_set.len(),
            ops@ == spec_write_ops(*ui) + spec_set_ops(ui.textures_set@.take(i as int)),
        decreases ui.textures_set.len() - i,
    {
        ops.push(GpuOp::UpdateTexture { id: ui.textures_set[i] });
        proof {
            let s = ui.textures_set@;
            assert(s.take(i + 1).drop_last() =~= s.take(i as int));
            assert(s.take(i + 1).last() == s[i as int]);
            assert(ops@ =~= spec_write_ops(*ui) + spec_set_ops(s.take(i + 1)));
        }
        i += 1;
    }
    proof {
        assert(ui.textures_set@.take(ui.textures_set@.len() as int) =~= ui.textures_set@);
    }
    ops.push(GpuOp::UploadUiBuffers);
    ops.push(GpuOp::BeginPass);
    ops.push(GpuOp::DrawTriangle { vertices: TRIANGLE_VERTICES, instances: TRIANGLE_INSTANCES });
    ops.push(GpuOp::DrawUi);
    ops.push(GpuOp::EndPass);
    ops.push(GpuOp::Submit);
    ops.push(GpuOp::Present);
    proof {
        assert(ops@ =~= spec_write_ops(*ui) + spec_set_ops(ui.textures_set@) + spec_pass_ops());
    }
    let mut j: usize = 0;
    while j < ui.textures_free.len()
        invariant
            j <= ui.textures_free.len(),
            ops@ == spec_write_ops(*ui) + spec_set_ops(ui.textures_set@) + spec_pass_ops()
                + spec_free_ops(ui.textures_free@.take(j as int)),
        decreases ui.textures_free.len() - j,
    {
        ops.push(GpuOp::FreeTexture { id: ui.textures_free[j] });
        proof {
            let s = ui.textures_free@;
            assert(s.take(j + 1).drop_last() =~= s.take(j as int));
            assert(s.take(j + 1).last() == s[j as int]);
            assert(ops@ =~= spec_write_ops(*ui) + spec_set_ops(ui.textures_set@) + spec_pass_ops()
                + spec_free_ops(s.take(j + 1)));
        }
        j += 1;
    }
    proof {
        assert(ui.textures_free@.take(ui.textures_free@.len() as int) =~= ui.textures_free@);
        assert(ops@ =~= spec_frame_plan(*ui));
    }
    ops
}

/// Every texture-update sequence has one op per id, each an update.
pub proof fn lemma_set_ops_shape(ids: Seq<u64>)
    ensures
        spec_set_ops(ids).len() == ids.len(),
        forall|k: int|
            0 <= k < ids.len() ==> spec_set_ops(ids)[k] == (GpuOp::UpdateTexture { id: ids[k] }),
    decreases ids.len(),
{
    if ids.len() > 0 {
        lemma_set_ops_shape(ids.drop_last());
    }
}

/// Every texture-release sequence has one op per id, each a release.
pub proof fn lemma_free_ops_shape(ids: Seq<u64>)
    ensures
        spec_free_ops(ids).len() == ids.len(),
        forall|k: int|
            0 <= k < ids.len() ==> spec_free_ops(ids)[k] == (GpuOp::FreeTexture { id: ids[k] }),
    decreases ids.len(),
{
    if ids.len() > 0 {
        lemma_free_ops_shape(ids.drop_last());
    }
}

/// The position of the frame's submission within its plan.
pub open spec fn submit_index(ui: UiFrameOutput) -> int {
    spec_write_ops(ui).len() as int + ui.textures_set@.len() as int + 5
}

/// Within one frame the color-uniform write — enqueued only when the color
/// changed — comes strictly before the submission of the command buffer
/// whose triangle draw reads the uniform, and nothing is submitted between
/// the two.
pub proof fn lemma_write_before_submit(ui: UiFrameOutput)
    requires
        ui.color_changed,
    ensures
        spec_frame_plan(ui)[0] == (GpuOp::WriteColorUniform { color: ui.color }),
        0 < submit_index(ui) < spec_frame_plan(ui).len(),
        spec_frame_plan(ui)[submit_index(ui)] == GpuOp::Submit,
        forall|k: int| 0 <= k < submit_index(ui) ==> spec_frame_plan(ui)[k] != GpuOp::Submit,
{
    lemma_set_ops_shape(ui.textures_set@);
    lemma_free_ops_shape(ui.textures_free@);
    let plan = spec_frame_plan(ui);
    let n = ui.textures_set@.len() as int;
    assert(forall|k: int|
        1 <= k < 1 + n ==> plan[k] == (GpuOp::UpdateTexture { id: ui.textures_set@[k - 1] }));
    assert(plan[1 + n] == GpuOp::UploadUiBuffers);
    assert(plan[2 + n] == GpuOp::BeginPass);
    assert(plan[3 + n] == (GpuOp::DrawTriangle {
        vertices: TRIANGLE_VERTICES,
        instances: TRIANGLE_INSTANCES,
    }));
    assert(plan[4 + n] == GpuOp::DrawUi);
    assert(plan[5 + n] == GpuOp::EndPass);
    assert(plan[6 + n] == GpuOp::Submit);
}

/// Texture releases are the ordering hazard of a frame: each one stands
/// strictly after the submission, so the render pass the device still runs
/// can never read a texture already freed.
pub proof fn lemma_free_after_submit(ui: UiFrameOutput)
    ensures
        forall|k: int|
            0 <= k < spec_frame_plan(ui).len() && spec_frame_plan(ui)[k] is FreeTexture ==> k
                > submit_index(ui),
{
    lemma_set_ops_shape(ui.textures_set@);
    lemma_free_ops_shape(ui.textures_free@);
    let plan = spec_frame_plan(ui);
    let w = spec_write_ops(ui).len() as int;
    let n = ui.textures_set@.len() as int;
    assert forall|k: int| 0 <= k < plan.len() && plan[k] is FreeTexture implies k > submit_index(
        ui,
    ) by {
        if k < w {
            assert(plan[k] == (GpuOp::WriteColorUniform { color: ui.color }));
        } else if k < w + n {
            assert(plan[k] == (GpuOp::UpdateTexture { id: ui.textures_set@[k - w] }));
        } else if k < w + n + 7 {
            assert(plan[k] == spec_pass_ops()[k - w - n]);
        }
    }
}

/// Every frame plan submits exactly once, at its submit index: before it
/// stand the writes, updates and the recorded pass; after it only the
/// present and the releases.
pub proof fn lemma_single_submit(ui: UiFrameOutput)
    ensures
        0 <= submit_index(ui) < spec_frame_plan(ui).len(),
        forall|k: int|
            0 <= k < spec_frame_plan(ui).len() ==> (spec_frame_plan(ui)[k] == GpuOp::Submit <==> k
                == submit_index(ui)),
{
    lemma_set_ops_shape(ui.textures_set@);
    lemma_free_ops_shape(ui.textures_free@);
    let plan = spec_frame_plan(ui);
    let w = spec_write_ops(ui).len() as int;
    let n = ui.textures_set@.len() as int;
    assert forall|k: int| 0 <= k < plan.len() implies (plan[k] == GpuOp::Submit <==> k
        == submit_index(ui)) by {
        if k < w {
            assert(plan[k] == (GpuOp::WriteColorUniform { color: ui.color }));
        } else if k < w + n {
            assert(plan[k] == (GpuOp::UpdateTexture { id: ui.textures_set@[k - w] }));
        } else if k < w + n + 7 {
            assert(plan[k] == spec_pass_ops()[k - w - n]);
        } else {
            assert(plan[k] == (GpuOp::FreeTexture { id: ui.textures_free@[k - w - n - 7] }));
        }
    }
}

/// Whether an op neither overwrites the uniform record nor submits.
pub open spec fn is_neutral_op(op: GpuOp) -> bool {
    !(op is Submit) && !(op is WriteColorUniform)
}

/// The uniform record the submitted commands observe: the walk keeps the
/// record across neutral ops, applies each enqueued write, and stops at the
/// submission — queued writes land before the submitted commands execute,
/// by the queue's first-in-first-out order. `init` is what earlier frames
/// left in the buffer.
pub open spec fn uniform_at_submit(init: Seq<u8>, ops: Seq<GpuOp>) -> Seq<u8>
    decreases ops.len(),
{
    if ops.len() == 0 {
        init
    } else {
        match ops[0] {
            GpuOp::Submit => init,
            GpuOp::WriteColorUniform { color } => uniform_at_submit(
                packed_bytes(color),
                ops.drop_first(),
            ),
            _ => uniform_at_submit(init, ops.drop_first()),
        }
    }
}

/// A prefix of neutral ops leaves the observed record alone.
proof fn lemma_neutral_prefix(init: Seq<u8>, pre: Seq<GpuOp>, rest: Seq<GpuOp>)
    requires
        forall|k: int| 0 <= k < pre.len() ==> is_neutral_op(pre[k]),
    ensures
        uniform_at_submit(init, pre + rest) == uniform_at_submit(init, rest),
    decreases pre.len(),
{
    if pre.len() == 0 {
        assert(pre + rest =~= rest);
    } else {
        assert((pre + rest)[0] == pre[0]);
        assert(is_neutral_op(pre[0]));
        assert((pre + rest).drop_first() =~= pre.drop_first() + rest);
        assert(forall|k: int|
            0 <= k < pre.drop_first().len() ==> is_neutral_op(pre.drop_first()[k]));
        lemma_neutral_prefix(init, pre.drop_first(), rest);
    }
}

/// The draw submitted in a frame observes the committed color: the packed
/// record of the frame's color when the widget changed it, and the record
/// already in the buffer otherwise — never a stale or partial value.
pub proof fn lemma_draw_observes_committed_color(init: Seq<u8>, ui: UiFrameOutput)
    ensures
        ui.color_changed ==> uniform_at_submit(init, spec_frame_plan(ui)) == packed_bytes(
            ui.color,
        ),
        !ui.color_changed ==> uniform_at_submit(init, spec_frame_plan(ui)) == init,
{
    lemma_set_ops_shape(ui.textures_set@);
    let before_submit = seq![
        GpuOp::UploadUiBuffers,
        GpuOp::BeginPass,
        GpuOp::DrawTriangle { vertices: TRIANGLE_VERTICES, instances: TRIANGLE_INSTANCES },
        GpuOp::DrawUi,
        GpuOp::EndPass,
    ];
    let neutral = spec_set_ops(ui.textures_set@) + before_submit;
    let tail = seq![GpuOp::Submit, GpuOp::Present] + spec_free_ops(ui.textures_free@);
    assert(forall|k: int| 0 <= k < neutral.len() ==> is_neutral_op(neutral[k]));
    assert(tail[0] == GpuOp::Submit);
    if ui.color_changed {
        let plan = spec_frame_plan(ui);
        assert(plan =~= seq![GpuOp::WriteColorUniform { color: ui.color }] + (neutral + tail));
        assert(plan[0] == (GpuOp::WriteColorUniform { color: ui.color }));
        assert(plan.drop_first() =~= neutral + tail);
        lemma_neutral_prefix(packed_bytes(ui.color), neutral, tail);
    } else {
        assert(spec_frame_plan(ui) =~= neutral + tail);
        lemma_neutral_prefix(init, neutral, tail);
    }
}

/// Runs a frame plan against the uniform record, stopping at the
/// submission, and returns what the submitted commands observe.
pub fn run_plan_uniform(init: &Vec<u8>, plan: &Vec<GpuOp>) -> (observed: Vec<u8>)
    ensures
        observed@ == uniform_at_submit(init@, plan@),
{
    let mut current: Vec<u8> = copy_bytes(init);
    let mut i: usize = 0;
    proof {
        assert(plan@.skip(0) =~= plan@);
    }
    while i < plan.len()
        invariant
            i <= plan.len(),
            uniform_at_submit(init@, plan@) == uniform_at_submit(current@, plan@.skip(i as int)),
        decreases plan.len() - i,
    {
        proof {
            assert(plan@.skip(i as int)[0] == plan@[i as int]);
            assert(plan@.skip(i as int).drop_first() =~= plan@.skip(i as int + 1));
        }
        match plan[i] {
            GpuOp::Submit => {
                return current;
            },
            GpuOp::WriteColorUniform { color } => {
                current = pack_color(&color);
            },
            _ => {},
        }
        i += 1;
    }
    proof {
        assert(plan@.skip(plan@.len() as int) =~= Seq::<GpuOp>::empty());
    }
    current
}

/// Copies a byte vector.
fn copy_bytes(src: &Vec<u8>) -> (out: Vec<u8>)
    ensures
        out@ == src@,
{
    let mut out: Vec<u8> = Vec::new();
    let mut i: usize = 0;
    while i < src.len()
        invariant
            i <= src.len(),
            out@ == src@.take(i as int),
        decreases src.len() - i,
    {
        out.push(src[i]);
        proof {
            assert(src@.take(i + 1 as int) =~= src@.take(i as int).push(src@[i as int]));
        }
        i += 1;
    }
    proof {
        assert(src@.take(src@.len() as int) =~= src@);
    }
    out
}

} // verus!
