use wig_engine::frame::{
    classify, preferred_format_index, FrameOrchestrator, FramePhase, RenderError, SurfaceSize,
    SurfaceStatus,
};
use wig_engine::pass::{
    record_scene_pass, BindGroup, DrawModel, Mesh, PassCommand, PassRecorder, Pipeline, Scene,
    VertexSource,
};

fn scene() -> Scene {
    Scene::for_grid(
        vec![Mesh { id: 0, num_elements: 36, material: 0 }],
        Mesh { id: 1, num_elements: 36, material: 0 },
        5,
    )
}

fn run_frame(o: &mut FrameOrchestrator, status: SurfaceStatus) -> (Option<SurfaceSize>, Result<Vec<PassCommand>, RenderError>) {
    let reconfigure = o.begin_frame();
    o.finish_update();
    (reconfigure, o.render(status, &scene()))
}

#[test]
fn zero_resize_is_ignored() {
    let mut o = FrameOrchestrator::new(800, 600);
    let before = (o.surface, o.depth, o.projection);
    assert_eq!(o.resize(0, 0), None);
    assert_eq!((o.surface, o.depth, o.projection), before);
    assert_eq!(o.resize(0, 300), None);
    assert_eq!(o.resize(300, 0), None);
    assert_eq!(o.surface, SurfaceSize { width: 800, height: 600 });
}

#[test]
fn depth_follows_latest_resize() {
    let mut o = FrameOrchestrator::new(320, 200);
    assert_eq!(o.resize(800, 600), Some(SurfaceSize { width: 800, height: 600 }));
    assert_eq!(o.resize(1024, 768), Some(SurfaceSize { width: 1024, height: 768 }));
    assert_eq!(o.surface, SurfaceSize { width: 1024, height: 768 });
    assert_eq!(o.depth, o.surface);
    assert_eq!(o.projection, o.surface);
}

#[test]
fn lost_surface_recovers_next_frame() {
    let mut o = FrameOrchestrator::new(800, 600);
    let (reconf, r) = run_frame(&mut o, SurfaceStatus::Lost);
    assert_eq!(reconf, None);
    assert_eq!(r.unwrap_err(), RenderError::Recoverable);
    assert!(o.reconfigure_pending);
    assert_eq!(o.phase, FramePhase::Idle);
    let (reconf, r) = run_frame(&mut o, SurfaceStatus::Acquired);
    assert_eq!(reconf, Some(SurfaceSize { width: 800, height: 600 }));
    assert!(r.is_ok());
    assert!(!o.reconfigure_pending);
    assert_eq!(o.depth, SurfaceSize { width: 800, height: 600 });
}

#[test]
fn outdated_surface_is_recoverable() {
    let mut o = FrameOrchestrator::new(640, 480);
    let (_, r) = run_frame(&mut o, SurfaceStatus::Outdated);
    assert_eq!(r.unwrap_err(), RenderError::Recoverable);
    assert_eq!(o.begin_frame(), Some(SurfaceSize { width: 640, height: 480 }));
}

#[test]
fn timeout_skips_frame_without_change() {
    let mut o = FrameOrchestrator::new(640, 480);
    let (_, r) = run_frame(&mut o, SurfaceStatus::Timeout);
    assert_eq!(r.unwrap_err(), RenderError::Transient);
    assert!(!o.reconfigure_pending);
    assert_eq!(o.begin_frame(), None);
}

#[test]
fn out_of_memory_is_fatal() {
    let mut o = FrameOrchestrator::new(640, 480);
    let (_, r) = run_frame(&mut o, SurfaceStatus::OutOfMemory);
    assert_eq!(r.unwrap_err(), RenderError::Fatal);
    assert_eq!(classify(SurfaceStatus::Acquired), None);
    assert_eq!(classify(SurfaceStatus::OutOfMemory), Some(RenderError::Fatal));
}

#[test]
fn resize_after_loss_cancels_pending_reconfigure() {
    let mut o = FrameOrchestrator::new(640, 480);
    let _ = run_frame(&mut o, SurfaceStatus::Lost);
    o.resize(1280, 720);
    assert!(!o.reconfigure_pending);
    assert_eq!(o.begin_frame(), None);
    assert_eq!(o.depth, SurfaceSize { width: 1280, height: 720 });
}

#[test]
fn acquired_frame_records_the_scene_pass() {
    let mut o = FrameOrchestrator::new(800, 600);
    let (_, r) = run_frame(&mut o, SurfaceStatus::Acquired);
    let cmds = r.unwrap();
    assert_eq!(cmds, record_scene_pass(&scene()));
    let expected = vec![
        PassCommand::SetPipeline(Pipeline::Light),
        PassCommand::SetBindGroup { slot: 0, group: BindGroup::Camera },
        PassCommand::SetBindGroup { slot: 1, group: BindGroup::Light },
        PassCommand::SetVertexBuffer { slot: 0, source: VertexSource::Mesh(0) },
        PassCommand::SetIndexBuffer { mesh: 0 },
        PassCommand::DrawIndexed { index_count: 36, first_instance: 0, end_instance: 1 },
        PassCommand::SetPipeline(Pipeline::Scene),
        PassCommand::SetBindGroup { slot: 0, group: BindGroup::Texture },
        PassCommand::SetBindGroup { slot: 1, group: BindGroup::Camera },
        PassCommand::SetBindGroup { slot: 2, group: BindGroup::Light },
        PassCommand::SetVertexBuffer { slot: 1, source: VertexSource::Instances },
        PassCommand::SetVertexBuffer { slot: 0, source: VertexSource::Mesh(1) },
        PassCommand::SetIndexBuffer { mesh: 1 },
        PassCommand::DrawIndexed { index_count: 36, first_instance: 0, end_instance: 25 },
        PassCommand::DrawOverlay,
    ];
    assert_eq!(cmds, expected);
}

#[test]
fn scene_without_light_meshes_still_draws_model_and_overlay() {
    let s = Scene {
        light_meshes: vec![],
        model_mesh: Mesh { id: 7, num_elements: 6, material: 2 },
        instance_count: 4,
    };
    let cmds = record_scene_pass(&s);
    assert_eq!(cmds.len(), 3 + 5 + 3 + 1);
    assert_eq!(
        cmds[10],
        PassCommand::DrawIndexed { index_count: 6, first_instance: 0, end_instance: 4 }
    );
    assert_eq!(cmds[11], PassCommand::DrawOverlay);
}

#[test]
fn draw_mesh_draws_one_instance() {
    let mut rec = PassRecorder::new();
    let m = Mesh { id: 3, num_elements: 9, material: 0 };
    rec.draw_mesh(&m);
    rec.draw_mesh_instanced(&m, 2..5);
    assert_eq!(rec.commands.len(), 6);
    assert_eq!(
        rec.commands[2],
        PassCommand::DrawIndexed { index_count: 9, first_instance: 0, end_instance: 1 }
    );
    assert_eq!(
        rec.commands[5],
        PassCommand::DrawIndexed { index_count: 9, first_instance: 2, end_instance: 5 }
    );
}

#[test]
fn prefers_first_srgb_format() {
    assert_eq!(preferred_format_index(&vec![false, true, true]), 1);
    assert_eq!(preferred_format_index(&vec![false, false]), 0);
    assert_eq!(preferred_format_index(&vec![true]), 0);
}
