//! The render pass of one frame, recorded as a list of commands that the
//! graphics backend replays in order.
//!
//! The pass begins by clearing colour and depth. It then draws the light
//! marker with the light pipeline, the instanced model with the scene
//! pipeline in one instanced draw, and the text overlay last.
use vstd::prelude::*;
use std::ops::Range;
use crate::grid::{MAX_GRID_SIDE, instance_count, spec_instance_count};

verus! {

/// A render pipeline that the pass can bind.
#[derive(Clone, Copy, Debug, PartialEq, Eq, Structural)]
pub enum Pipeline {
    Light,
    Scene,
}

/// A group of shader resources that the pass can bind.
#[derive(Clone, Copy, Debug, PartialEq, Eq, Structural)]
pub enum BindGroup {
    Texture,
    Camera,
    Light,
}

/// Where a vertex buffer slot reads from.
#[derive(Clone, Copy, Debug, PartialEq, Eq, Structural)]
pub enum VertexSource {
    /// The vertices of the mesh with this id.
    Mesh(usize),
    /// The per-instance model and normal matrices.
    Instances,
}

/// One command of a render pass.
#[derive(Clone, Copy, Debug, PartialEq, Eq, Structural)]
pub enum PassCommand {
    SetPipeline(Pipeline),
    SetBindGroup { slot: u32, group: BindGroup },
    SetVertexBuffer { slot: u32, source: VertexSource },
    /// Bind the index buffer of the mesh with this id.
    SetIndexBuffer { mesh: usize },
    /// Draw `index_count` indices for each instance in `first_instance..end_instance`.
    DrawIndexed { index_count: u32, first_instance: u32, end_instance: u32 },
    /// Draw the prepared text overlay.
    DrawOverlay,
}

/// A mesh as the pass sees it: an id that names its buffers, its index
/// count, and its material.
#[derive(Clone, Copy, Debug, PartialEq, Eq, Structural)]
pub struct Mesh {
    pub id: usize,
    pub num_elements: u32,
    pub material: usize,
}

/// Commands that draw `mesh` for the instances `start..end`.
pub open spec fn mesh_draw(mesh: Mesh, start: u32, end: u32) -> Seq<PassCommand> {
    seq![
        PassCommand::SetVertexBuffer { slot: 0, source: VertexSource::Mesh(mesh.id) },
        PassCommand::SetIndexBuffer { mesh: mesh.id },
        PassCommand::DrawIndexed { index_count: mesh.num_elements, first_instance: start, end_instance: end },
    ]
}

/// Commands that draw each mesh once, in order.
pub open spec fn meshes_draw(meshes: Seq<Mesh>) -> Seq<PassCommand>
    decreases meshes.len(),
{
    if meshes.len() == 0 {
        Seq::empty()
    } else {
        meshes_draw(meshes.drop_last()) + mesh_draw(meshes.last(), 0, 1)
    }
}

/// Something that draws meshes into a pass.
pub trait DrawModel {
    /// What has been drawn so far.
    spec fn recorded(&self) -> Seq<PassCommand>;

    /// Draws one instance of `mesh`.
    fn draw_mesh(&mut self, mesh: &Mesh)
        ensures
            final(self).recorded() == old(self).recorded() + mesh_draw(*mesh, 0, 1),
    ;

    /// Draws `mesh` once for each instance in `instances`.
    fn draw_mesh_instanced(&mut self, mesh: &Mesh, instances: Range<u32>)
        ensures
            final(self).recorded() == old(self).recorded() + mesh_draw(
                *mesh,
                instances.start,
                instances.end,
            ),
    ;
}

/// Records the commands of a pass in order.
pub struct PassRecorder {
    pub commands: Vec<PassCommand>,
}

impl PassRecorder {
    pub fn new() -> (r: Self)
        ensures
            r.commands@ == Seq::<PassCommand>::empty(),
    {
        PassRecorder { commands: Vec::new() }
    }

    pub fn push(&mut self, c: PassCommand)
        ensures
            final(self).commands@ == old(self).commands@.push(c),
    {
        self.commands.push(c);
    }
}

impl DrawModel for PassRecorder {
    open spec fn recorded(&self) -> Seq<PassCommand> {
        self.commands@
    }

    fn draw_mesh(&mut self, mesh: &Mesh) {
        self.draw_mesh_instanced(mesh, 0..1);
    }

    fn draw_mesh_instanced(&mut self, mesh: &Mesh, instances: Range<u32>) {
        self.commands.push(PassCommand::SetVertexBuffer { slot: 0, source: VertexSource::Mesh(mesh.id) });
        self.commands.push(PassCommand::SetIndexBuffer { mesh: mesh.id });
        self.commands.push(
            PassCommand::DrawIndexed {
                index_count: mesh.num_elements,
                first_instance: instances.start,
                end_instance: instances.end,
            },
        );
        assert(self.commands@ =~= old(self).commands@ + mesh_draw(
            *mesh,
            instances.start,
            instances.end,
        ));
    }
}

/// What one frame draws: the meshes of the light marker, the mesh of the
/// instanced model, and how many instances of it.
pub struct Scene {
    pub light_meshes: Vec<Mesh>,
    pub model_mesh: Mesh,
    pub instance_count: u32,
}

impl Scene {
    /// The scene that draws one instance of `model_mesh` per cell of an
    /// `n`-by-`n` grid.
    pub fn for_grid(light_meshes: Vec<Mesh>, model_mesh: Mesh, n: u32) -> (r: Self)
        requires
            n <= MAX_GRID_SIDE,
        ensures
            r.light_meshes@ == light_meshes@,
            r.model_mesh == model_mesh,
            r.instance_count == spec_instance_count(n as nat),
    {
        Scene { light_meshes, model_mesh, instance_count: instance_count(n) }
    }
}

/// Binding of the light pipeline and its camera and light uniforms.
pub open spec fn light_setup() -> Seq<PassCommand> {
    seq![
        PassCommand::SetPipeline(Pipeline::Light),
        PassCommand::SetBindGroup { slot: 0, group: BindGroup::Camera },
        PassCommand::SetBindGroup { slot: 1, group: BindGroup::Light },
    ]
}

/// Binding of the scene pipeline, its texture, camera and light uniforms,
/// and the instance buffer.
pub open spec fn scene_setup() -> Seq<PassCommand> {
    seq![
        PassCommand::SetPipeline(Pipeline::Scene),
        PassCommand::SetBindGroup { slot: 0, group: BindGroup::Texture },
        PassCommand::SetBindGroup { slot: 1, group: BindGroup::Camera },
        PassCommand::SetBindGroup { slot: 2, group: BindGroup::Light },
        PassCommand::SetVertexBuffer { slot: 1, source: VertexSource::Instances },
    ]
}

/// The whole pass for a scene.
pub open spec fn scene_pass(light_meshes: Seq<Mesh>, model_mesh: Mesh, instance_count: u32) -> Seq<
    PassCommand,
> {
    light_setup() + meshes_draw(light_meshes) + scene_setup() + mesh_draw(
        model_mesh,
        0,
        instance_count,
    ) + seq![PassCommand::DrawOverlay]
}

/// Records the pass that draws `scene`.
pub fn record_scene_pass(scene: &Scene) -> (r: Vec<PassCommand>)
    ensures
        r@ == scene_pass(scene.light_meshes@, scene.model_mesh, scene.instance_count),
{
    let mut rec = PassRecorder::new();
    rec.push(PassCommand::SetPipeline(Pipeline::Light));
    rec.push(PassCommand::SetBindGroup { slot: 0, group: BindGroup::Camera });
    rec.push(PassCommand::SetBindGroup { slot: 1, group: BindGroup::Light });
    assert(rec.commands@ =~= light_setup());
    let mut i: usize = 0;
    while i < scene.light_meshes.len()
        invariant
            i <= scene.light_meshes@.len(),
            rec.commands@ == light_setup() + meshes_draw(scene.light_meshes@.subrange(0, i as int)),
        decreases scene.light_meshes@.len() - i,
    {
        rec.draw_mesh(&scene.light_meshes[i]);
        proof {
            let s = scene.light_meshes@.subrange(0, i + 1);
            assert(s.drop_last() =~= scene.light_meshes@.subrange(0, i as int));
            assert(s.last() == scene.light_meshes@[i as int]);
            assert(rec.commands@ =~= light_setup() + meshes_draw(s));
        }
        i = i + 1;
    }
    assert(scene.light_meshes@.subrange(0, i as int) =~= scene.light_meshes@);
    let prefix = Ghost(rec.commands@);
    rec.push(PassCommand::SetPipeline(Pipeline::Scene));
    rec.push(PassCommand::SetBindGroup { slot: 0, group: BindGroup::Texture });
    rec.push(PassCommand::SetBindGroup { slot: 1, group: BindGroup::Camera });
    rec.push(PassCommand::SetBindGroup { slot: 2, group: BindGroup::Light });
    rec.push(PassCommand::SetVertexBuffer { slot: 1, source: VertexSource::Instances });
    assert(rec.commands@ =~= prefix@ + scene_setup());
    rec.draw_mesh_instanced(&scene.model_mesh, 0..scene.instance_count);
    rec.push(PassCommand::DrawOverlay);
    assert(rec.commands@ =~= scene_pass(
        scene.light_meshes@,
        scene.model_mesh,
        scene.instance_count,
    ));
    rec.commands
}

} // verus!
