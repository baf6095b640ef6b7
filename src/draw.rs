//! Draw recording: the ordered binds and indexed draws of the light pass and
//! the instanced model pass, as a list of commands that a GPU pass replays.
use vstd::prelude::*;
use crate::model::{Model, Mesh};

verus! {

/// The two pipelines a frame uses.
#[derive(Clone, Copy, Debug, PartialEq, Eq, Structural)]
pub enum Pipeline {
    /// Draws the light-visualization mesh.
    Light,
    /// Draws the lit, normal-mapped model.
    Main,
}

/// One step of a render pass.
#[derive(Clone, Copy, Debug, PartialEq, Eq, Structural)]
pub enum DrawCommand {
    SetPipeline(Pipeline),
    /// Binds the shared per-instance vertex buffer at `slot`.
    SetInstanceBuffer { slot: u32 },
    /// Binds the vertex buffer of mesh `mesh` at slot 0 and its 32-bit index
    /// buffer.
    SetMeshBuffers { mesh: usize },
    /// Binds the texture set of material `material` at group `slot`.
    SetMaterial { slot: u32, material: usize },
    /// Binds the camera uniform at group `slot`.
    SetCamera { slot: u32 },
    /// Binds the light uniform at group `slot`.
    SetLight { slot: u32 },
    /// Draws indices `0..elements` for instances `first_instance..end_instance`.
    DrawIndexed { elements: u32, first_instance: u32, end_instance: u32 },
}

/// A recorded render pass.
#[derive(Debug)]
pub struct RenderPass {
    pub commands: Vec<DrawCommand>,
}

/// The draw of one mesh with the light pipeline's bindings.
pub open spec fn light_mesh_commands(mesh: Mesh, index: usize, start: u32, end: u32) -> Seq<
    DrawCommand,
> {
    seq![
        DrawCommand::SetMeshBuffers { mesh: index },
        DrawCommand::SetCamera { slot: 0 },
        DrawCommand::SetLight { slot: 1 },
        DrawCommand::DrawIndexed {
            elements: mesh.num_elements,
            first_instance: start,
            end_instance: end,
        },
    ]
}

/// The draw of one mesh with the main pipeline's bindings and `material`.
pub open spec fn mesh_commands(
    mesh: Mesh,
    index: usize,
    material: usize,
    start: u32,
    end: u32,
) -> Seq<DrawCommand> {
    seq![
        DrawCommand::SetMeshBuffers { mesh: index },
        DrawCommand::SetMaterial { slot: 0, material },
        DrawCommand::SetCamera { slot: 1 },
        DrawCommand::SetLight { slot: 2 },
        DrawCommand::DrawIndexed {
            elements: mesh.num_elements,
            first_instance: start,
            end_instance: end,
        },
    ]
}

/// The light draws of the first `k` meshes, in order.
pub open spec fn light_model_commands(meshes: Seq<Mesh>, k: int, start: u32, end: u32) -> Seq<
    DrawCommand,
>
    decreases k,
{
    if k <= 0 {
        seq![]
    } else {
        light_model_commands(meshes, k - 1, start, end) + light_mesh_commands(
            meshes[k - 1],
            (k - 1) as usize,
            start,
            end,
        )
    }
}

/// The main draws of the first `k` meshes, each with its own material.
pub open spec fn model_commands(meshes: Seq<Mesh>, k: int, start: u32, end: u32) -> Seq<
    DrawCommand,
>
    decreases k,
{
    if k <= 0 {
        seq![]
    } else {
        model_commands(meshes, k - 1, start, end) + mesh_commands(
            meshes[k - 1],
            (k - 1) as usize,
            meshes[k - 1].material,
            start,
            end,
        )
    }
}

/// The whole frame: the instance buffer, the light mesh drawn once, then the
/// model drawn once per instance.
pub open spec fn frame_commands(meshes: Seq<Mesh>, instances: u32) -> Seq<DrawCommand> {
    seq![DrawCommand::SetInstanceBuffer { slot: 1 }, DrawCommand::SetPipeline(Pipeline::Light)]
        + light_model_commands(meshes, meshes.len() as int, 0, 1) + seq![
        DrawCommand::SetPipeline(Pipeline::Main),
    ] + model_commands(meshes, meshes.len() as int, 0, instances)
}

impl RenderPass {
    /// An empty pass.
    pub fn new() -> (r: RenderPass)
        ensures
            r.commands@ == Seq::<DrawCommand>::empty(),
    {
        RenderPass { commands: Vec::new() }
    }

    /// Selects the pipeline for the draws that follow.
    pub fn set_pipeline(&mut self, pipeline: Pipeline)
        ensures
            final(self).commands@ == old(self).commands@.push(DrawCommand::SetPipeline(pipeline)),
    {
        self.commands.push(DrawCommand::SetPipeline(pipeline));
    }

    /// Binds the per-instance buffer at `slot`.
    pub fn set_instance_buffer(&mut self, slot: u32)
        ensures
            final(self).commands@ == old(self).commands@.push(
                DrawCommand::SetInstanceBuffer { slot },
            ),
    {
        self.commands.push(DrawCommand::SetInstanceBuffer { slot });
    }

    fn push_all(&mut self, cmds: &[DrawCommand])
        ensures
            final(self).commands@ == old(self).commands@ + cmds@,
    {
        let mut i: usize = 0;
        while i < cmds.len()
            invariant
                i <= cmds@.len(),
                self.commands@ == old(self).commands@ + cmds@.take(i as int),
            decreases cmds@.len() - i,
        {
            self.commands.push(cmds[i]);
            i = i + 1;
            assert(cmds@.take(i as int) =~= cmds@.take(i - 1) .push(cmds@[i - 1]));
        }
        assert(cmds@.take(cmds@.len() as int) =~= cmds@);
    }

    /// Draws mesh `mesh` of `model` for `instances` with the light bindings.
    pub fn draw_light_mesh_instanced(
        &mut self,
        model: &Model,
        mesh: usize,
        instances: std::ops::Range<u32>,
    )
        requires
            mesh < model.meshes@.len(),
        ensures
            final(self).commands@ == old(self).commands@ + light_mesh_commands(
                model.meshes@[mesh as int],
                mesh,
                instances.start,
                instances.end,
            ),
    {
        let cmds = [
            DrawCommand::SetMeshBuffers { mesh },
            DrawCommand::SetCamera { slot: 0 },
            DrawCommand::SetLight { slot: 1 },
            DrawCommand::DrawIndexed {
                elements: model.meshes[mesh].num_elements,
                first_instance: instances.start,
                end_instance: instances.end,
            },
        ];
        self.push_all(&cmds);
        assert(cmds@ =~= light_mesh_commands(
            model.meshes@[mesh as int],
            mesh,
            instances.start,
            instances.end,
        ));
    }

    /// Draws mesh `mesh` of `model` once with the light bindings.
    pub fn draw_light_mesh(&mut self, model: &Model, mesh: usize)
        requires
            mesh < model.meshes@.len(),
        ensures
            final(self).commands@ == old(self).commands@ + light_mesh_commands(
                model.meshes@[mesh as int],
                mesh,
                0,
                1,
            ),
    {
        self.draw_light_mesh_instanced(model, mesh, 0..1);
    }

    /// Draws every mesh of `model`, in order, with the light bindings.
    pub fn draw_light_model_instanced(&mut self, model: &Model, instances: std::ops::Range<u32>)
        ensures
            final(self).commands@ == old(self).commands@ + light_model_commands(
                model.meshes@,
                model.meshes@.len() as int,
                instances.start,
                instances.end,
            ),
    {
        let mut i: usize = 0;
        while i < model.meshes.len()
            invariant
                i <= model.meshes@.len(),
                self.commands@ == old(self).commands@ + light_model_commands(
                    model.meshes@,
                    i as int,
                    instances.start,
                    instances.end,
                ),
            decreases model.meshes@.len() - i,
        {
            self.draw_light_mesh_instanced(model, i, instances.start..instances.end);
            i = i + 1;
            assert(self.commands@ =~= old(self).commands@ + light_model_commands(
                model.meshes@,
                i as int,
                instances.start,
                instances.end,
            ));
        }
    }

    /// Draws every mesh of `model` once with the light bindings.
    pub fn draw_light_model(&mut self, model: &Model)
        ensures
            final(self).commands@ == old(self).commands@ + light_model_commands(
                model.meshes@,
                model.meshes@.len() as int,
                0,
                1,
            ),
    {
        self.draw_light_model_instanced(model, 0..1);
    }

    /// Draws mesh `mesh` of `model` for `instances`, textured with `material`.
    pub fn draw_mesh_instanced(
        &mut self,
        model: &Model,
        mesh: usize,
        material: usize,
        instances: std::ops::Range<u32>,
    )
        requires
            mesh < model.meshes@.len(),
            material < model.materials@.len(),
        ensures
            final(self).commands@ == old(self).commands@ + mesh_commands(
                model.meshes@[mesh as int],
                mesh,
                material,
                instances.start,
                instances.end,
            ),
    {
        let cmds = [
            DrawCommand::SetMeshBuffers { mesh },
            DrawCommand::SetMaterial { slot: 0, material },
            DrawCommand::SetCamera { slot: 1 },
            DrawCommand::SetLight { slot: 2 },
            DrawCommand::DrawIndexed {
                elements: model.meshes[mesh].num_elements,
                first_instance: instances.start,
                end_instance: instances.end,
            },
        ];
        self.push_all(&cmds);
        assert(cmds@ =~= mesh_commands(
            model.meshes@[mesh as int],
            mesh,
            material,
            instances.start,
            instances.end,
        ));
    }

    /// Draws mesh `mesh` of `model` once, textured with `material`.
    pub fn draw_mesh(&mut self, model: &Model, mesh: usize, material: usize)
        requires
            mesh < model.meshes@.len(),
            material < model.materials@.len(),
        ensures
            final(self).commands@ == old(self).commands@ + mesh_commands(
                model.meshes@[mesh as int],
                mesh,
                material,
                0,
                1,
            ),
    {
        self.draw_mesh_instanced(model, mesh, material, 0..1);
    }

    /// Draws every mesh of `model`, in order, each with its own material.
    pub fn draw_model_instanced(&mut self, model: &Model, instances: std::ops::Range<u32>)
        requires
            model.wf(),
        ensures
            final(self).commands@ == old(self).commands@ + model_commands(
                model.meshes@,
                model.meshes@.len() as int,
                instances.start,
                instances.end,
            ),
    {
        let mut i: usize = 0;
        while i < model.meshes.len()
            invariant
                i <= model.meshes@.len(),
                model.wf(),
                self.commands@ == old(self).commands@ + model_commands(
                    model.meshes@,
                    i as int,
                    instances.start,
                    instances.end,
                ),
            decreases model.meshes@.len() - i,
        {
            let material = model.meshes[i].material;
            assert(model.meshes@[i as int].material < model.materials@.len());
            self.draw_mesh_instanced(model, i, material, instances.start..instances.end);
            i = i + 1;
            assert(self.commands@ =~= old(self).commands@ + model_commands(
                model.meshes@,
                i as int,
                instances.start,
                instances.end,
            ));
        }
    }

    /// Draws every mesh of `model` once, each with its own material.
    pub fn draw_model(&mut self, model: &Model)
        requires
            model.wf(),
        ensures
            final(self).commands@ == old(self).commands@ + model_commands(
                model.meshes@,
                model.meshes@.len() as int,
                0,
                1,
            ),
    {
        self.draw_model_instanced(model, 0..1);
    }
}

/// The commands of one frame: bind the instance buffer, draw the light mesh
/// once, then draw the model once for each of `instances` instances.
pub fn frame_pass(model: &Model, instances: u32) -> (r: RenderPass)
    requires
        model.wf(),
    ensures
        r.commands@ == frame_commands(model.meshes@, instances),
{
    let mut pass = RenderPass::new();
    pass.set_instance_buffer(1);
    pass.set_pipeline(Pipeline::Light);
    pass.draw_light_model(model);
    pass.set_pipeline(Pipeline::Main);
    pass.draw_model_instanced(model, 0..instances);
    assert(pass.commands@ =~= frame_commands(model.meshes@, instances));
    pass
}

} // verus!
