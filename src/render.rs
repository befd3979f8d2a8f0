use vstd::prelude::*;
use crate::model::{Mesh, Model};

verus! {

/// Bind-group slot of the per-material texture and sampler.
pub const MATERIAL_GROUP_SLOT: u32 = 0;

/// Bind-group slot of the camera uniform.
pub const CAMERA_GROUP_SLOT: u32 = 1;

/// Bind-group slot of the light uniform.
pub const LIGHT_GROUP_SLOT: u32 = 2;

/// Vertex-buffer slot of the mesh vertices.
pub const MESH_VERTEX_SLOT: u32 = 0;

/// Vertex-buffer slot of the per-instance records.
pub const INSTANCE_VERTEX_SLOT: u32 = 1;

/// A half-open range of instance indices, `start..end`.
#[derive(Clone, Copy, Debug, PartialEq, Eq)]
pub struct InstanceRange {
    pub start: u32,
    pub end: u32,
}

/// A bind group that a render pass can bind.
#[derive(Clone, Copy, Debug, PartialEq, Eq)]
pub enum BindGroupRef {
    /// The bind group of the model's material at this index.
    Material(usize),
    Camera,
    Light,
}

/// A vertex buffer that a render pass can bind.
#[derive(Clone, Copy, Debug, PartialEq, Eq)]
pub enum VertexBufferRef {
    /// The vertex buffer of the model's mesh at this index.
    Mesh(usize),
    Instances,
}

/// One command of a render pass, in the order in which it is issued.
#[derive(Clone, Copy, Debug, PartialEq, Eq)]
pub enum RenderCommand {
    SetPipeline,
    SetBindGroup { slot: u32, group: BindGroupRef },
    SetVertexBuffer { slot: u32, buffer: VertexBufferRef },
    /// Binds the index buffer of the model's mesh at this index.
    SetIndexBuffer { mesh: usize },
    DrawIndexed { index_count: u32, instances: InstanceRange },
}

/// State that stays bound for the whole pass: pipeline, camera, light and instances.
pub open spec fn pass_setup() -> Seq<RenderCommand> {
    seq![
        RenderCommand::SetPipeline,
        RenderCommand::SetBindGroup { slot: CAMERA_GROUP_SLOT, group: BindGroupRef::Camera },
        RenderCommand::SetBindGroup { slot: LIGHT_GROUP_SLOT, group: BindGroupRef::Light },
        RenderCommand::SetVertexBuffer {
            slot: INSTANCE_VERTEX_SLOT,
            buffer: VertexBufferRef::Instances,
        },
    ]
}

/// Drawing one mesh: its geometry, its material, then one indexed, instanced draw.
pub open spec fn mesh_commands(index: usize, mesh: Mesh, instances: InstanceRange) -> Seq<
    RenderCommand,
> {
    seq![
        RenderCommand::SetVertexBuffer { slot: MESH_VERTEX_SLOT, buffer: VertexBufferRef::Mesh(index) },
        RenderCommand::SetIndexBuffer { mesh: index },
        RenderCommand::SetBindGroup {
            slot: MATERIAL_GROUP_SLOT,
            group: BindGroupRef::Material(mesh.material),
        },
        RenderCommand::DrawIndexed { index_count: mesh.num_elements, instances },
    ]
}

/// Drawing the first `n` meshes, in their stored order.
pub open spec fn meshes_commands(meshes: Seq<Mesh>, n: nat, instances: InstanceRange) -> Seq<
    RenderCommand,
>
    decreases n,
{
    if n == 0 {
        Seq::empty()
    } else {
        meshes_commands(meshes, (n - 1) as nat, instances) + mesh_commands(
            (n - 1) as usize,
            meshes[n - 1],
            instances,
        )
    }
}

/// Appends the commands that draw one mesh with its material.
pub fn draw_mesh(
    commands: &mut Vec<RenderCommand>,
    index: usize,
    mesh: &Mesh,
    instances: InstanceRange,
)
    ensures
        final(commands)@ == old(commands)@ + mesh_commands(index, *mesh, instances),
{
    commands.push(
        RenderCommand::SetVertexBuffer { slot: MESH_VERTEX_SLOT, buffer: VertexBufferRef::Mesh(index) },
    );
    commands.push(RenderCommand::SetIndexBuffer { mesh: index });
    commands.push(
        RenderCommand::SetBindGroup {
            slot: MATERIAL_GROUP_SLOT,
            group: BindGroupRef::Material(mesh.material),
        },
    );
    commands.push(RenderCommand::DrawIndexed { index_count: mesh.num_elements, instances });
    proof {
        assert(final(commands)@ =~= old(commands)@ + mesh_commands(index, *mesh, instances));
    }
}

/// Appends the commands that draw every mesh of the model, in stored order, each with
/// the material it refers to.
pub fn draw_model(commands: &mut Vec<RenderCommand>, model: &Model, instances: InstanceRange)
    requires
        model.wf(),
    ensures
        final(commands)@ == old(commands)@ + meshes_commands(
            model.meshes@,
            model.meshes@.len(),
            instances,
        ),
{
    let mut i: usize = 0;
    while i < model.meshes.len()
        invariant
            i <= model.meshes@.len(),
            commands@ == old(commands)@ + meshes_commands(model.meshes@, i as nat, instances),
        decreases model.meshes@.len() - i,
    {
        draw_mesh(commands, i, &model.meshes[i], instances);
        proof {
            assert(commands@ =~= old(commands)@ + meshes_commands(
                model.meshes@,
                (i + 1) as nat,
                instances,
            ));
        }
        i = i + 1;
    }
}

/// The whole render pass for a model drawn `instance_count` times: the pipeline, camera,
/// light and instance buffer are bound once, then each mesh is drawn in stored order.
pub fn record_pass(model: &Model, instance_count: u32) -> (r: Vec<RenderCommand>)
    requires
        model.wf(),
    ensures
        r@ == pass_setup() + meshes_commands(
            model.meshes@,
            model.meshes@.len(),
            InstanceRange { start: 0, end: instance_count },
        ),
{
    let mut commands: Vec<RenderCommand> = Vec::new();
    commands.push(RenderCommand::SetPipeline);
    commands.push(
        RenderCommand::SetBindGroup { slot: CAMERA_GROUP_SLOT, group: BindGroupRef::Camera },
    );
    commands.push(
        RenderCommand::SetBindGroup { slot: LIGHT_GROUP_SLOT, group: BindGroupRef::Light },
    );
    commands.push(
        RenderCommand::SetVertexBuffer {
            slot: INSTANCE_VERTEX_SLOT,
            buffer: VertexBufferRef::Instances,
        },
    );
    proof {
        assert(commands@ =~= pass_setup());
    }
    draw_model(&mut commands, model, InstanceRange { start: 0, end: instance_count });
    commands
}

} // verus!
