use vstd::prelude::*;
use crate::binding::{entries_match, texture_group_entries, texture_layout_entries, BindGroup};
use crate::command::{
    light_mesh_commands, main_mesh_commands, model_commands, BindGroupRef, MeshDraw, PipelineId,
    RenderPass, VertexSource,
};
use crate::context::Context;
use crate::mesh::{Mesh, ParsedMesh};
use crate::texture::Texture;

verus! {

/// Bit pattern of positive zero.
pub const POSITIVE_ZERO: u32 = 0x0000_0000;

/// Bit pattern of negative zero.
pub const NEGATIVE_ZERO: u32 = 0x8000_0000;

/// Whether a bit pattern denotes a number that compares equal to zero:
/// exactly the two signed zeros do.
pub open spec fn is_zero_bits(bits: u32) -> bool {
    bits == POSITIVE_ZERO || bits == NEGATIVE_ZERO
}

/// A placement in world space; each coordinate is the bit pattern of a
/// single-precision number.
#[derive(Clone, Copy, Debug, PartialEq, Eq, Structural)]
pub struct Area3D(pub u32, pub u32, pub u32);

impl Area3D {
    /// The coordinates in the order x, y, z.
    pub open spec fn coordinates(&self) -> Seq<u32> {
        seq![self.0, self.1, self.2]
    }

    /// Whether this is the zero vector, of either sign in each coordinate.
    pub open spec fn is_zero_spec(&self) -> bool {
        is_zero_bits(self.0) && is_zero_bits(self.1) && is_zero_bits(self.2)
    }

    pub fn position(&self) -> (p: [u32; 3])
        ensures
            p@ == self.coordinates(),
    {
        [self.0, self.1, self.2]
    }

    pub fn is_zero(&self) -> (z: bool)
        ensures
            z == self.is_zero_spec(),
    {
        (self.0 == POSITIVE_ZERO || self.0 == NEGATIVE_ZERO)
            && (self.1 == POSITIVE_ZERO || self.1 == NEGATIVE_ZERO)
            && (self.2 == POSITIVE_ZERO || self.2 == NEGATIVE_ZERO)
    }
}

/// A texture together with the binding set that shows it to the shaders.
#[derive(Debug)]
pub struct Material {
    pub name: String,
    pub diffuse_texture: Texture,
    pub bind_group: BindGroup,
}

impl Material {
    /// Whether the binding set shows a texture in slot 0 and its sampler in
    /// slot 1, as the layout shared by all materials asks.
    pub open spec fn well_formed(&self) -> bool {
        &&& self.bind_group.entries@ == texture_group_entries()
        &&& entries_match(self.bind_group.entries@, texture_layout_entries())
    }

    pub fn new(ctx: &Context, file_name: String, diffuse_texture: Texture) -> (m: Self)
        ensures
            m.name@ == file_name@,
            m.diffuse_texture == diffuse_texture,
            m.well_formed(),
    {
        let bind_group = ctx.create_bind_group(&diffuse_texture);
        Material { name: file_name, diffuse_texture, bind_group }
    }
}

impl Mesh {
    /// What a draw call needs to know of the mesh.
    pub open spec fn draw_view(&self) -> MeshDraw {
        MeshDraw { num_elements: self.num_elements, material: self.material }
    }
}

/// A loaded asset: its meshes in the order of the file, its materials and
/// its placement in the world.
#[derive(Debug)]
pub struct Model {
    pub meshes: Vec<Mesh>,
    pub materials: Vec<Material>,
    pub area: Area3D,
}

/// Whether every parsed mesh has a texture coordinate and a normal for every
/// vertex.
pub open spec fn all_complete(models: Seq<ParsedMesh>) -> bool {
    forall|i: int| 0 <= i < models.len() ==> (#[trigger] models[i]).is_complete_spec()
}

/// Whether every parsed mesh is drawn with one of `materials` materials.
pub open spec fn materials_in_range(models: Seq<ParsedMesh>, materials: int) -> bool {
    forall|i: int| 0 <= i < models.len() ==> (#[trigger] models[i]).material_spec() < materials
}

impl Model {
    /// What the draw calls need to know of the meshes, in their order.
    pub open spec fn draw_view(&self) -> Seq<MeshDraw> {
        Seq::new(self.meshes@.len(), |i: int| self.meshes@[i].draw_view())
    }

    /// Whether every mesh names a material of this model and every material
    /// is well formed.
    pub open spec fn well_formed(&self) -> bool {
        &&& forall|i: int|
            0 <= i < self.meshes@.len() ==> (#[trigger] self.meshes@[i]).material
                < self.materials@.len()
        &&& forall|i: int|
            0 <= i < self.materials@.len() ==> (#[trigger] self.materials@[i]).well_formed()
    }

    /// Whether the meshes are what the parsed meshes become under the name
    /// `file_name`, one for one.
    pub open spec fn meshes_built_from(&self, file_name: Seq<char>, models: Seq<ParsedMesh>) -> bool {
        &&& self.meshes@.len() == models.len()
        &&& forall|i: int|
            0 <= i < models.len() ==> (#[trigger] self.meshes@[i]).built_from(file_name, models[i])
    }

    /// Whether this is the model that the given parsed meshes and textures
    /// become at `area` under the name `file_name`: a mesh for every parsed
    /// mesh and a well-formed material for every texture, in their order.
    pub open spec fn is_loaded_from(
        &self,
        file_name: Seq<char>,
        area: Area3D,
        models: Seq<ParsedMesh>,
        textures: Seq<Texture>,
    ) -> bool {
        &&& self.meshes_built_from(file_name, models)
        &&& self.materials@.len() == textures.len()
        &&& forall|i: int|
            0 <= i < textures.len() ==> (#[trigger] self.materials@[i]).well_formed()
                && self.materials@[i].name@ == file_name && self.materials@[i].diffuse_texture
                == textures[i]
        &&& self.area == area
    }

    pub fn new(
        area: Area3D,
        models: Vec<ParsedMesh>,
        materials: Vec<Material>,
        file_name: String,
    ) -> (model: Self)
        requires
            all_complete(models@),
        ensures
            model.meshes_built_from(file_name@, models@),
            model.materials == materials,
            model.area == area,
    {
        let mut meshes: Vec<Mesh> = Vec::new();
        let ghost parsed = models@;
        for m in it: models
            invariant
                all_complete(parsed),
                it.seq() == parsed,
                meshes@.len() == it.index(),
                forall|i: int|
                    0 <= i < it.index() ==> (#[trigger] meshes@[i]).built_from(
                        file_name@,
                        parsed[i],
                    ),
        {
            let mesh = Mesh::new(file_name.clone(), m);
            meshes.push(mesh);
        }
        Self { meshes, materials, area }
    }
}

/// The first `n` meshes of a model, drawn, are the first `n - 1` drawn and
/// then mesh `n - 1`.
pub proof fn model_commands_step(pipeline: PipelineId, model: usize, meshes: Seq<MeshDraw>, n: int)
    requires
        0 < n <= meshes.len(),
    ensures
        model_commands(pipeline, model, meshes.take(n)) == model_commands(
            pipeline,
            model,
            meshes.take(n - 1),
        ) + crate::command::mesh_commands(pipeline, model, (n - 1) as usize, meshes[n - 1]),
{
    assert(meshes.take(n).drop_last() =~= meshes.take(n - 1));
}

impl RenderPass {
    /// Draws one mesh with the main pipeline: its buffers, its material at
    /// slot 0, the camera at slot 1, the light at slot 2, one indexed draw.
    pub fn draw_mesh(&mut self, model: usize, index: usize, mesh: &Mesh)
        ensures
            final(self).commands@ == old(self).commands@ + main_mesh_commands(
                model,
                index,
                mesh.draw_view(),
            ),
    {
        self.set_vertex_buffer(0, VertexSource::Mesh { model, mesh: index });
        self.set_index_buffer(model, index);
        self.set_bind_group(0, BindGroupRef::Material { model, material: mesh.material });
        self.set_bind_group(1, BindGroupRef::Camera);
        self.set_bind_group(2, BindGroupRef::Light);
        self.draw_indexed(mesh.num_elements, 1);
        assert(self.commands@ =~= old(self).commands@ + main_mesh_commands(
            model,
            index,
            mesh.draw_view(),
        ));
    }

    /// Draws the meshes of a model with the main pipeline, in their order.
    pub fn draw_model(&mut self, index: usize, model: &Model)
        ensures
            final(self).commands@ == old(self).commands@ + model_commands(
                PipelineId::Main,
                index,
                model.draw_view(),
            ),
    {
        let ghost view = model.draw_view();
        let mut i: usize = 0;
        assert(view.take(0) =~= Seq::<MeshDraw>::empty());
        assert(self.commands@ =~= old(self).commands@ + model_commands(
            PipelineId::Main,
            index,
            view.take(0),
        ));
        while i < model.meshes.len()
            invariant
                i <= model.meshes@.len(),
                view == model.draw_view(),
                self.commands@ == old(self).commands@ + model_commands(
                    PipelineId::Main,
                    index,
                    view.take(i as int),
                ),
            decreases model.meshes@.len() - i,
        {
            self.draw_mesh(index, i, &model.meshes[i]);
            proof {
                model_commands_step(PipelineId::Main, index, view, i + 1);
                assert(self.commands@ =~= old(self).commands@ + model_commands(
                    PipelineId::Main,
                    index,
                    view.take(i + 1),
                ));
            }
            i += 1;
        }
        assert(view.take(i as int) =~= view);
    }

    /// Draws one mesh with the light pipeline: its buffers, the camera at
    /// slot 0, the light at slot 1, one indexed draw.
    pub fn draw_light_mesh(&mut self, model: usize, index: usize, mesh: &Mesh)
        ensures
            final(self).commands@ == old(self).commands@ + light_mesh_commands(
                model,
                index,
                mesh.draw_view(),
            ),
    {
        self.set_vertex_buffer(0, VertexSource::Mesh { model, mesh: index });
        self.set_index_buffer(model, index);
        self.set_bind_group(0, BindGroupRef::Camera);
        self.set_bind_group(1, BindGroupRef::Light);
        self.draw_indexed(mesh.num_elements, 1);
        assert(self.commands@ =~= old(self).commands@ + light_mesh_commands(
            model,
            index,
            mesh.draw_view(),
        ));
    }

    /// Draws the meshes of a model with the light pipeline, in their order.
    pub fn draw_light_model(&mut self, index: usize, model: &Model)
        ensures
            final(self).commands@ == old(self).commands@ + model_commands(
                PipelineId::Light,
                index,
                model.draw_view(),
            ),
    {
        let ghost view = model.draw_view();
        let mut i: usize = 0;
        assert(view.take(0) =~= Seq::<MeshDraw>::empty());
        assert(self.commands@ =~= old(self).commands@ + model_commands(
            PipelineId::Light,
            index,
            view.take(0),
        ));
        while i < model.meshes.len()
            invariant
                i <= model.meshes@.len(),
                view == model.draw_view(),
                self.commands@ == old(self).commands@ + model_commands(
                    PipelineId::Light,
                    index,
                    view.take(i as int),
                ),
            decreases model.meshes@.len() - i,
        {
            self.draw_light_mesh(index, i, &model.meshes[i]);
            proof {
                model_commands_step(PipelineId::Light, index, view, i + 1);
                assert(self.commands@ =~= old(self).commands@ + model_commands(
                    PipelineId::Light,
                    index,
                    view.take(i + 1),
                ));
            }
            i += 1;
        }
        assert(view.take(i as int) =~= view);
    }
}

impl Model {
    /// Records this model, the `index`-th loaded, for the main pipeline.
    pub fn draw(&self, index: usize, render_pass: &mut RenderPass)
        ensures
            final(render_pass).commands@ == old(render_pass).commands@ + model_commands(
                PipelineId::Main,
                index,
                self.draw_view(),
            ),
    {
        render_pass.draw_model(index, self);
    }

    /// Records this model, the `index`-th loaded, for the light pipeline.
    pub fn light(&self, index: usize, render_pass: &mut RenderPass)
        ensures
            final(render_pass).commands@ == old(render_pass).commands@ + model_commands(
                PipelineId::Light,
                index,
                self.draw_view(),
            ),
    {
        render_pass.draw_light_model(index, self);
    }
}

} // verus!
