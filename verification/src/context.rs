use vstd::prelude::*;
use crate::binding::{
    entries_match, texture_group_entries, texture_layout_entries, BindGroup, BindGroupEntry,
    BindGroupLayout, BindingResource,
};
use crate::decode::{answers_decoded, decoded_image, refusal, ResourceError};
use crate::mesh::ParsedMesh;
use crate::model::{all_complete, materials_in_range, Area3D, Material, Model};
use crate::surface::SurfaceConfiguration;
use crate::texture::Texture;

verus! {

/// The resource loader: the surface's configuration, the layout shared by
/// all materials and every model loaded so far, in loading order.
#[derive(Debug)]
pub struct Context {
    pub layout: BindGroupLayout,
    pub models: Vec<Model>,
    pub config: SurfaceConfiguration,
}

impl Context {
    /// Whether the shared layout is the one for materials and every model is
    /// well formed.
    pub open spec fn well_formed(&self) -> bool {
        &&& self.layout.entries@ == texture_layout_entries()
        &&& forall|i: int| 0 <= i < self.models@.len() ==> (#[trigger] self.models@[i]).well_formed()
    }

    pub fn new(layout: BindGroupLayout, config: SurfaceConfiguration) -> (ctx: Self)
        ensures
            ctx.layout == layout,
            ctx.config == config,
            ctx.models@.len() == 0,
    {
        Context { layout, config, models: Vec::new() }
    }

    /// The texture of an encoded image, labelled with the name of its file.
    pub fn load_texture(&self, data: &[u8], file_name: &str) -> (r: Result<Texture, ResourceError>)
        ensures
            answers_decoded(r, decoded_image(data@), file_name@),
            r is Ok <==> refusal(data@) is None,
            r matches Err(e) ==> refusal(data@) == Some(e),
    {
        Texture::from_bytes(data, file_name)
    }

    /// The binding set of a material: the view of its texture in slot 0 and
    /// the texture's sampler in slot 1.
    pub fn create_bind_group(&self, diffuse_texture: &Texture) -> (group: BindGroup)
        ensures
            group.entries@ == texture_group_entries(),
            entries_match(group.entries@, texture_layout_entries()),
    {
        let mut entries: Vec<BindGroupEntry> = Vec::new();
        entries.push(BindGroupEntry { binding: 0, resource: BindingResource::TextureView });
        entries.push(BindGroupEntry { binding: 1, resource: BindingResource::Sampler });
        assert(entries@ =~= texture_group_entries());
        BindGroup { entries }
    }

    /// Appends the model made of the given parsed meshes and textures, one
    /// material for every texture, all under the name `file_name`.
    pub fn push_model(
        &mut self,
        file_name: &str,
        area: Area3D,
        models: Vec<ParsedMesh>,
        textures: Vec<Texture>,
    )
        requires
            loadable(models@, textures@.len() as int),
        ensures
            old(self).well_formed() ==> final(self).well_formed(),
            final(self).layout == old(self).layout,
            final(self).config == old(self).config,
            final(self).models@.len() == old(self).models@.len() + 1,
            final(self).models@.drop_last() == old(self).models@,
            final(self).models@.last().is_loaded_from(file_name@, area, models@, textures@),
    {
        let mut materials: Vec<Material> = Vec::new();
        let ghost given = textures@;
        for texture in it: textures
            invariant
                it.seq() == given,
                materials@.len() == it.index(),
                forall|i: int|
                    0 <= i < it.index() ==> (#[trigger] materials@[i]).well_formed()
                        && materials@[i].name@ == file_name@ && materials@[i].diffuse_texture
                        == given[i],
        {
            let material = Material::new(self, file_name.to_owned(), texture);
            materials.push(material);
        }
        let model = Model::new(area, models, materials, file_name.to_owned());
        self.models.push(model);
        assert(self.models@.drop_last() =~= old(self).models@);
    }

    /// Loads a model: decodes the texture of every material, builds the
    /// meshes and appends the model. A model that is malformed, or one with
    /// a texture that cannot be decoded or uploaded, is turned down and
    /// leaves the loader as it was.
    pub fn load_model(
        &mut self,
        file_name: &str,
        area: Area3D,
        models: Vec<ParsedMesh>,
        textures: Vec<TextureSource>,
    ) -> (r: Result<(), ResourceError>)
        ensures
            r == load_outcome(models@, textures@),
            old(self).well_formed() ==> final(self).well_formed(),
            final(self).layout == old(self).layout,
            final(self).config == old(self).config,
            r is Err ==> final(self).models@ == old(self).models@,
            r is Ok ==> final(self).models@.len() == old(self).models@.len() + 1
                && final(self).models@.drop_last() == old(self).models@
                && final(self).models@.last().is_loaded(file_name@, area, models@, textures@),
    {
        if !is_loadable(&models, textures.len()) {
            return Err(ResourceError::Malformed);
        }
        let mut decoded: Vec<Texture> = Vec::new();
        let mut i: usize = 0;
        assert(textures@.take(0) =~= Seq::<TextureSource>::empty());
        while i < textures.len()
            invariant
                i <= textures@.len(),
                decoded@.len() == i,
                *self == *old(self),
                loadable(models@, textures@.len() as int),
                first_refusal(textures@.take(i as int)) is None,
                forall|j: int|
                    0 <= j < i ==> textures@[j].is_source_of(#[trigger] decoded@[j]),
            decreases textures@.len() - i,
        {
            let source = &textures[i];
            assert(textures@.take(i + 1).drop_last() =~= textures@.take(i as int));
            match self.load_texture(source.bytes.as_slice(), source.name.as_str()) {
                Ok(texture) => {
                    decoded.push(texture);
                },
                Err(e) => {
                    proof {
                        first_refusal_of_prefix(textures@, i + 1);
                    }
                    return Err(e);
                },
            }
            i += 1;
        }
        assert(textures@.take(i as int) =~= textures@);
        self.push_model(file_name, area, models, decoded);
        Ok(())
    }
}

/// The encoded image of a material's texture, under the name of its file.
#[derive(Debug)]
pub struct TextureSource {
    pub name: String,
    pub bytes: Vec<u8>,
}

impl Model {
    /// Whether this is the model that the given parsed meshes and texture
    /// sources become at `area` under the name `file_name`: a mesh for every
    /// parsed mesh and a material for every source, in their order.
    pub open spec fn is_loaded(
        &self,
        file_name: Seq<char>,
        area: Area3D,
        models: Seq<ParsedMesh>,
        textures: Seq<TextureSource>,
    ) -> bool {
        &&& self.meshes_built_from(file_name, models)
        &&& self.materials@.len() == textures.len()
        &&& forall|i: int|
            0 <= i < textures.len() ==> (#[trigger] self.materials@[i]).well_formed()
                && self.materials@[i].name@ == file_name && textures[i].is_source_of(
                self.materials@[i].diffuse_texture,
            )
        &&& self.area == area
    }
}

impl TextureSource {
    /// Whether `texture` is what this source decodes to.
    pub open spec fn is_source_of(&self, texture: Texture) -> bool {
        answers_decoded(Ok(texture), decoded_image(self.bytes@), self.name@)
    }
}

/// The reason why the first texture that gives none gives none, if there is
/// such a texture.
pub open spec fn first_refusal(textures: Seq<TextureSource>) -> Option<ResourceError>
    decreases textures.len(),
{
    if textures.len() == 0 {
        None
    } else {
        match first_refusal(textures.drop_last()) {
            Some(e) => Some(e),
            None => refusal(textures.last().bytes@),
        }
    }
}

/// How loading ends: a malformed model is turned down as such, else the
/// first texture that gives none decides, and else the model is loaded.
pub open spec fn load_outcome(
    models: Seq<ParsedMesh>,
    textures: Seq<TextureSource>,
) -> Result<(), ResourceError> {
    if !loadable(models, textures.len() as int) {
        Err(ResourceError::Malformed)
    } else {
        match first_refusal(textures) {
            Some(e) => Err(e),
            None => Ok(()),
        }
    }
}

/// A refusal among the first `n` textures is the first refusal among all.
pub proof fn first_refusal_of_prefix(textures: Seq<TextureSource>, n: int)
    requires
        0 <= n <= textures.len(),
        first_refusal(textures.take(n)) is Some,
    ensures
        first_refusal(textures) == first_refusal(textures.take(n)),
    decreases textures.len() - n,
{
    if n < textures.len() {
        assert(textures.take(n + 1).drop_last() =~= textures.take(n));
        first_refusal_of_prefix(textures, n + 1);
    } else {
        assert(textures.take(n) =~= textures);
    }
}

/// Whether parsed meshes can become a model with `materials` materials:
/// every vertex is complete and every mesh is drawn with a material that
/// the model has.
pub open spec fn loadable(models: Seq<ParsedMesh>, materials: int) -> bool {
    all_complete(models) && materials_in_range(models, materials)
}

pub fn is_loadable(models: &Vec<ParsedMesh>, materials: usize) -> (ok: bool)
    ensures
        ok == loadable(models@, materials as int),
{
    let mut i: usize = 0;
    while i < models.len()
        invariant
            i <= models@.len(),
            loadable(models@.take(i as int), materials as int),
        decreases models@.len() - i,
    {
        let material: usize = match models[i].material_id {
            Some(k) => k,
            None => 0,
        };
        if !models[i].is_complete() || material >= materials {
            return false;
        }
        assert forall|j: int| 0 <= j < i + 1 implies (#[trigger] models@.take(i + 1)[j]).is_complete_spec()
            && models@.take(i + 1)[j].material_spec() < materials by {
            if j < i {
                assert(models@.take(i as int)[j] == models@[j]);
            }
        }
        i += 1;
    }
    assert(models@.take(i as int) =~= models@);
    true
}

} // verus!
