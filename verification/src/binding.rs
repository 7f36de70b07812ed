use vstd::prelude::*;

verus! {

/// The shader stages that can see a binding.
#[derive(Clone, Copy, Debug, PartialEq, Eq, Structural)]
pub struct ShaderStages {
    pub vertex: bool,
    pub fragment: bool,
}

/// The kind of resource that a slot of a layout takes.
#[derive(Clone, Copy, Debug, PartialEq, Eq, Structural)]
pub enum BindingType {
    /// A two-dimensional texture, not multisampled, sampled as filterable
    /// floating-point values.
    Texture,
    /// A sampler that may filter.
    FilteringSampler,
    /// A uniform buffer, bound whole and without a dynamic offset.
    UniformBuffer,
}

/// One slot of a binding-set layout.
#[derive(Clone, Copy, Debug, PartialEq, Eq, Structural)]
pub struct BindGroupLayoutEntry {
    pub binding: u32,
    pub visibility: ShaderStages,
    pub ty: BindingType,
}

/// The slots that binding sets of one kind fill.
#[derive(Debug)]
pub struct BindGroupLayout {
    pub entries: Vec<BindGroupLayoutEntry>,
}

/// The uniform blocks that the scene keeps on the device.
#[derive(Clone, Copy, Debug, PartialEq, Eq, Structural)]
pub enum Uniform {
    Camera,
    Light,
}

/// A resource put into a slot.
#[derive(Clone, Copy, Debug, PartialEq, Eq, Structural)]
pub enum BindingResource {
    /// The default view of the texture that the set is made for.
    TextureView,
    /// The sampler of the texture that the set is made for.
    Sampler,
    /// The whole buffer of a uniform block.
    Buffer(Uniform),
}

impl BindingResource {
    /// The kind of slot that the resource fits.
    pub open spec fn fits(&self) -> BindingType {
        match self {
            BindingResource::TextureView => BindingType::Texture,
            BindingResource::Sampler => BindingType::FilteringSampler,
            BindingResource::Buffer(_) => BindingType::UniformBuffer,
        }
    }
}

/// One filled slot of a binding set.
#[derive(Clone, Copy, Debug, PartialEq, Eq, Structural)]
pub struct BindGroupEntry {
    pub binding: u32,
    pub resource: BindingResource,
}

/// A set of resources shown to the shaders under fixed slot numbers.
#[derive(Debug)]
pub struct BindGroup {
    pub entries: Vec<BindGroupEntry>,
}

/// The slots of the layout shared by all materials: the texture in slot 0 and
/// its sampler in slot 1, both seen by the fragment stage alone.
pub open spec fn texture_layout_entries() -> Seq<BindGroupLayoutEntry> {
    seq![
        BindGroupLayoutEntry {
            binding: 0,
            visibility: ShaderStages { vertex: false, fragment: true },
            ty: BindingType::Texture,
        },
        BindGroupLayoutEntry {
            binding: 1,
            visibility: ShaderStages { vertex: false, fragment: true },
            ty: BindingType::FilteringSampler,
        },
    ]
}

/// The slots of the layout of a uniform block: the block in slot 0, seen by
/// the vertex and the fragment stage.
pub open spec fn uniform_layout_entries() -> Seq<BindGroupLayoutEntry> {
    seq![
        BindGroupLayoutEntry {
            binding: 0,
            visibility: ShaderStages { vertex: true, fragment: true },
            ty: BindingType::UniformBuffer,
        },
    ]
}

/// The filled slots of a material's binding set.
pub open spec fn texture_group_entries() -> Seq<BindGroupEntry> {
    seq![
        BindGroupEntry { binding: 0, resource: BindingResource::TextureView },
        BindGroupEntry { binding: 1, resource: BindingResource::Sampler },
    ]
}

/// The filled slot of the binding set of a uniform block.
pub open spec fn uniform_group_entries(uniform: Uniform) -> Seq<BindGroupEntry> {
    seq![BindGroupEntry { binding: 0, resource: BindingResource::Buffer(uniform) }]
}

/// Whether a run of filled slots fills a run of layout slots one for one:
/// the same slot numbers in the same order, each resource of the kind that
/// its slot takes.
pub open spec fn entries_match(
    entries: Seq<BindGroupEntry>,
    layout: Seq<BindGroupLayoutEntry>,
) -> bool {
    &&& entries.len() == layout.len()
    &&& forall|i: int|
        0 <= i < entries.len() ==> (#[trigger] entries[i]).binding == layout[i].binding
            && entries[i].resource.fits() == layout[i].ty
}

impl BindGroupLayout {
    /// The layout shared by all materials.
    pub fn texture() -> (layout: Self)
        ensures
            layout.entries@ == texture_layout_entries(),
    {
        let mut entries: Vec<BindGroupLayoutEntry> = Vec::new();
        entries.push(
            BindGroupLayoutEntry {
                binding: 0,
                visibility: ShaderStages { vertex: false, fragment: true },
                ty: BindingType::Texture,
            },
        );
        entries.push(
            BindGroupLayoutEntry {
                binding: 1,
                visibility: ShaderStages { vertex: false, fragment: true },
                ty: BindingType::FilteringSampler,
            },
        );
        assert(entries@ =~= texture_layout_entries());
        BindGroupLayout { entries }
    }

    /// The layout of the binding set of a uniform block.
    pub fn uniform() -> (layout: Self)
        ensures
            layout.entries@ == uniform_layout_entries(),
    {
        let mut entries: Vec<BindGroupLayoutEntry> = Vec::new();
        entries.push(
            BindGroupLayoutEntry {
                binding: 0,
                visibility: ShaderStages { vertex: true, fragment: true },
                ty: BindingType::UniformBuffer,
            },
        );
        assert(entries@ =~= uniform_layout_entries());
        BindGroupLayout { entries }
    }
}

impl BindGroup {
    /// The binding set of a uniform block.
    pub fn uniform(uniform: Uniform) -> (group: Self)
        ensures
            group.entries@ == uniform_group_entries(uniform),
            entries_match(group.entries@, uniform_layout_entries()),
    {
        let mut entries: Vec<BindGroupEntry> = Vec::new();
        entries.push(BindGroupEntry { binding: 0, resource: BindingResource::Buffer(uniform) });
        assert(entries@ =~= uniform_group_entries(uniform));
        BindGroup { entries }
    }
}

} // verus!
