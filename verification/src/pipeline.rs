use vstd::prelude::*;
use crate::texture::{CompareFunction, TextureFormat};
use crate::instance::InstanceRaw;
use crate::vertex::{ModelVertex, Vertex, VertexBufferLayout, VertexStepMode, VERTEX_STRIDE};

verus! {

/// The binding-set layouts that pipelines are built against.
#[derive(Clone, Copy, Debug, PartialEq, Eq, Structural)]
pub enum LayoutId {
    /// The layout shared by all materials.
    Texture,
    /// The layout of the camera's uniform block.
    Camera,
    /// The layout of the light's uniform block.
    Light,
}

/// The shader programs, which are written elsewhere.
#[derive(Clone, Copy, Debug, PartialEq, Eq, Structural)]
pub enum Shader {
    /// The program that draws textured, lit geometry.
    Normal,
    /// The program that draws geometry with the light alone.
    Light,
}

/// The binding-set layouts of a pipeline, by slot.
#[derive(Debug)]
pub struct PipelineLayout {
    pub bind_group_layouts: Vec<LayoutId>,
}

/// The layouts of the main pipeline: material, camera, light.
pub open spec fn main_layouts() -> Seq<LayoutId> {
    seq![LayoutId::Texture, LayoutId::Camera, LayoutId::Light]
}

/// The layouts of the light pipeline: camera, light.
pub open spec fn light_layouts() -> Seq<LayoutId> {
    seq![LayoutId::Camera, LayoutId::Light]
}

impl PipelineLayout {
    /// The layout of the main pipeline.
    pub fn main() -> (layout: Self)
        ensures
            layout.bind_group_layouts@ == main_layouts(),
    {
        let mut ids: Vec<LayoutId> = Vec::new();
        ids.push(LayoutId::Texture);
        ids.push(LayoutId::Camera);
        ids.push(LayoutId::Light);
        assert(ids@ =~= main_layouts());
        PipelineLayout { bind_group_layouts: ids }
    }

    /// The layout of the light pipeline.
    pub fn light() -> (layout: Self)
        ensures
            layout.bind_group_layouts@ == light_layouts(),
    {
        let mut ids: Vec<LayoutId> = Vec::new();
        ids.push(LayoutId::Camera);
        ids.push(LayoutId::Light);
        assert(ids@ =~= light_layouts());
        PipelineLayout { bind_group_layouts: ids }
    }
}

/// How a fragment's colour is combined with what the target holds.
#[derive(Clone, Copy, Debug, PartialEq, Eq, Structural)]
pub enum BlendState {
    /// The fragment's colour and alpha take the place of what was there.
    Replace,
}

/// How vertices are put together to primitives.
#[derive(Clone, Copy, Debug, PartialEq, Eq, Structural)]
pub enum PrimitiveTopology {
    TriangleList,
}

/// The winding of a triangle's front.
#[derive(Clone, Copy, Debug, PartialEq, Eq, Structural)]
pub enum FrontFace {
    Ccw,
}

/// A side of a triangle.
#[derive(Clone, Copy, Debug, PartialEq, Eq, Structural)]
pub enum Face {
    Back,
}

/// How the inside of a triangle is drawn.
#[derive(Clone, Copy, Debug, PartialEq, Eq, Structural)]
pub enum PolygonMode {
    Fill,
}

/// The colour target of a pipeline: all channels are written.
#[derive(Clone, Copy, Debug, PartialEq, Eq, Structural)]
pub struct ColorTargetState {
    pub format: TextureFormat,
    pub blend: Option<BlendState>,
}

/// How primitives are assembled and which of them are dropped.
#[derive(Clone, Copy, Debug, PartialEq, Eq, Structural)]
pub struct PrimitiveState {
    pub topology: PrimitiveTopology,
    pub front_face: FrontFace,
    pub cull_mode: Option<Face>,
    pub polygon_mode: PolygonMode,
    pub unclipped_depth: bool,
    pub conservative: bool,
}

/// The depth test of a pipeline; stencil and bias are left at their defaults.
#[derive(Clone, Copy, Debug, PartialEq, Eq, Structural)]
pub struct DepthStencilState {
    pub format: TextureFormat,
    pub depth_write_enabled: bool,
    pub depth_compare: CompareFunction,
}

/// How many samples a pixel has and which of them are written.
#[derive(Clone, Copy, Debug, PartialEq, Eq, Structural)]
pub struct MultisampleState {
    pub count: u32,
    pub mask: u64,
    pub alpha_to_coverage_enabled: bool,
}

/// The stages that the device runs for a pipeline. Both start at fixed entry
/// points of the one shader program.
#[derive(Clone, Copy, Debug, PartialEq, Eq, Structural)]
pub enum EntryPoint {
    /// The function `vs_main`.
    VsMain,
    /// The function `fs_main`.
    FsMain,
}

/// A render pipeline to create on the device.
#[derive(Debug)]
pub struct RenderPipelineDescriptor {
    pub layout: PipelineLayout,
    pub shader: Shader,
    pub vertex_entry_point: EntryPoint,
    pub fragment_entry_point: EntryPoint,
    pub buffers: Vec<VertexBufferLayout>,
    pub target: ColorTargetState,
    pub primitive: PrimitiveState,
    pub depth_stencil: Option<DepthStencilState>,
    pub multisample: MultisampleState,
}

/// The depth test that goes with a depth format: writes enabled, nearer
/// fragments win.
pub open spec fn depth_state(depth_format: Option<TextureFormat>) -> Option<DepthStencilState> {
    match depth_format {
        Some(format) => Some(
            DepthStencilState {
                format,
                depth_write_enabled: true,
                depth_compare: CompareFunction::Less,
            },
        ),
        None => None,
    }
}

impl RenderPipelineDescriptor {
    /// Whether everything but layout, shader, formats and vertex buffers is
    /// as every pipeline of the renderer has it: filled triangle lists with
    /// counter-clockwise fronts and culled backs, colours replaced, one
    /// sample per pixel.
    pub open spec fn has_fixed_state(&self) -> bool {
        &&& self.vertex_entry_point == EntryPoint::VsMain
        &&& self.fragment_entry_point == EntryPoint::FsMain
        &&& self.target.blend == Some(BlendState::Replace)
        &&& self.primitive == PrimitiveState {
            topology: PrimitiveTopology::TriangleList,
            front_face: FrontFace::Ccw,
            cull_mode: Some(Face::Back),
            polygon_mode: PolygonMode::Fill,
            unclipped_depth: false,
            conservative: false,
        }
        &&& self.multisample == MultisampleState {
            count: 1,
            mask: u64::MAX,
            alpha_to_coverage_enabled: false,
        }
    }
}

/// Describes a pipeline of the renderer for the given layout, formats,
/// vertex buffers and shader program.
pub fn create_render_pipeline(
    layout: PipelineLayout,
    color_format: TextureFormat,
    depth_format: Option<TextureFormat>,
    vertex_layouts: Vec<VertexBufferLayout>,
    shader: Shader,
) -> (pipeline: RenderPipelineDescriptor)
    ensures
        pipeline.layout == layout,
        pipeline.shader == shader,
        pipeline.buffers == vertex_layouts,
        pipeline.target.format == color_format,
        pipeline.depth_stencil == depth_state(depth_format),
        pipeline.has_fixed_state(),
{
    let depth_stencil = match depth_format {
        Some(format) => Some(
            DepthStencilState {
                format,
                depth_write_enabled: true,
                depth_compare: CompareFunction::Less,
            },
        ),
        None => None,
    };
    RenderPipelineDescriptor {
        layout,
        shader,
        vertex_entry_point: EntryPoint::VsMain,
        fragment_entry_point: EntryPoint::FsMain,
        buffers: vertex_layouts,
        target: ColorTargetState { format: color_format, blend: Some(BlendState::Replace) },
        primitive: PrimitiveState {
            topology: PrimitiveTopology::TriangleList,
            front_face: FrontFace::Ccw,
            cull_mode: Some(Face::Back),
            polygon_mode: PolygonMode::Fill,
            unclipped_depth: false,
            conservative: false,
        },
        depth_stencil,
        multisample: MultisampleState { count: 1, mask: u64::MAX, alpha_to_coverage_enabled: false },
    }
}

/// Whether a layout is that of the vertex records of a mesh.
pub open spec fn is_vertex_layout(layout: VertexBufferLayout) -> bool {
    &&& layout.array_stride == VERTEX_STRIDE
    &&& layout.step_mode == VertexStepMode::Vertex
    &&& layout.attributes@ == ModelVertex::attributes()
}

/// Whether a layout is that of the instance records.
pub open spec fn is_instance_layout(layout: VertexBufferLayout) -> bool {
    &&& layout.array_stride == crate::instance::INSTANCE_STRIDE
    &&& layout.step_mode == VertexStepMode::Instance
    &&& layout.attributes@ == InstanceRaw::attributes()
}

/// Whether a pipeline is the main one for a colour target of the given
/// format: material, camera and light bound in this order, vertex records
/// at slot 0 and instance records at slot 1, and a depth test against the
/// depth buffer.
pub open spec fn is_main_pipeline(
    pipeline: RenderPipelineDescriptor,
    color_format: TextureFormat,
) -> bool {
    &&& pipeline.layout.bind_group_layouts@ == main_layouts()
    &&& pipeline.shader == Shader::Normal
    &&& pipeline.buffers@.len() == 2
    &&& is_vertex_layout(pipeline.buffers@[0])
    &&& is_instance_layout(pipeline.buffers@[1])
    &&& pipeline.target.format == color_format
    &&& pipeline.depth_stencil == depth_state(Some(TextureFormat::Depth32Float))
    &&& pipeline.has_fixed_state()
}

/// Whether a pipeline is the light one for a colour target of the given
/// format: camera and light bound in this order, vertex records at slot 0,
/// and a depth test against the depth buffer.
pub open spec fn is_light_pipeline(
    pipeline: RenderPipelineDescriptor,
    color_format: TextureFormat,
) -> bool {
    &&& pipeline.layout.bind_group_layouts@ == light_layouts()
    &&& pipeline.shader == Shader::Light
    &&& pipeline.buffers@.len() == 1
    &&& is_vertex_layout(pipeline.buffers@[0])
    &&& pipeline.target.format == color_format
    &&& pipeline.depth_stencil == depth_state(Some(TextureFormat::Depth32Float))
    &&& pipeline.has_fixed_state()
}

/// Describes the main pipeline for a colour target of the given format.
pub fn main_pipeline(color_format: TextureFormat) -> (pipeline: RenderPipelineDescriptor)
    ensures
        is_main_pipeline(pipeline, color_format),
{
    let mut buffers: Vec<VertexBufferLayout> = Vec::new();
    buffers.push(ModelVertex::desc());
    buffers.push(InstanceRaw::desc());
    create_render_pipeline(
        PipelineLayout::main(),
        color_format,
        Some(TextureFormat::Depth32Float),
        buffers,
        Shader::Normal,
    )
}

/// Describes the light pipeline for a colour target of the given format.
pub fn light_pipeline(color_format: TextureFormat) -> (pipeline: RenderPipelineDescriptor)
    ensures
        is_light_pipeline(pipeline, color_format),
{
    let mut buffers: Vec<VertexBufferLayout> = Vec::new();
    buffers.push(ModelVertex::desc());
    create_render_pipeline(
        PipelineLayout::light(),
        color_format,
        Some(TextureFormat::Depth32Float),
        buffers,
        Shader::Light,
    )
}

} // verus!
