use vstd::prelude::*;

verus! {

/// How the components of one vertex attribute are stored.
#[derive(Clone, Copy, Debug, PartialEq, Eq, Structural)]
pub enum VertexFormat {
    /// Two single-precision numbers.
    Float32x2,
    /// Three single-precision numbers.
    Float32x3,
    /// Four single-precision numbers.
    Float32x4,
}

impl VertexFormat {
    /// Number of bytes that an attribute of this format occupies.
    pub open spec fn size_spec(&self) -> int {
        match self {
            VertexFormat::Float32x2 => 8,
            VertexFormat::Float32x3 => 12,
            VertexFormat::Float32x4 => 16,
        }
    }

    pub fn size(&self) -> (n: u64)
        ensures
            n == self.size_spec(),
    {
        match self {
            VertexFormat::Float32x2 => 8,
            VertexFormat::Float32x3 => 12,
            VertexFormat::Float32x4 => 16,
        }
    }
}

/// Whether a buffer advances once per vertex or once per instance.
#[derive(Clone, Copy, Debug, PartialEq, Eq, Structural)]
pub enum VertexStepMode {
    Vertex,
    Instance,
}

/// One input of the vertex stage, read from a fixed place in every record.
#[derive(Clone, Copy, Debug, PartialEq, Eq, Structural)]
pub struct VertexAttribute {
    pub offset: u64,
    pub shader_location: u32,
    pub format: VertexFormat,
}

impl VertexAttribute {
    /// First byte after the attribute, counted from the start of the record.
    pub open spec fn end(&self) -> int {
        self.offset + self.format.size_spec()
    }
}

/// The layout of the records of one vertex buffer.
#[derive(Debug)]
pub struct VertexBufferLayout {
    pub array_stride: u64,
    pub step_mode: VertexStepMode,
    pub attributes: Vec<VertexAttribute>,
}

/// Whether the attributes tile a record of `stride` bytes: the first starts at
/// byte 0, each next one starts where the one before ends, and the last ends
/// with the record.
pub open spec fn attributes_packed(attributes: Seq<VertexAttribute>, stride: int) -> bool {
    &&& attributes.len() > 0
    &&& attributes[0].offset == 0
    &&& forall|i: int|
        0 <= i < attributes.len() - 1 ==> (#[trigger] attributes[i]).end() == attributes[i
            + 1].offset
    &&& attributes[attributes.len() - 1].end() == stride
}

/// Whether the attributes feed consecutive shader locations from `first` on.
pub open spec fn locations_consecutive(attributes: Seq<VertexAttribute>, first: int) -> bool {
    forall|i: int|
        0 <= i < attributes.len() ==> (#[trigger] attributes[i]).shader_location == first + i
}

impl VertexBufferLayout {
    /// A layout without gaps or overlap whose shader locations count up from
    /// `first_location`.
    pub open spec fn well_formed(&self, first_location: int) -> bool {
        &&& attributes_packed(self.attributes@, self.array_stride as int)
        &&& locations_consecutive(self.attributes@, first_location)
    }
}

/// A kind of record that a vertex buffer can hold.
pub trait Vertex {
    /// The layout that the pipeline is told for buffers of this record.
    fn desc() -> VertexBufferLayout;
}

/// One vertex of a mesh: position, texture coordinate and normal, each
/// component the bit pattern of a single-precision number.
#[derive(Clone, Copy, Debug)]
pub struct ModelVertex {
    pub position: [u32; 3],
    pub tex_coords: [u32; 2],
    pub normal: [u32; 3],
}

/// Number of bytes in one vertex record.
pub const VERTEX_STRIDE: u64 = 32;

impl ModelVertex {
    /// The record as the pipeline reads it: position, then texture
    /// coordinate, then normal.
    pub open spec fn words(&self) -> Seq<u32> {
        seq![
            self.position[0],
            self.position[1],
            self.position[2],
            self.tex_coords[0],
            self.tex_coords[1],
            self.normal[0],
            self.normal[1],
            self.normal[2],
        ]
    }

    /// The attributes of a vertex record.
    pub open spec fn attributes() -> Seq<VertexAttribute> {
        seq![
            VertexAttribute { offset: 0, shader_location: 0, format: VertexFormat::Float32x3 },
            VertexAttribute { offset: 12, shader_location: 1, format: VertexFormat::Float32x2 },
            VertexAttribute { offset: 20, shader_location: 2, format: VertexFormat::Float32x3 },
        ]
    }
}

impl Vertex for ModelVertex {
    fn desc() -> (layout: VertexBufferLayout)
        ensures
            layout.array_stride == VERTEX_STRIDE,
            layout.step_mode == VertexStepMode::Vertex,
            layout.attributes@ == ModelVertex::attributes(),
            layout.well_formed(0),
    {
        let mut attributes: Vec<VertexAttribute> = Vec::new();
        attributes.push(
            VertexAttribute { offset: 0, shader_location: 0, format: VertexFormat::Float32x3 },
        );
        attributes.push(
            VertexAttribute { offset: 12, shader_location: 1, format: VertexFormat::Float32x2 },
        );
        attributes.push(
            VertexAttribute { offset: 20, shader_location: 2, format: VertexFormat::Float32x3 },
        );
        assert(attributes@ =~= ModelVertex::attributes());
        VertexBufferLayout { array_stride: VERTEX_STRIDE, step_mode: VertexStepMode::Vertex, attributes }
    }
}

/// The words of a run of vertex records, record after record.
pub open spec fn vertex_words(vertices: Seq<ModelVertex>) -> Seq<u32> {
    Seq::new(8 * vertices.len(), |k: int| vertices[k / 8].words()[k % 8])
}

} // verus!
