use vstd::prelude::*;
use crate::buffer::{is_memory_image, Buffer, BufferUsage};
use crate::vertex::{vertex_words, ModelVertex};

verus! {

/// One sub-mesh as a model file describes it: flat component lists, each
/// component the bit pattern of a single-precision number.
#[derive(Debug)]
pub struct ParsedMesh {
    /// Three components for every vertex.
    pub positions: Vec<u32>,
    /// Two components for every vertex.
    pub texcoords: Vec<u32>,
    /// Three components for every vertex.
    pub normals: Vec<u32>,
    /// Three vertex numbers for every triangle.
    pub indices: Vec<u32>,
    /// Place of the mesh's material in the model's material list, if the file
    /// names one.
    pub material_id: Option<usize>,
}

impl ParsedMesh {
    /// Number of vertices: one for every three position components.
    pub open spec fn vertex_count(&self) -> int {
        self.positions@.len() as int / 3
    }

    /// Whether every vertex has a texture coordinate and a normal.
    pub open spec fn is_complete_spec(&self) -> bool {
        &&& 2 * self.vertex_count() <= self.texcoords@.len()
        &&& 3 * self.vertex_count() <= self.normals@.len()
    }

    /// Word `k` of the record of vertex `i`.
    pub open spec fn record_word(&self, i: int, k: int) -> u32 {
        if k < 3 {
            self.positions@[3 * i + k]
        } else if k < 5 {
            self.texcoords@[2 * i + (k - 3)]
        } else {
            self.normals@[3 * i + (k - 5)]
        }
    }

    /// The record of vertex `i`: position, texture coordinate, normal.
    pub open spec fn record(&self, i: int) -> Seq<u32> {
        Seq::new(8, |k: int| self.record_word(i, k))
    }

    /// All records, vertex after vertex.
    pub open spec fn record_words(&self) -> Seq<u32> {
        Seq::new((8 * self.vertex_count()) as nat, |j: int| self.record_word(j / 8, j % 8))
    }

    /// The material that the mesh is drawn with: the one named, else the first.
    pub open spec fn material_spec(&self) -> usize {
        match self.material_id {
            Some(k) => k,
            None => 0,
        }
    }

    pub fn is_complete(&self) -> (c: bool)
        ensures
            c == self.is_complete_spec(),
    {
        let n: usize = self.positions.len() / 3;
        self.texcoords.len() / 2 >= n && self.normals.len() / 3 >= n
    }

    /// The vertex records of the mesh, in the order of the file.
    pub fn vertices(&self) -> (v: Vec<ModelVertex>)
        requires
            self.is_complete_spec(),
        ensures
            v@.len() == self.vertex_count(),
            forall|i: int| 0 <= i < v@.len() ==> (#[trigger] v@[i]).words() == self.record(i),
    {
        let n: usize = self.positions.len() / 3;
        let mut v: Vec<ModelVertex> = Vec::new();
        let mut i: usize = 0;
        while i < n
            invariant
                n == self.vertex_count(),
                3 * n <= self.positions.len(),
                2 * n <= self.texcoords.len(),
                3 * n <= self.normals.len(),
                i <= n,
                v@.len() == i,
                forall|j: int| 0 <= j < i ==> (#[trigger] v@[j]).words() == self.record(j),
            decreases n - i,
        {
            let vertex = ModelVertex {
                position: [
                    self.positions[i * 3],
                    self.positions[i * 3 + 1],
                    self.positions[i * 3 + 2],
                ],
                tex_coords: [self.texcoords[i * 2], self.texcoords[i * 2 + 1]],
                normal: [self.normals[i * 3], self.normals[i * 3 + 1], self.normals[i * 3 + 2]],
            };
            assert(vertex.words() =~= self.record(i as int));
            v.push(vertex);
            i += 1;
        }
        v
    }
}

/// Lays vertex records out as words, record after record.
pub fn flatten(vertices: &Vec<ModelVertex>) -> (words: Vec<u32>)
    ensures
        words@ == vertex_words(vertices@),
{
    let mut words: Vec<u32> = Vec::new();
    let mut i: usize = 0;
    while i < vertices.len()
        invariant
            i <= vertices@.len(),
            words@.len() == 8 * i,
            forall|k: int| 0 <= k < 8 * i ==> #[trigger] words@[k] == vertices@[k / 8].words()[k % 8],
        decreases vertices@.len() - i,
    {
        let v = &vertices[i];
        words.push(v.position[0]);
        words.push(v.position[1]);
        words.push(v.position[2]);
        words.push(v.tex_coords[0]);
        words.push(v.tex_coords[1]);
        words.push(v.normal[0]);
        words.push(v.normal[1]);
        words.push(v.normal[2]);
        i += 1;
    }
    assert(words@ =~= vertex_words(vertices@));
    words
}

/// The records of the vertices of a mesh, flattened, are the mesh's words.
pub proof fn vertices_flatten_to_record_words(mesh: ParsedMesh, vertices: Seq<ModelVertex>)
    requires
        vertices.len() == mesh.vertex_count(),
        forall|i: int| 0 <= i < vertices.len() ==> (#[trigger] vertices[i]).words() == mesh.record(i),
    ensures
        vertex_words(vertices) == mesh.record_words(),
{
    assert forall|j: int| 0 <= j < 8 * vertices.len() implies vertex_words(vertices)[j]
        == mesh.record_words()[j] by {
        assert(vertices[j / 8].words() == mesh.record(j / 8));
    }
    assert(vertex_words(vertices) =~= mesh.record_words());
}

/// The number that a count of elements becomes when it is kept in 32 bits.
pub open spec fn low_32_bits(n: int) -> int {
    n % 0x1_0000_0000
}

/// Keeps the low 32 bits of a length, as the device's draw call counts
/// elements in 32 bits.
pub fn element_count(len: usize) -> (n: u32)
    ensures
        n == low_32_bits(len as int),
{
    let wide: u64 = len as u64;
    (wide % 0x1_0000_0000) as u32
}

/// One drawable part of a model, ready for the device.
#[derive(Debug)]
pub struct Mesh {
    pub name: String,
    pub vertex_buffer: Buffer,
    pub index_buffer: Buffer,
    pub num_elements: u32,
    pub material: usize,
}

impl Mesh {
    /// Whether this mesh is what `parsed` becomes under the name `file_name`.
    pub open spec fn built_from(&self, file_name: Seq<char>, parsed: ParsedMesh) -> bool {
        &&& self.name@ == file_name
        &&& is_memory_image(self.vertex_buffer.contents@, parsed.record_words())
        &&& self.vertex_buffer.usage == BufferUsage::Vertex
        &&& is_memory_image(self.index_buffer.contents@, parsed.indices@)
        &&& self.index_buffer.usage == BufferUsage::Index
        &&& self.num_elements == low_32_bits(parsed.indices@.len() as int)
        &&& self.material == parsed.material_spec()
    }

    pub fn new(file_name: String, m: ParsedMesh) -> (mesh: Self)
        requires
            m.is_complete_spec(),
        ensures
            mesh.built_from(file_name@, m),
    {
        let vertices = m.vertices();
        let words = flatten(&vertices);
        proof {
            vertices_flatten_to_record_words(m, vertices@);
        }
        let vertex_buffer = Buffer::from_words(&words, BufferUsage::Vertex);
        let index_buffer = Buffer::from_words(&m.indices, BufferUsage::Index);
        let num_elements: u32 = element_count(m.indices.len());
        let material: usize = match m.material_id {
            Some(k) => k,
            None => 0,
        };
        Mesh { name: file_name, vertex_buffer, index_buffer, num_elements, material }
    }
}

} // verus!
