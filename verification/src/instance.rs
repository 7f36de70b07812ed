use vstd::prelude::*;
use crate::buffer::{is_memory_image, Buffer, BufferUsage};
use crate::model::Area3D;
use crate::vertex::{Vertex, VertexAttribute, VertexBufferLayout, VertexFormat, VertexStepMode};

verus! {

/// Bit pattern of the single-precision number 0: no turn at all.
pub const NO_TURN: u32 = 0x0000_0000;

/// Bit pattern of the single-precision number 45: an eighth of a full turn,
/// in degrees.
pub const EIGHTH_TURN: u32 = 0x4234_0000;

/// The line that a rotation turns about.
#[derive(Clone, Copy, Debug, PartialEq, Eq, Structural)]
pub enum Axis {
    /// The z axis.
    UnitZ,
    /// The direction of the given vector, scaled to length one.
    Normalized(Area3D),
}

/// A rotation about an axis. The angle is the bit pattern of a
/// single-precision number of degrees.
#[derive(Clone, Copy, Debug, PartialEq, Eq, Structural)]
pub struct Rotation {
    pub axis: Axis,
    pub degrees: u32,
}

impl Rotation {
    /// Whether the rotation leaves everything where it is.
    pub open spec fn is_identity(&self) -> bool {
        self.degrees == NO_TURN
    }
}

/// Where a model stands and how it is turned.
#[derive(Clone, Copy, Debug, PartialEq, Eq, Structural)]
pub struct Instance {
    pub position: Area3D,
    pub rotation: Rotation,
}

/// The orientation that a placement gives: none at the origin, and else an
/// eighth of a turn about the direction of the placement.
pub open spec fn orientation_of(area: Area3D) -> Rotation {
    if area.is_zero_spec() {
        Rotation { axis: Axis::UnitZ, degrees: NO_TURN }
    } else {
        Rotation { axis: Axis::Normalized(area), degrees: EIGHTH_TURN }
    }
}

/// The instance of a model placed at `area`.
pub open spec fn instance_of(area: Area3D) -> Instance {
    Instance { position: area, rotation: orientation_of(area) }
}

impl Instance {
    /// The instance of a model placed at `area`.
    pub fn at(area: Area3D) -> (instance: Self)
        ensures
            instance == instance_of(area),
    {
        let rotation = if area.is_zero() {
            Rotation { axis: Axis::UnitZ, degrees: NO_TURN }
        } else {
            Rotation { axis: Axis::Normalized(area), degrees: EIGHTH_TURN }
        };
        Instance { position: area, rotation }
    }
}

/// Number of bytes in one instance record: a 4 by 4 model matrix and a 3 by 3
/// normal matrix of single-precision numbers.
pub const INSTANCE_STRIDE: u64 = 100;

/// The record that the device reads for one instance.
#[derive(Clone, Copy, Debug)]
pub struct InstanceRaw {
    pub model: [[u32; 4]; 4],
    pub normal: [[u32; 3]; 3],
}

impl InstanceRaw {
    /// The attributes of an instance record: the four columns of the model
    /// matrix, then the three columns of the normal matrix.
    pub open spec fn attributes() -> Seq<VertexAttribute> {
        seq![
            VertexAttribute { offset: 0, shader_location: 5, format: VertexFormat::Float32x4 },
            VertexAttribute { offset: 16, shader_location: 6, format: VertexFormat::Float32x4 },
            VertexAttribute { offset: 32, shader_location: 7, format: VertexFormat::Float32x4 },
            VertexAttribute { offset: 48, shader_location: 8, format: VertexFormat::Float32x4 },
            VertexAttribute { offset: 64, shader_location: 9, format: VertexFormat::Float32x3 },
            VertexAttribute { offset: 76, shader_location: 10, format: VertexFormat::Float32x3 },
            VertexAttribute { offset: 88, shader_location: 11, format: VertexFormat::Float32x3 },
        ]
    }

    /// The record as the device reads it: the model matrix column after
    /// column, then the normal matrix column after column.
    pub open spec fn words(&self) -> Seq<u32> {
        Seq::new(
            25,
            |k: int|
                if k < 16 {
                    self.model[k / 4][k % 4]
                } else {
                    self.normal[(k - 16) / 3][(k - 16) % 3]
                },
        )
    }

    /// Appends the record's words to `words`.
    pub fn write_to(&self, words: &mut Vec<u32>)
        ensures
            final(words)@ == old(words)@ + self.words(),
    {
        let mut c: usize = 0;
        while c < 4
            invariant
                c <= 4,
                words@.len() == old(words)@.len() + 4 * c,
                forall|k: int| 0 <= k < old(words)@.len() ==> words@[k] == old(words)@[k],
                forall|k: int|
                    0 <= k < 4 * c ==> #[trigger] words@[old(words)@.len() + k] == self.words()[k],
            decreases 4 - c,
        {
            let column = &self.model[c];
            words.push(column[0]);
            words.push(column[1]);
            words.push(column[2]);
            words.push(column[3]);
            c += 1;
        }
        c = 0;
        while c < 3
            invariant
                c <= 3,
                words@.len() == old(words)@.len() + 16 + 3 * c,
                forall|k: int| 0 <= k < old(words)@.len() ==> words@[k] == old(words)@[k],
                forall|k: int|
                    0 <= k < 16 + 3 * c ==> #[trigger] words@[old(words)@.len() + k]
                        == self.words()[k],
            decreases 3 - c,
        {
            let column = &self.normal[c];
            words.push(column[0]);
            words.push(column[1]);
            words.push(column[2]);
            c += 1;
        }
        assert(words@ =~= old(words)@ + self.words()) by {
            assert forall|k: int| 0 <= k < words@.len() implies words@[k] == (old(words)@
                + self.words())[k] by {
                if k >= old(words)@.len() {
                    assert(words@[old(words)@.len() + (k - old(words)@.len())] == self.words()[k
                        - old(words)@.len()]);
                }
            }
        }
    }

    /// The instance buffer for the given records: their words, record after
    /// record.
    pub fn pack(records: &Vec<InstanceRaw>) -> (buffer: Buffer)
        ensures
            is_memory_image(buffer.contents@, instance_words(records@)),
            buffer.usage == BufferUsage::Vertex,
            buffer.contents@.len() == INSTANCE_STRIDE * records@.len(),
    {
        let mut words: Vec<u32> = Vec::new();
        let mut i: usize = 0;
        assert(records@.take(0) =~= Seq::<InstanceRaw>::empty());
        while i < records.len()
            invariant
                i <= records@.len(),
                words@ == instance_words(records@.take(i as int)),
                words@.len() == 25 * i,
            decreases records@.len() - i,
        {
            records[i].write_to(&mut words);
            proof {
                assert(records@.take(i + 1).drop_last() =~= records@.take(i as int));
            }
            i += 1;
        }
        assert(records@.take(i as int) =~= records@);
        Buffer::from_words(&words, BufferUsage::Vertex)
    }
}

impl Vertex for InstanceRaw {
    fn desc() -> (layout: VertexBufferLayout)
        ensures
            layout.array_stride == INSTANCE_STRIDE,
            layout.step_mode == VertexStepMode::Instance,
            layout.attributes@ == InstanceRaw::attributes(),
            layout.well_formed(5),
    {
        let mut attributes: Vec<VertexAttribute> = Vec::new();
        let mut column: u32 = 0;
        while column < 4
            invariant
                column <= 4,
                attributes@.len() == column,
                forall|i: int|
                    0 <= i < column ==> #[trigger] attributes@[i] == InstanceRaw::attributes()[i],
            decreases 4 - column,
        {
            attributes.push(
                VertexAttribute {
                    offset: 16 * (column as u64),
                    shader_location: 5 + column,
                    format: VertexFormat::Float32x4,
                },
            );
            column += 1;
        }
        column = 0;
        while column < 3
            invariant
                column <= 3,
                attributes@.len() == 4 + column,
                forall|i: int|
                    0 <= i < 4 + column ==> #[trigger] attributes@[i] == InstanceRaw::attributes()[i],
            decreases 3 - column,
        {
            attributes.push(
                VertexAttribute {
                    offset: 64 + 12 * (column as u64),
                    shader_location: 9 + column,
                    format: VertexFormat::Float32x3,
                },
            );
            column += 1;
        }
        assert(attributes@ =~= InstanceRaw::attributes());
        VertexBufferLayout {
            array_stride: INSTANCE_STRIDE,
            step_mode: VertexStepMode::Instance,
            attributes,
        }
    }
}

/// The words of a run of instance records, record after record.
pub open spec fn instance_words(records: Seq<InstanceRaw>) -> Seq<u32>
    decreases records.len(),
{
    if records.len() == 0 {
        Seq::empty()
    } else {
        instance_words(records.drop_last()) + records.last().words()
    }
}

} // verus!
