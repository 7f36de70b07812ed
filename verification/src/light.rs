use vstd::prelude::*;
use crate::binding::{entries_match, uniform_group_entries, uniform_layout_entries, BindGroup, Uniform};
use crate::buffer::{is_memory_image, Buffer, BufferUsage};
use crate::color::Color;
use crate::model::Area3D;
use crate::pipeline::RenderPipelineDescriptor;

verus! {

/// The light as the shaders read it: position and colour, each followed by
/// one word of padding so that both start on a 16-byte boundary. Every
/// component is the bit pattern of a single-precision number.
#[derive(Clone, Copy, Debug)]
pub struct LightUniform {
    pub position: [u32; 3],
    pub _padding: u32,
    pub color: [u32; 3],
    pub _padding2: u32,
}

/// Number of bytes in the light's uniform block.
pub const LIGHT_UNIFORM_SIZE: usize = 32;

impl LightUniform {
    /// The block as the device reads it, word after word.
    pub open spec fn words(&self) -> Seq<u32> {
        seq![
            self.position[0],
            self.position[1],
            self.position[2],
            self._padding,
            self.color[0],
            self.color[1],
            self.color[2],
            self._padding2,
        ]
    }

    pub fn new(position: Area3D, color: Color) -> (light: Self)
        ensures
            light.position@ == position.coordinates(),
            light.color@ == color.channels(),
            light._padding == 0,
            light._padding2 == 0,
    {
        LightUniform { position: position.position(), _padding: 0, color: color.color(), _padding2: 0 }
    }

    /// The block as words, in the order in which the device reads them.
    pub fn to_words(&self) -> (words: Vec<u32>)
        ensures
            words@ == self.words(),
    {
        let mut words: Vec<u32> = Vec::new();
        words.push(self.position[0]);
        words.push(self.position[1]);
        words.push(self.position[2]);
        words.push(self._padding);
        words.push(self.color[0]);
        words.push(self.color[1]);
        words.push(self.color[2]);
        words.push(self._padding2);
        assert(words@ =~= self.words());
        words
    }

    /// The bytes that the light's buffer holds for this block.
    pub fn to_bytes(&self) -> (bytes: Vec<u8>)
        ensures
            is_memory_image(bytes@, self.words()),
            bytes@.len() == LIGHT_UNIFORM_SIZE,
    {
        let words = self.to_words();
        Buffer::from_words(&words, BufferUsage::UniformCopyDst).contents
    }
}

/// All that belongs to the light: its uniform block, the buffer that holds
/// the block on the device, the binding set that shows the buffer and the
/// pipeline that draws with the light alone.
#[derive(Debug)]
pub struct Context {
    pub uniform: LightUniform,
    pub buffer: Buffer,
    pub bind_group: BindGroup,
    pub render_pipeline: RenderPipelineDescriptor,
}

impl Context {
    /// Whether the buffer is a uniform buffer of the block's size and the
    /// binding set shows the light's buffer in slot 0.
    pub open spec fn well_formed(&self) -> bool {
        &&& self.buffer.usage == BufferUsage::UniformCopyDst
        &&& self.buffer.contents@.len() == LIGHT_UNIFORM_SIZE
        &&& self.bind_group.entries@ == uniform_group_entries(Uniform::Light)
        &&& entries_match(self.bind_group.entries@, uniform_layout_entries())
    }

    /// Whether these are the parts of a light at `position` with the given
    /// colour whose buffer holds its block.
    pub open spec fn is_initial(&self, position: Area3D, color: Color) -> bool {
        &&& self.uniform.position@ == position.coordinates()
        &&& self.uniform.color@ == color.channels()
        &&& self.uniform._padding == 0
        &&& self.uniform._padding2 == 0
        &&& is_memory_image(self.buffer.contents@, self.uniform.words())
    }

    /// The light's parts for a light at `position` with the given colour:
    /// the block, a buffer that holds it, the binding set of the buffer and
    /// the given pipeline.
    pub fn initial(position: Area3D, color: Color, pipeline: RenderPipelineDescriptor) -> (ctx: Self)
        ensures
            ctx.well_formed(),
            ctx.is_initial(position, color),
            ctx.render_pipeline == pipeline,
    {
        let uniform = LightUniform::new(position, color);
        let words = uniform.to_words();
        let buffer = Buffer::from_words(&words, BufferUsage::UniformCopyDst);
        Context::new(uniform, buffer, BindGroup::uniform(Uniform::Light), pipeline)
    }

    pub fn new(
        lu: LightUniform,
        lb: Buffer,
        lbg: BindGroup,
        lrp: RenderPipelineDescriptor,
    ) -> (ctx: Self)
        ensures
            ctx.uniform == lu,
            ctx.buffer == lb,
            ctx.bind_group == lbg,
            ctx.render_pipeline == lrp,
    {
        Context { uniform: lu, buffer: lb, bind_group: lbg, render_pipeline: lrp }
    }
}

} // verus!
