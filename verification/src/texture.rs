use vstd::prelude::*;
use crate::context::Context;

verus! {

/// How the texels of a texture are stored.
#[derive(Clone, Copy, Debug, PartialEq, Eq, Structural)]
pub enum TextureFormat {
    /// Whatever format the surface was created with.
    Surface,
    /// One single-precision depth value per texel.
    Depth32Float,
    /// Red, green, blue and alpha, one byte each, colours in sRGB.
    Rgba8UnormSrgb,
}

/// What a texture may be used for.
#[derive(Clone, Copy, Debug, PartialEq, Eq, Structural)]
pub struct TextureUsages {
    pub render_attachment: bool,
    pub texture_binding: bool,
    pub copy_dst: bool,
}

/// Number of dimensions of a texture.
#[derive(Clone, Copy, Debug, PartialEq, Eq, Structural)]
pub enum TextureDimension {
    D2,
}

/// Size of a texture in texels.
#[derive(Clone, Copy, Debug, PartialEq, Eq, Structural)]
pub struct Extent3d {
    pub width: u32,
    pub height: u32,
    pub depth_or_array_layers: u32,
}

/// What a sampler returns for coordinates outside the texture.
#[derive(Clone, Copy, Debug, PartialEq, Eq, Structural)]
pub enum AddressMode {
    ClampToEdge,
}

/// How a sampler chooses between neighbouring texels.
#[derive(Clone, Copy, Debug, PartialEq, Eq, Structural)]
pub enum FilterMode {
    Nearest,
    Linear,
}

/// A comparison between two depth values.
#[derive(Clone, Copy, Debug, PartialEq, Eq, Structural)]
pub enum CompareFunction {
    Less,
    LessEqual,
}

/// Bit pattern of the single-precision number 0.
pub const LOD_ZERO: u32 = 0x0000_0000;

/// Bit pattern of the largest finite single-precision number.
pub const LOD_UNBOUNDED: u32 = 0x7F7F_FFFF;

/// Bit pattern of the single-precision number -100.
pub const LOD_MINUS_HUNDRED: u32 = 0xC2C8_0000;

/// Bit pattern of the single-precision number 100.
pub const LOD_HUNDRED: u32 = 0x42C8_0000;

/// How a texture is sampled. The two level-of-detail bounds are bit patterns
/// of single-precision numbers.
#[derive(Clone, Copy, Debug, PartialEq, Eq, Structural)]
pub struct SamplerDescriptor {
    pub address_mode_u: AddressMode,
    pub address_mode_v: AddressMode,
    pub address_mode_w: AddressMode,
    pub mag_filter: FilterMode,
    pub min_filter: FilterMode,
    pub mipmap_filter: FilterMode,
    pub lod_min_clamp: u32,
    pub lod_max_clamp: u32,
    pub compare: Option<CompareFunction>,
}

/// A texture to create on the device.
#[derive(Debug)]
pub struct TextureDescriptor {
    pub label: Option<String>,
    pub size: Extent3d,
    pub mip_level_count: u32,
    pub sample_count: u32,
    pub dimension: TextureDimension,
    pub format: TextureFormat,
    pub usage: TextureUsages,
}

/// Where the rows of an image lie in the bytes that hold it. A count of zero
/// is kept as `None`.
#[derive(Clone, Copy, Debug, PartialEq, Eq, Structural)]
pub struct ImageDataLayout {
    pub offset: u64,
    pub bytes_per_row: Option<u32>,
    pub rows_per_image: Option<u32>,
}

/// Texels to write into a texture right after it is created.
#[derive(Debug)]
pub struct TextureWrite {
    pub data: Vec<u8>,
    pub layout: ImageDataLayout,
    pub size: Extent3d,
}

/// A texture with the sampler it is read through and, for an image, the
/// texels it starts out with.
#[derive(Debug)]
pub struct Texture {
    pub texture: TextureDescriptor,
    pub sampler: SamplerDescriptor,
    pub contents: Option<TextureWrite>,
}

/// A count, or `None` for zero.
pub open spec fn nonzero(n: u32) -> Option<u32> {
    if n == 0 {
        None
    } else {
        Some(n)
    }
}

/// The sampler of a depth buffer: linear filtering, a less-or-equal
/// comparison, detail levels from -100 to 100.
pub open spec fn depth_sampler() -> SamplerDescriptor {
    SamplerDescriptor {
        address_mode_u: AddressMode::ClampToEdge,
        address_mode_v: AddressMode::ClampToEdge,
        address_mode_w: AddressMode::ClampToEdge,
        mag_filter: FilterMode::Linear,
        min_filter: FilterMode::Linear,
        mipmap_filter: FilterMode::Nearest,
        lod_min_clamp: LOD_MINUS_HUNDRED,
        lod_max_clamp: LOD_HUNDRED,
        compare: Some(CompareFunction::LessEqual),
    }
}

/// The sampler of an image: linear when magnified, nearest when minified and
/// between detail levels, clamped to the edge on every axis.
pub open spec fn image_sampler() -> SamplerDescriptor {
    SamplerDescriptor {
        address_mode_u: AddressMode::ClampToEdge,
        address_mode_v: AddressMode::ClampToEdge,
        address_mode_w: AddressMode::ClampToEdge,
        mag_filter: FilterMode::Linear,
        min_filter: FilterMode::Nearest,
        mipmap_filter: FilterMode::Nearest,
        lod_min_clamp: LOD_ZERO,
        lod_max_clamp: LOD_UNBOUNDED,
        compare: None,
    }
}

impl Texture {
    /// Whether this is a depth buffer of the given size under the given label.
    pub open spec fn is_depth_texture(&self, width: u32, height: u32, label: Seq<char>) -> bool {
        &&& self.texture.label matches Some(l) && l@ == label
        &&& self.texture.size == Extent3d { width, height, depth_or_array_layers: 1 }
        &&& self.texture.mip_level_count == 1
        &&& self.texture.sample_count == 1
        &&& self.texture.dimension == TextureDimension::D2
        &&& self.texture.format == TextureFormat::Depth32Float
        &&& self.texture.usage == TextureUsages {
            render_attachment: true,
            texture_binding: true,
            copy_dst: false,
        }
        &&& self.sampler == depth_sampler()
        &&& self.contents is None
    }

    /// Whether this is the texture of an image of the given size and texels.
    pub open spec fn is_image_texture(
        &self,
        width: u32,
        height: u32,
        rgba: Seq<u8>,
        label: Option<Seq<char>>,
    ) -> bool {
        &&& match label {
            Some(text) => self.texture.label matches Some(l) && l@ == text,
            None => self.texture.label is None,
        }
        &&& self.texture.size == Extent3d { width, height, depth_or_array_layers: 1 }
        &&& self.texture.mip_level_count == 1
        &&& self.texture.sample_count == 1
        &&& self.texture.dimension == TextureDimension::D2
        &&& self.texture.format == TextureFormat::Rgba8UnormSrgb
        &&& self.texture.usage == TextureUsages {
            render_attachment: false,
            texture_binding: true,
            copy_dst: true,
        }
        &&& self.sampler == image_sampler()
        &&& self.contents matches Some(write) && write.data@ == rgba && write.size
            == self.texture.size && write.layout == ImageDataLayout {
            offset: 0,
            bytes_per_row: nonzero((4 * width) as u32),
            rows_per_image: nonzero(height),
        }
    }

    /// Describes the depth buffer that goes with a surface configuration: a
    /// texture of the surface's width and height.
    pub fn create_depth_texture(ctx: &Context, label: &str) -> (t: Self)
        ensures
            t.is_depth_texture(ctx.config.width, ctx.config.height, label@),
    {
        let config = &ctx.config;
        let size = Extent3d { width: config.width, height: config.height, depth_or_array_layers: 1 };
        let texture = TextureDescriptor {
            label: Some(label.to_owned()),
            size,
            mip_level_count: 1,
            sample_count: 1,
            dimension: TextureDimension::D2,
            format: TextureFormat::Depth32Float,
            usage: TextureUsages { render_attachment: true, texture_binding: true, copy_dst: false },
        };
        let sampler = SamplerDescriptor {
            address_mode_u: AddressMode::ClampToEdge,
            address_mode_v: AddressMode::ClampToEdge,
            address_mode_w: AddressMode::ClampToEdge,
            mag_filter: FilterMode::Linear,
            min_filter: FilterMode::Linear,
            mipmap_filter: FilterMode::Nearest,
            lod_min_clamp: LOD_MINUS_HUNDRED,
            lod_max_clamp: LOD_HUNDRED,
            compare: Some(CompareFunction::LessEqual),
        };
        Texture { texture, sampler, contents: None }
    }

    /// Describes the texture of an image given as rows of RGBA texels, top
    /// row first, together with the write that fills it.
    pub fn from_rgba8(width: u32, height: u32, rgba: Vec<u8>, label: Option<&str>) -> (t: Self)
        requires
            4 * width <= u32::MAX,
        ensures
            t.is_image_texture(
                width,
                height,
                rgba@,
                match label {
                    Some(text) => Some(text@),
                    None => None,
                },
            ),
    {
        let size = Extent3d { width, height, depth_or_array_layers: 1 };
        let label: Option<String> = match label {
            Some(text) => Some(text.to_owned()),
            None => None,
        };
        let texture = TextureDescriptor {
            label,
            size,
            mip_level_count: 1,
            sample_count: 1,
            dimension: TextureDimension::D2,
            format: TextureFormat::Rgba8UnormSrgb,
            usage: TextureUsages { render_attachment: false, texture_binding: true, copy_dst: true },
        };
        let row: u32 = 4 * width;
        let layout = ImageDataLayout {
            offset: 0,
            bytes_per_row: if row == 0 { None } else { Some(row) },
            rows_per_image: if height == 0 { None } else { Some(height) },
        };
        let sampler = SamplerDescriptor {
            address_mode_u: AddressMode::ClampToEdge,
            address_mode_v: AddressMode::ClampToEdge,
            address_mode_w: AddressMode::ClampToEdge,
            mag_filter: FilterMode::Linear,
            min_filter: FilterMode::Nearest,
            mipmap_filter: FilterMode::Nearest,
            lod_min_clamp: LOD_ZERO,
            lod_max_clamp: LOD_UNBOUNDED,
            compare: None,
        };
        Texture { texture, sampler, contents: Some(TextureWrite { data: rgba, layout, size }) }
    }
}

} // verus!
