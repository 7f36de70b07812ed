use scene_renderer::context::Context;
use scene_renderer::binding::BindGroupLayout;
use scene_renderer::decode::{is_uploadable, ResourceError};
use scene_renderer::surface::{PresentMode, SurfaceConfiguration};
use scene_renderer::texture::{
    AddressMode, CompareFunction, Extent3d, FilterMode, ImageDataLayout, Texture,
    TextureDimension, TextureFormat, TextureUsages,
};

fn config(width: u32, height: u32) -> SurfaceConfiguration {
    SurfaceConfiguration {
        usage: TextureUsages { render_attachment: true, texture_binding: false, copy_dst: false },
        format: TextureFormat::Surface,
        width,
        height,
        present_mode: PresentMode::Fifo,
    }
}

fn png(width: u32, height: u32, pixel: [u8; 4]) -> Vec<u8> {
    let buffer = image::RgbaImage::from_pixel(width, height, image::Rgba(pixel));
    let mut bytes = Vec::new();
    image::DynamicImage::ImageRgba8(buffer)
        .write_to(&mut std::io::Cursor::new(&mut bytes), image::ImageOutputFormat::Png)
        .unwrap();
    bytes
}

#[test]
fn depth_texture_has_the_size_of_the_surface() {
    let ctx = Context::new(BindGroupLayout::texture(), config(800, 600));
    let depth = Texture::create_depth_texture(&ctx, "depth_texture");
    assert_eq!(depth.texture.label.as_deref(), Some("depth_texture"));
    assert_eq!(depth.texture.size, Extent3d { width: 800, height: 600, depth_or_array_layers: 1 });
    assert_eq!(depth.texture.mip_level_count, 1);
    assert_eq!(depth.texture.sample_count, 1);
    assert_eq!(depth.texture.dimension, TextureDimension::D2);
    assert_eq!(depth.texture.format, TextureFormat::Depth32Float);
    assert_eq!(
        depth.texture.usage,
        TextureUsages { render_attachment: true, texture_binding: true, copy_dst: false }
    );
    assert!(depth.contents.is_none());
    assert_eq!(depth.sampler.mag_filter, FilterMode::Linear);
    assert_eq!(depth.sampler.min_filter, FilterMode::Linear);
    assert_eq!(depth.sampler.mipmap_filter, FilterMode::Nearest);
    assert_eq!(depth.sampler.compare, Some(CompareFunction::LessEqual));
    assert_eq!(f32::from_bits(depth.sampler.lod_min_clamp), -100.0);
    assert_eq!(f32::from_bits(depth.sampler.lod_max_clamp), 100.0);
}

#[test]
fn image_texture_from_rgba8() {
    let rgba: Vec<u8> = (0u8..24).collect();
    let texture = Texture::from_rgba8(3, 2, rgba.clone(), Some("tiles.png"));
    assert_eq!(texture.texture.label.as_deref(), Some("tiles.png"));
    assert_eq!(texture.texture.size, Extent3d { width: 3, height: 2, depth_or_array_layers: 1 });
    assert_eq!(texture.texture.format, TextureFormat::Rgba8UnormSrgb);
    assert_eq!(
        texture.texture.usage,
        TextureUsages { render_attachment: false, texture_binding: true, copy_dst: true }
    );
    assert_eq!(texture.texture.mip_level_count, 1);
    assert_eq!(texture.texture.sample_count, 1);
    let write = texture.contents.unwrap();
    assert_eq!(write.data, rgba);
    assert_eq!(write.size, Extent3d { width: 3, height: 2, depth_or_array_layers: 1 });
    assert_eq!(
        write.layout,
        ImageDataLayout { offset: 0, bytes_per_row: Some(12), rows_per_image: Some(2) }
    );
    assert_eq!(texture.sampler.address_mode_u, AddressMode::ClampToEdge);
    assert_eq!(texture.sampler.address_mode_v, AddressMode::ClampToEdge);
    assert_eq!(texture.sampler.address_mode_w, AddressMode::ClampToEdge);
    assert_eq!(texture.sampler.mag_filter, FilterMode::Linear);
    assert_eq!(texture.sampler.min_filter, FilterMode::Nearest);
    assert_eq!(texture.sampler.mipmap_filter, FilterMode::Nearest);
    assert_eq!(texture.sampler.compare, None);
    assert_eq!(f32::from_bits(texture.sampler.lod_min_clamp), 0.0);
    assert_eq!(f32::from_bits(texture.sampler.lod_max_clamp), f32::MAX);
}

#[test]
fn empty_image_has_no_row_counts() {
    let texture = Texture::from_rgba8(0, 0, Vec::new(), None);
    assert_eq!(texture.texture.label, None);
    let write = texture.contents.unwrap();
    assert_eq!(
        write.layout,
        ImageDataLayout { offset: 0, bytes_per_row: None, rows_per_image: None }
    );
}

#[test]
fn texture_from_encoded_bytes() {
    let bytes = png(2, 3, [10, 20, 30, 255]);
    let texture = Texture::from_bytes(&bytes, "wall.png").unwrap();
    assert_eq!(texture.texture.label.as_deref(), Some("wall.png"));
    assert_eq!(texture.texture.size, Extent3d { width: 2, height: 3, depth_or_array_layers: 1 });
    let write = texture.contents.unwrap();
    assert_eq!(write.data.len(), 24);
    assert_eq!(&write.data[0..4], &[10, 20, 30, 255]);
    assert_eq!(&write.data[20..24], &[10, 20, 30, 255]);
    assert_eq!(
        write.layout,
        ImageDataLayout { offset: 0, bytes_per_row: Some(8), rows_per_image: Some(3) }
    );
}

#[test]
fn texture_from_image_converts_to_rgba() {
    let gray = image::GrayImage::from_pixel(2, 1, image::Luma([7]));
    let img = image::DynamicImage::ImageLuma8(gray);
    let texture = Texture::from_image(&img, None).unwrap();
    assert_eq!(texture.texture.label, None);
    assert_eq!(texture.texture.size, Extent3d { width: 2, height: 1, depth_or_array_layers: 1 });
    assert_eq!(texture.contents.unwrap().data, vec![7, 7, 7, 255, 7, 7, 7, 255]);
}

#[test]
fn bytes_that_are_no_image_are_undecodable() {
    let r = Texture::from_bytes(b"this is not an image", "noise.png");
    assert_eq!(r.err(), Some(ResourceError::Undecodable));
    let ctx = Context::new(BindGroupLayout::texture(), config(4, 4));
    assert_eq!(ctx.load_texture(&[], "empty.png").err(), Some(ResourceError::Undecodable));
}

#[test]
fn decoder_failure_maps_to_undecodable() {
    let decoded = image::load_from_memory(&[0, 1, 2, 3]);
    assert!(decoded.is_err());
    assert_eq!(Texture::from_decoded(decoded, "x").err(), Some(ResourceError::Undecodable));
}

#[test]
fn image_too_wide_for_a_row_count_is_oversized() {
    let img = image::DynamicImage::new_luma8(0x4000_0000, 0);
    assert_eq!(Texture::from_image(&img, Some("wide")).err(), Some(ResourceError::Oversized));
    assert!(!is_uploadable(0x4000_0000, 0));
    assert!(is_uploadable(0x3FFF_FFFF, 0));
    assert!(is_uploadable(8192, 8192));
}

#[test]
fn load_texture_labels_with_the_file_name() {
    let ctx = Context::new(BindGroupLayout::texture(), config(4, 4));
    let texture = ctx.load_texture(&png(1, 1, [1, 2, 3, 4]), "dot.png").unwrap();
    assert_eq!(texture.texture.label.as_deref(), Some("dot.png"));
    assert_eq!(texture.contents.unwrap().data, vec![1, 2, 3, 4]);
}
