use vstd::prelude::*;
use crate::buffer::is_memory_image;
use crate::camera::{CameraUniform, CAMERA_UNIFORM_SIZE};
use crate::instance::{orientation_of, Axis, Rotation, EIGHTH_TURN};
use crate::light::{LightUniform, LIGHT_UNIFORM_SIZE};
use crate::mesh::ParsedMesh;
use crate::model::Area3D;
use crate::surface::{clamp_dimension_spec, SurfaceConfiguration, MAX_SURFACE_DIMENSION};
use crate::vertex::{ModelVertex, VERTEX_STRIDE};
use crate::world::World;

verus! {

/// Once the instances follow the models, the instance buffer holds as many
/// records as there are models, and instance `i` stands where model `i` was
/// placed, turned as its placement says.
pub proof fn instances_follow_models(world: World)
    requires
        world.instances_match_models(),
        world.instance_buffer is Some,
    ensures
        world.instance_buffer->Some_0.instances == world.ctx.models@.len(),
        world.instances@.len() == world.ctx.models@.len(),
        forall|i: int|
            0 <= i < world.ctx.models@.len() ==> (#[trigger] world.instances@[i]).position
                == world.ctx.models@[i].area && world.instances@[i].rotation == orientation_of(
                world.ctx.models@[i].area,
            ),
{
}

/// A model at the origin is not turned at all; any other is turned by an
/// eighth of a turn about the direction of its placement.
pub proof fn orientation_by_placement(area: Area3D)
    ensures
        area.is_zero_spec() ==> orientation_of(area).is_identity(),
        !area.is_zero_spec() ==> orientation_of(area) == (Rotation {
            axis: Axis::Normalized(area),
            degrees: EIGHTH_TURN,
        }),
        !area.is_zero_spec() ==> !orientation_of(area).is_identity(),
{
}

/// A request for a size with an empty side leaves the configuration as it
/// is.
pub proof fn empty_size_changes_nothing(config: SurfaceConfiguration, width: u32, height: u32)
    requires
        width == 0 || height == 0,
    ensures
        config.configured(width, height) == config,
{
}

/// A request for any other size sets each side to the smaller of what was
/// asked for and the largest configured, and leaves the rest as it is.
pub proof fn size_is_clamped(config: SurfaceConfiguration, width: u32, height: u32)
    requires
        width > 0,
        height > 0,
    ensures
        config.configured(width, height).width == vstd::math::min(
            width as int,
            MAX_SURFACE_DIMENSION as int,
        ),
        config.configured(width, height).height == vstd::math::min(
            height as int,
            MAX_SURFACE_DIMENSION as int,
        ),
        config.configured(width, height).width > 0,
        config.configured(width, height).height > 0,
        config.configured(width, height).format == config.format,
        config.configured(width, height).usage == config.usage,
        config.configured(width, height).present_mode == config.present_mode,
{
}

/// Asking twice for the same size is the same as asking once.
pub proof fn configuring_is_idempotent(config: SurfaceConfiguration, width: u32, height: u32)
    ensures
        config.configured(width, height).configured(width, height) == config.configured(
            width,
            height,
        ),
        clamp_dimension_spec(clamp_dimension_spec(width)) == clamp_dimension_spec(width),
{
}

/// A mesh that names no material is drawn with the first one.
pub proof fn unnamed_material_is_first(mesh: ParsedMesh)
    requires
        mesh.material_id is None,
    ensures
        mesh.material_spec() == 0,
{
}

/// A surface without an empty side stays without one, whatever size is
/// asked for.
pub proof fn surface_stays_nonempty(config: SurfaceConfiguration, width: u32, height: u32)
    requires
        config.width > 0,
        config.height > 0,
    ensures
        config.configured(width, height).width > 0,
        config.configured(width, height).height > 0,
{
}

/// The light's block fills 32 bytes, a multiple of 16: the position starts
/// at byte 0 and the colour at byte 16, each followed by one word of
/// padding.
pub proof fn light_block_is_aligned(light: LightUniform, bytes: Seq<u8>)
    requires
        is_memory_image(bytes, light.words()),
    ensures
        bytes.len() == LIGHT_UNIFORM_SIZE,
        LIGHT_UNIFORM_SIZE % 16 == 0,
        light.words().subrange(0, 3) == light.position@,
        light.words()[3] == light._padding,
        light.words().subrange(4, 7) == light.color@,
        light.words()[7] == light._padding2,
{
    assert(light.words().subrange(0, 3) =~= light.position@);
    assert(light.words().subrange(4, 7) =~= light.color@);
}

/// The camera's block fills 64 bytes, a multiple of 16.
pub proof fn camera_block_is_aligned(camera: CameraUniform, bytes: Seq<u8>)
    requires
        is_memory_image(bytes, camera.words()),
    ensures
        bytes.len() == CAMERA_UNIFORM_SIZE,
        CAMERA_UNIFORM_SIZE % 16 == 0,
{
}

/// A vertex record fills 32 bytes: three words of position, two of texture
/// coordinate and three of normal.
pub proof fn vertex_record_fills_its_stride(vertex: ModelVertex, bytes: Seq<u8>)
    requires
        is_memory_image(bytes, vertex.words()),
    ensures
        bytes.len() == VERTEX_STRIDE,
        vertex.words().subrange(0, 3) == vertex.position@,
        vertex.words().subrange(3, 5) == vertex.tex_coords@,
        vertex.words().subrange(5, 8) == vertex.normal@,
{
    assert(vertex.words().subrange(0, 3) =~= vertex.position@);
    assert(vertex.words().subrange(3, 5) =~= vertex.tex_coords@);
    assert(vertex.words().subrange(5, 8) =~= vertex.normal@);
}

} // verus!
