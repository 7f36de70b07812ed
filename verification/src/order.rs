use vstd::prelude::*;
use crate::command::{
    frame_commands, light_mesh_commands, main_mesh_commands, mesh_commands, model_commands,
    pass_commands, scene_commands, BindGroupRef, Command, MeshDraw, PipelineId, VertexSource,
};
use crate::model::Model;
use crate::pipeline::{light_layouts, main_layouts, LayoutId};
use crate::world::scene_view;

verus! {

/// Whether every model and every mesh of a scene can be counted in `usize`,
/// as those of loaded models can.
pub open spec fn countable(models: Seq<Seq<MeshDraw>>) -> bool {
    &&& models.len() <= usize::MAX
    &&& forall|m: int| 0 <= m < models.len() ==> (#[trigger] models[m]).len() <= usize::MAX
}

/// Whether `c` is the command at place `o` among those that draw mesh `j` of
/// model `m`.
pub open spec fn draws_mesh(
    pipeline: PipelineId,
    models: Seq<Seq<MeshDraw>>,
    m: int,
    j: int,
    o: int,
    c: Command,
) -> bool {
    &&& 0 <= m < models.len()
    &&& 0 <= j < models[m].len()
    &&& 0 <= o < mesh_commands(pipeline, m as usize, j as usize, models[m][j]).len()
    &&& c == mesh_commands(pipeline, m as usize, j as usize, models[m][j])[o]
}

/// Whether `c` is one of the commands that draw some mesh of the scene.
pub open spec fn draws_some_mesh(pipeline: PipelineId, models: Seq<Seq<MeshDraw>>, c: Command) -> bool {
    exists|m: int, j: int, o: int| draws_mesh(pipeline, models, m, j, o, c)
}

/// Every command of a model's pass draws one of the model's meshes.
pub proof fn model_commands_draw_meshes(
    pipeline: PipelineId,
    models: Seq<Seq<MeshDraw>>,
    m: int,
    upto: int,
    k: int,
)
    requires
        countable(models),
        0 <= m < models.len(),
        0 <= upto <= models[m].len(),
        0 <= k < model_commands(pipeline, m as usize, models[m].take(upto)).len(),
    ensures
        draws_some_mesh(
            pipeline,
            models,
            model_commands(pipeline, m as usize, models[m].take(upto))[k],
        ),
    decreases upto,
{
    let meshes = models[m].take(upto);
    if upto > 0 {
        assert(meshes.drop_last() =~= models[m].take(upto - 1));
        let before = model_commands(pipeline, m as usize, models[m].take(upto - 1));
        if k < before.len() {
            model_commands_draw_meshes(pipeline, models, m, upto - 1, k);
        } else {
            let j = upto - 1;
            assert(meshes.last() == models[m][j]);
            assert(draws_mesh(
                pipeline,
                models,
                m,
                j,
                k - before.len(),
                model_commands(pipeline, m as usize, meshes)[k],
            ));
        }
    }
}

/// Every command of a pipeline's pass over the scene draws one of the
/// scene's meshes.
pub proof fn scene_commands_draw_meshes(pipeline: PipelineId, models: Seq<Seq<MeshDraw>>, k: int)
    requires
        countable(models),
        0 <= k < scene_commands(pipeline, models).len(),
    ensures
        draws_some_mesh(pipeline, models, scene_commands(pipeline, models)[k]),
    decreases models.len(),
{
    if models.len() > 0 {
        let before = scene_commands(pipeline, models.drop_last());
        let c = scene_commands(pipeline, models)[k];
        if k < before.len() {
            scene_commands_draw_meshes(pipeline, models.drop_last(), k);
            let (m, j, o) = choose|m: int, j: int, o: int|
                draws_mesh(pipeline, models.drop_last(), m, j, o, c);
            assert(draws_mesh(pipeline, models, m, j, o, c));
        } else {
            let m = models.len() - 1;
            assert(models[m].take(models[m].len() as int) =~= models[m]);
            model_commands_draw_meshes(pipeline, models, m, models[m].len() as int, k - before.len());
        }
    }
}

/// Whether a command names only what the scene has, and is one that may
/// stand between the choice of a pipeline and the next: a mesh's vertices at
/// slot 0, a mesh's indices, a binding set (a material's only for a mesh
/// that is drawn with it), or a draw of one instance.
pub open spec fn within_scene(models: Seq<Seq<MeshDraw>>, c: Command) -> bool {
    match c {
        Command::SetVertexBuffer { slot, source: VertexSource::Mesh { model, mesh } } => slot == 0
            && model < models.len() && mesh < models[model as int].len(),
        Command::SetIndexBuffer { model, mesh } => model < models.len() && mesh
            < models[model as int].len(),
        Command::SetBindGroup { index, group: BindGroupRef::Material { model, material } } => model
            < models.len() && exists|j: int|
            0 <= j < models[model as int].len() && (#[trigger] models[model as int][j]).material
                == material,
        Command::SetBindGroup { index, group } => true,
        Command::DrawIndexed { indices, instances } => instances == 1,
        _ => false,
    }
}

/// Every command of a pipeline's pass over the scene names only what the
/// scene has, and none of them chooses a pipeline, opens or closes the pass,
/// submits or presents.
pub proof fn scene_commands_within_scene(pipeline: PipelineId, models: Seq<Seq<MeshDraw>>, k: int)
    requires
        countable(models),
        0 <= k < scene_commands(pipeline, models).len(),
    ensures
        within_scene(models, scene_commands(pipeline, models)[k]),
{
    scene_commands_draw_meshes(pipeline, models, k);
    let c = scene_commands(pipeline, models)[k];
    let (m, j, o) = choose|m: int, j: int, o: int| draws_mesh(pipeline, models, m, j, o, c);
    assert(models[m][j].material == models[m][j].material);
}

/// In a loaded scene a material named by a command is one that its model
/// has.
pub proof fn materials_exist(pipeline: PipelineId, models: Seq<Model>, k: int)
    requires
        forall|i: int| 0 <= i < models.len() ==> (#[trigger] models[i]).well_formed(),
        countable(scene_view(models)),
        0 <= k < scene_commands(pipeline, scene_view(models)).len(),
    ensures
        match scene_commands(pipeline, scene_view(models))[k] {
            Command::SetBindGroup { index, group: BindGroupRef::Material { model, material } } => {
                model < models.len() && material < models[model as int].materials@.len()
            },
            _ => true,
        },
{
    scene_commands_within_scene(pipeline, scene_view(models), k);
    match scene_commands(pipeline, scene_view(models))[k] {
        Command::SetBindGroup { index, group: BindGroupRef::Material { model, material } } => {
            let j = choose|j: int|
                0 <= j < scene_view(models)[model as int].len() && (#[trigger] scene_view(
                    models,
                )[model as int][j]).material == material;
            assert(models[model as int].meshes@[j].material == material);
        },
        _ => {},
    }
}

/// The layout that a binding set is made for.
pub open spec fn layout_of(group: BindGroupRef) -> LayoutId {
    match group {
        BindGroupRef::Material { .. } => LayoutId::Texture,
        BindGroupRef::Camera => LayoutId::Camera,
        BindGroupRef::Light => LayoutId::Light,
    }
}

/// The binding-set layouts of a pipeline, by slot.
pub open spec fn layouts_of(pipeline: PipelineId) -> Seq<LayoutId> {
    match pipeline {
        PipelineId::Light => light_layouts(),
        PipelineId::Main => main_layouts(),
    }
}

/// Whether a command binds a set made for `layout` at `slot`.
pub open spec fn binds_at(c: Command, slot: int, layout: LayoutId) -> bool {
    match c {
        Command::SetBindGroup { index, group } => index == slot && layout_of(group) == layout,
        _ => false,
    }
}

/// The commands that draw a mesh bind, before the draw, a set of the right
/// layout at every slot of the pipeline, and end with the draw.
pub proof fn mesh_is_drawn_with_all_slots_bound(
    pipeline: PipelineId,
    model: usize,
    mesh: usize,
    draw: MeshDraw,
)
    ensures
        mesh_commands(pipeline, model, mesh, draw).len() == 3 + layouts_of(pipeline).len(),
        mesh_commands(pipeline, model, mesh, draw)[0] == (Command::SetVertexBuffer {
            slot: 0,
            source: VertexSource::Mesh { model, mesh },
        }),
        mesh_commands(pipeline, model, mesh, draw)[1] == (Command::SetIndexBuffer { model, mesh }),
        forall|slot: int|
            0 <= slot < layouts_of(pipeline).len() ==> binds_at(
                #[trigger] mesh_commands(pipeline, model, mesh, draw)[2 + slot],
                slot,
                layouts_of(pipeline)[slot],
            ),
        mesh_commands(pipeline, model, mesh, draw).last() == (Command::DrawIndexed {
            indices: draw.num_elements,
            instances: 1,
        }),
{
    match pipeline {
        PipelineId::Light => {
            assert(light_mesh_commands(model, mesh, draw).len() == 5);
        },
        PipelineId::Main => {
            assert(main_mesh_commands(model, mesh, draw).len() == 6);
        },
    }
}

/// The number of draw calls among some commands.
pub open spec fn draw_calls(commands: Seq<Command>) -> nat
    decreases commands.len(),
{
    if commands.len() == 0 {
        0
    } else {
        draw_calls(commands.drop_last()) + if commands.last() is DrawIndexed {
            1nat
        } else {
            0nat
        }
    }
}

/// The number of meshes of a scene.
pub open spec fn mesh_total(models: Seq<Seq<MeshDraw>>) -> nat
    decreases models.len(),
{
    if models.len() == 0 {
        0
    } else {
        mesh_total(models.drop_last()) + models.last().len()
    }
}

/// The draw calls of two runs of commands add up.
pub proof fn draw_calls_add(a: Seq<Command>, b: Seq<Command>)
    ensures
        draw_calls(a + b) == draw_calls(a) + draw_calls(b),
    decreases b.len(),
{
    if b.len() == 0 {
        assert(a + b =~= a);
    } else {
        assert((a + b).drop_last() =~= a + b.drop_last());
        assert((a + b).last() == b.last());
        draw_calls_add(a, b.drop_last());
    }
}

/// A fixed run of commands holds as many draw calls as can be counted in it.
proof fn draw_calls_of_mesh(pipeline: PipelineId, model: usize, mesh: usize, draw: MeshDraw)
    ensures
        draw_calls(mesh_commands(pipeline, model, mesh, draw)) == 1,
{
    reveal_with_fuel(draw_calls, 8);
    let c = mesh_commands(pipeline, model, mesh, draw);
    match pipeline {
        PipelineId::Light => {
            assert(c.drop_last() =~= seq![c[0], c[1], c[2], c[3]]);
            assert(c.drop_last().drop_last() =~= seq![c[0], c[1], c[2]]);
            assert(c.drop_last().drop_last().drop_last() =~= seq![c[0], c[1]]);
            assert(c.drop_last().drop_last().drop_last().drop_last() =~= seq![c[0]]);
        },
        PipelineId::Main => {
            assert(c.drop_last() =~= seq![c[0], c[1], c[2], c[3], c[4]]);
            assert(c.drop_last().drop_last() =~= seq![c[0], c[1], c[2], c[3]]);
            assert(c.drop_last().drop_last().drop_last() =~= seq![c[0], c[1], c[2]]);
            assert(c.drop_last().drop_last().drop_last().drop_last() =~= seq![c[0], c[1]]);
            assert(c.drop_last().drop_last().drop_last().drop_last().drop_last() =~= seq![c[0]]);
        },
    }
}

/// A model's pass holds one draw call for every mesh of the model.
pub proof fn one_draw_per_mesh(pipeline: PipelineId, model: usize, meshes: Seq<MeshDraw>)
    ensures
        draw_calls(model_commands(pipeline, model, meshes)) == meshes.len(),
    decreases meshes.len(),
{
    if meshes.len() > 0 {
        one_draw_per_mesh(pipeline, model, meshes.drop_last());
        draw_calls_of_mesh(pipeline, model, (meshes.len() - 1) as usize, meshes.last());
        draw_calls_add(
            model_commands(pipeline, model, meshes.drop_last()),
            mesh_commands(pipeline, model, (meshes.len() - 1) as usize, meshes.last()),
        );
    }
}

/// A pipeline's pass over the scene holds one draw call for every mesh of
/// the scene.
pub proof fn one_draw_per_mesh_of_scene(pipeline: PipelineId, models: Seq<Seq<MeshDraw>>)
    ensures
        draw_calls(scene_commands(pipeline, models)) == mesh_total(models),
    decreases models.len(),
{
    if models.len() > 0 {
        one_draw_per_mesh_of_scene(pipeline, models.drop_last());
        one_draw_per_mesh(pipeline, (models.len() - 1) as usize, models.last());
        draw_calls_add(
            scene_commands(pipeline, models.drop_last()),
            model_commands(pipeline, (models.len() - 1) as usize, models.last()),
        );
    }
}

/// A frame with instances on the device is, in this order: the opening of
/// the pass, the instance buffer at slot 1, the light pipeline, the light
/// pipeline's pass over the scene, the main pipeline, the main pipeline's
/// pass over the scene, the closing of the pass, one submission and the
/// presentation. So every draw of the light pipeline comes before every
/// draw of the main one.
pub proof fn light_pass_precedes_main_pass(models: Seq<Seq<MeshDraw>>)
    ensures
        ({
            let frame = frame_commands(models, true);
            let light = scene_commands(PipelineId::Light, models);
            let main = scene_commands(PipelineId::Main, models);
            let l = light.len() as int;
            let n = main.len() as int;
            &&& frame.len() == l + n + 7
            &&& frame[0] == Command::BeginRenderPass
            &&& frame[1] == (Command::SetVertexBuffer { slot: 1, source: VertexSource::Instances })
            &&& frame[2] == Command::SetPipeline(PipelineId::Light)
            &&& frame.subrange(3, 3 + l) == light
            &&& frame[3 + l] == Command::SetPipeline(PipelineId::Main)
            &&& frame.subrange(4 + l, 4 + l + n) == main
            &&& frame[l + n + 4] == Command::EndRenderPass
            &&& frame[l + n + 5] == Command::Submit
            &&& frame[l + n + 6] == Command::Present
        }),
{
    let frame = frame_commands(models, true);
    let light = scene_commands(PipelineId::Light, models);
    let main = scene_commands(PipelineId::Main, models);
    let l = light.len() as int;
    let n = main.len() as int;
    assert(pass_commands(models, true).len() == l + n + 3);
    assert(frame.subrange(3, 3 + l) =~= light);
    assert(frame.subrange(4 + l, 4 + l + n) =~= main);
}

/// A frame without instances on the device opens and closes the pass,
/// submits and presents, and draws nothing.
pub proof fn frame_without_instances_draws_nothing(models: Seq<Seq<MeshDraw>>)
    ensures
        frame_commands(models, false) == seq![
            Command::BeginRenderPass,
            Command::EndRenderPass,
            Command::Submit,
            Command::Present,
        ],
        draw_calls(frame_commands(models, false)) == 0,
{
    let frame = frame_commands(models, false);
    assert(frame =~= seq![
        Command::BeginRenderPass,
        Command::EndRenderPass,
        Command::Submit,
        Command::Present,
    ]);
    reveal_with_fuel(draw_calls, 6);
    assert(frame.drop_last() =~= seq![frame[0], frame[1], frame[2]]);
    assert(frame.drop_last().drop_last() =~= seq![frame[0], frame[1]]);
    assert(frame.drop_last().drop_last().drop_last() =~= seq![frame[0]]);
}

/// A frame with instances on the device draws every mesh of the scene
/// twice: once with each pipeline.
pub proof fn frame_draws_every_mesh_twice(models: Seq<Seq<MeshDraw>>)
    ensures
        draw_calls(frame_commands(models, true)) == 2 * mesh_total(models),
{
    let light = scene_commands(PipelineId::Light, models);
    let main = scene_commands(PipelineId::Main, models);
    let head = seq![
        Command::SetVertexBuffer { slot: 1, source: VertexSource::Instances },
        Command::SetPipeline(PipelineId::Light),
    ];
    let middle = seq![Command::SetPipeline(PipelineId::Main)];
    let begin = seq![Command::BeginRenderPass];
    let tail = seq![Command::EndRenderPass, Command::Submit, Command::Present];
    one_draw_per_mesh_of_scene(PipelineId::Light, models);
    one_draw_per_mesh_of_scene(PipelineId::Main, models);
    reveal_with_fuel(draw_calls, 5);
    assert(draw_calls(begin) == 0);
    assert(head.drop_last() =~= seq![head[0]]);
    assert(draw_calls(head) == 0);
    assert(draw_calls(middle) == 0);
    assert(tail.drop_last() =~= seq![tail[0], tail[1]]);
    assert(tail.drop_last().drop_last() =~= seq![tail[0]]);
    assert(draw_calls(tail) == 0);
    draw_calls_add(head, light);
    draw_calls_add(head + light, middle);
    draw_calls_add(head + light + middle, main);
    draw_calls_add(begin, pass_commands(models, true));
    draw_calls_add(begin + pass_commands(models, true), tail);
}

} // verus!
