//! Pieces shared by the draw orchestrators: registering the vertex layout
//! once, and the per-object draw calls over one contiguous vertex buffer.

use vstd::prelude::*;

use crate::buffer::{ArrayBuffer, VertexArray};
use crate::command::{BufferTarget, GlCommand, Mat4, Usage};
use crate::data::{f32_, f32_f32_f32, f32_f32_f32_f32};
use crate::layout::{layout_commands, layout_of};
use crate::shader::{find_uniform, Program};
use crate::vertex::VertexData;

verus! {

/// The model transform of one object: uniform scale, translation, rotation.
#[derive(Clone, Copy, Debug, PartialEq, Eq)]
pub struct ModelTransform {
    pub scale: f32_,
    pub translation: Mat4,
    pub rotation: Mat4,
}

/// One point light as the lit shader reads it.
#[derive(Clone, Copy, Debug, PartialEq, Eq)]
pub struct LightSource {
    /// World position.
    pub position: f32_f32_f32,
    /// Color with alpha.
    pub color: f32_f32_f32_f32,
    /// Radius of the lit spot.
    pub radius: f32_,
}

/// Registering the layout of [`VertexData`] in `vao` against `vbo`, leaving
/// both unbound.
pub open spec fn layout_setup_commands(vbo: u32, vao: u32) -> Seq<GlCommand> {
    seq![
        GlCommand::BindVertexArray { array: vao },
        GlCommand::BindBuffer { target: BufferTarget::Array, buffer: vbo },
    ] + layout_commands(layout_of(VertexData::spec_fields())) + seq![
        GlCommand::BindBuffer { target: BufferTarget::Array, buffer: 0 },
        GlCommand::BindVertexArray { array: 0 },
    ]
}

/// Records the vertex layout in `vao`, with `vbo` bound while it is registered.
pub fn setup_vertex_layout(cmds: &mut Vec<GlCommand>, vbo: &ArrayBuffer, vao: &VertexArray)
    ensures
        final(cmds)@ == old(cmds)@ + layout_setup_commands(vbo.handle(), vao.handle()),
{
    let ghost start = cmds@;
    vao.bind(cmds);
    vbo.bind(cmds);
    VertexData::vertex_attrib_pointers(cmds);
    vbo.unbind(cmds);
    vao.unbind(cmds);
    assert(cmds@ =~= start + layout_setup_commands(vbo.handle(), vao.handle()));
}

/// Whether `loc` is where `p` keeps the uniform `name`.
pub open spec fn located(p: &Program, name: Seq<char>, loc: i32) -> bool {
    find_uniform(p.uniform_table(), name) == Some(loc)
}

/// Whether the buffer content upload `c` writes `bytes` with `usage` to the
/// array buffer.
pub open spec fn uploads(c: GlCommand, usage: Usage, bytes: Seq<u8>) -> bool {
    c matches GlCommand::BufferData { target: BufferTarget::Array, data, usage: u } && u == usage
        && data@ == bytes
}

/// Setting the three model uniforms, then drawing `count` vertices from
/// vertex `first` as triangles.
pub open spec fn model_draw_commands(
    scale_loc: i32,
    translation_loc: i32,
    rotation_loc: i32,
    m: ModelTransform,
    first: int,
    count: int,
) -> Seq<GlCommand> {
    seq![
        GlCommand::Uniform1f { location: scale_loc, value: m.scale },
        GlCommand::UniformMatrix4f { location: translation_loc, value: m.translation },
        GlCommand::UniformMatrix4f { location: rotation_loc, value: m.rotation },
        GlCommand::DrawTriangles { first: first as i32, count: count as i32 },
    ]
}

/// Issues [`model_draw_commands`].
pub fn draw_model(
    cmds: &mut Vec<GlCommand>,
    scale_loc: i32,
    translation_loc: i32,
    rotation_loc: i32,
    m: ModelTransform,
    first: usize,
    count: usize,
)
    requires
        first <= i32::MAX,
        count <= i32::MAX,
    ensures
        final(cmds)@ == old(cmds)@ + model_draw_commands(
            scale_loc,
            translation_loc,
            rotation_loc,
            m,
            first as int,
            count as int,
        ),
{
    cmds.push(GlCommand::Uniform1f { location: scale_loc, value: m.scale });
    cmds.push(GlCommand::UniformMatrix4f { location: translation_loc, value: m.translation });
    cmds.push(GlCommand::UniformMatrix4f { location: rotation_loc, value: m.rotation });
    cmds.push(GlCommand::DrawTriangles { first: first as i32, count: count as i32 });
    assert(cmds@ =~= old(cmds)@ + model_draw_commands(
        scale_loc,
        translation_loc,
        rotation_loc,
        m,
        first as int,
        count as int,
    ));
}

/// Drawing each object of `models` in turn, object `i` covering vertices
/// `[i * per_object, (i + 1) * per_object)`.
pub open spec fn objects_draw_commands(
    scale_loc: i32,
    translation_loc: i32,
    rotation_loc: i32,
    models: Seq<ModelTransform>,
    per_object: int,
) -> Seq<GlCommand>
    decreases models.len(),
{
    if models.len() == 0 {
        seq![]
    } else {
        objects_draw_commands(
            scale_loc,
            translation_loc,
            rotation_loc,
            models.drop_last(),
            per_object,
        ) + model_draw_commands(
            scale_loc,
            translation_loc,
            rotation_loc,
            models.last(),
            (models.len() - 1) * per_object,
            per_object,
        )
    }
}

/// Four calls per object.
pub proof fn lemma_objects_draw_commands_len(
    scale_loc: i32,
    translation_loc: i32,
    rotation_loc: i32,
    models: Seq<ModelTransform>,
    per_object: int,
)
    ensures
        objects_draw_commands(scale_loc, translation_loc, rotation_loc, models, per_object).len()
            == 4 * models.len(),
    decreases models.len(),
{
    if models.len() > 0 {
        lemma_objects_draw_commands_len(
            scale_loc,
            translation_loc,
            rotation_loc,
            models.drop_last(),
            per_object,
        );
    }
}

/// Object `i` of identically sized objects of `per_object` vertices each is
/// drawn from vertex `i * per_object`, `per_object` vertices long, after its
/// own model uniforms.
pub proof fn lemma_object_draw_at(
    scale_loc: i32,
    translation_loc: i32,
    rotation_loc: i32,
    models: Seq<ModelTransform>,
    per_object: int,
    i: int,
)
    requires
        0 <= i < models.len(),
    ensures
        objects_draw_commands(
            scale_loc,
            translation_loc,
            rotation_loc,
            models,
            per_object,
        ).subrange(4 * i, 4 * i + 4) == model_draw_commands(
            scale_loc,
            translation_loc,
            rotation_loc,
            models[i],
            i * per_object,
            per_object,
        ),
    decreases models.len(),
{
    let prefix = models.drop_last();
    let all = objects_draw_commands(scale_loc, translation_loc, rotation_loc, models, per_object);
    let head = objects_draw_commands(scale_loc, translation_loc, rotation_loc, prefix, per_object);
    lemma_objects_draw_commands_len(scale_loc, translation_loc, rotation_loc, prefix, per_object);
    if i < models.len() - 1 {
        lemma_object_draw_at(scale_loc, translation_loc, rotation_loc, prefix, per_object, i);
        assert(all.subrange(4 * i, 4 * i + 4) =~= head.subrange(4 * i, 4 * i + 4));
    } else {
        assert(all.subrange(4 * i, 4 * i + 4) =~= model_draw_commands(
            scale_loc,
            translation_loc,
            rotation_loc,
            models.last(),
            (models.len() - 1) * per_object,
            per_object,
        ));
    }
}

/// Draws each object of `models`, object `i` covering vertices
/// `[i * per_object, (i + 1) * per_object)`.
pub fn draw_models(
    cmds: &mut Vec<GlCommand>,
    scale_loc: i32,
    translation_loc: i32,
    rotation_loc: i32,
    models: &Vec<ModelTransform>,
    per_object: usize,
)
    requires
        models@.len() * per_object <= i32::MAX,
    ensures
        final(cmds)@ == old(cmds)@ + objects_draw_commands(
            scale_loc,
            translation_loc,
            rotation_loc,
            models@,
            per_object as int,
        ),
{
    let mut i: usize = 0;
    let mut first: usize = 0;
    while i < models.len()
        invariant
            i <= models@.len(),
            models@.len() * per_object <= i32::MAX,
            first == i * per_object,
            cmds@ == old(cmds)@ + objects_draw_commands(
                scale_loc,
                translation_loc,
                rotation_loc,
                models@.take(i as int),
                per_object as int,
            ),
        decreases models@.len() - i,
    {
        proof {
            assert((i + 1) * per_object <= models@.len() * per_object) by (nonlinear_arith)
                requires
                    i + 1 <= models@.len(),
            ;
            assert((i + 1) * per_object == i * per_object + per_object) by (nonlinear_arith);
        }
        draw_model(cmds, scale_loc, translation_loc, rotation_loc, models[i], first, per_object);
        proof {
            let t = models@.take(i as int + 1);
            assert(t.drop_last() =~= models@.take(i as int));
            assert(t.last() == models@[i as int]);
        }
        first = first + per_object;
        i = i + 1;
    }
    assert(models@.take(i as int) =~= models@);
}

} // verus!
