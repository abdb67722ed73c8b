//! Unlit triangles: one vertex buffer, either uploaded once and drawn in
//! parts, or refilled with a whole batch and drawn in one call each frame.

use vstd::prelude::*;

use crate::buffer::{ArrayBuffer, VertexArray};
use crate::command::{BufferTarget, GlCommand, Mat4, Usage};
use crate::data::f32_;
use crate::draw::{
    draw_model, layout_setup_commands, located, model_draw_commands, setup_vertex_layout, uploads,
    ModelTransform,
};
use crate::shader::{all_resolve, fails_first_at, name_views, resolve_all, Error, Program};
use crate::vertex::{
    flatten_triangles, triangles_vertices, vertices_bytes, vertices_to_bytes, Triangle, VertexData,
    VERTEX_SIZE,
};

verus! {

/// Locations of the uniforms of the unlit triangle shader.
#[derive(Clone, Copy, Debug, PartialEq, Eq, Structural)]
pub struct TriangleUniforms {
    pub model_scale: i32,
    pub model_translation: i32,
    pub model_rotation: i32,
    pub view_translation: i32,
    pub view_rotation: i32,
    pub projection: i32,
}

/// The uniforms of the unlit triangle shader, in the order they are resolved.
pub open spec fn triangle_uniform_names() -> Seq<Seq<char>> {
    seq![
        "model_scale"@,
        "model_translation"@,
        "model_rotation"@,
        "view_rotation"@,
        "view_translation"@,
        "projection"@,
    ]
}

impl TriangleUniforms {
    /// Whether every location is the one `p` gives for the uniform's name.
    pub open spec fn located_in(self, p: &Program) -> bool {
        &&& located(p, "model_scale"@, self.model_scale)
        &&& located(p, "model_translation"@, self.model_translation)
        &&& located(p, "model_rotation"@, self.model_rotation)
        &&& located(p, "view_rotation"@, self.view_rotation)
        &&& located(p, "view_translation"@, self.view_translation)
        &&& located(p, "projection"@, self.projection)
    }

    /// Resolves every uniform of the unlit triangle shader in `program`;
    /// fails naming the first one that is missing.
    pub fn new(program: &Program) -> (r: Result<TriangleUniforms, Error>)
        ensures
            r is Ok <==> all_resolve(program, triangle_uniform_names()),
            r matches Ok(u) ==> u.located_in(program),
            r matches Err(e) ==> fails_first_at(program, triangle_uniform_names(), e),
    {
        let names: Vec<&str> = vec![
            "model_scale",
            "model_translation",
            "model_rotation",
            "view_rotation",
            "view_translation",
            "projection",
        ];
        assert(name_views(names@) =~= triangle_uniform_names());
        let locs = match resolve_all(program, &names) {
            Ok(locs) => locs,
            Err(e) => return Err(e),
        };
        proof {
            assert(located(program, names@[0]@, locs@[0]));
            assert(located(program, names@[1]@, locs@[1]));
            assert(located(program, names@[2]@, locs@[2]));
            assert(located(program, names@[3]@, locs@[3]));
            assert(located(program, names@[4]@, locs@[4]));
            assert(located(program, names@[5]@, locs@[5]));
        }
        Ok(
            TriangleUniforms {
                model_scale: locs[0],
                model_translation: locs[1],
                model_rotation: locs[2],
                view_rotation: locs[3],
                view_translation: locs[4],
                projection: locs[5],
            },
        )
    }
}

/// The calls of one batch draw, after `prefix`: activate the program, bind
/// the buffer, replace its content with the vertices of `triangles`, bind the
/// vertex array, and draw all of them in one call.
pub open spec fn is_batch_draw(
    cmds: Seq<GlCommand>,
    program: u32,
    vbo: u32,
    vao: u32,
    triangles: Seq<Triangle>,
) -> bool {
    &&& 3 * triangles.len() <= i32::MAX
    &&& cmds.len() == 5
    &&& cmds[0] == GlCommand::UseProgram { program }
    &&& cmds[1] == GlCommand::BindBuffer { target: BufferTarget::Array, buffer: vbo }
    &&& uploads(cmds[2], Usage::DynamicDraw, vertices_bytes(triangles_vertices(triangles)))
    &&& cmds[3] == GlCommand::BindVertexArray { array: vao }
    &&& cmds[4] == GlCommand::DrawTriangles { first: 0, count: (3 * triangles.len()) as i32 }
}

/// A batch draw of `T` triangles uploads exactly `3T` vertices and makes
/// exactly one draw call, of `3T` vertices.
pub proof fn lemma_batch_draw(
    cmds: Seq<GlCommand>,
    program: u32,
    vbo: u32,
    vao: u32,
    triangles: Seq<Triangle>,
)
    requires
        is_batch_draw(cmds, program, vbo, vao, triangles),
    ensures
        cmds[2] matches GlCommand::BufferData { data, .. } && data@.len() == VERTEX_SIZE * (3
            * triangles.len()),
        forall|j: int| 0 <= j < cmds.len() && (#[trigger] cmds[j]) is DrawTriangles ==> j == 4,
        cmds[4] matches GlCommand::DrawTriangles { first, count } && first == 0 && count == 3
            * triangles.len(),
{
    crate::vertex::lemma_triangles_vertices_len(triangles);
    crate::vertex::lemma_vertices_bytes_len(triangles_vertices(triangles));
}

/// Draws unlit triangles from one vertex buffer.
pub struct TrianglesDraw {
    program: Program,
    vbo: ArrayBuffer,
    vao: VertexArray,
    uniform_locs: TriangleUniforms,
    vertex_count: usize,
}

impl TrianglesDraw {
    pub closed spec fn program_handle(&self) -> u32 {
        self.program.handle()
    }

    pub closed spec fn buffer_handle(&self) -> u32 {
        self.vbo.handle()
    }

    pub closed spec fn array_handle(&self) -> u32 {
        self.vao.handle()
    }

    pub closed spec fn locations(&self) -> TriangleUniforms {
        self.uniform_locs
    }

    /// Number of vertices in the buffer.
    pub closed spec fn vertex_count(&self) -> int {
        self.vertex_count as int
    }

    /// Number of vertices in the buffer.
    pub fn num_vertices(&self) -> (r: usize)
        ensures
            r == self.vertex_count(),
    {
        self.vertex_count
    }

    pub fn uniform_locations(&self) -> (r: TriangleUniforms)
        ensures
            r == self.locations(),
    {
        self.uniform_locs
    }

    pub closed spec fn wf(&self) -> bool {
        &&& self.vertex_count <= i32::MAX
        &&& self.uniform_locs.located_in(&self.program)
    }
}

impl TrianglesDraw {
    /// Sets up drawing with `program`: records the vertex layout in `vao`
    /// against `vbo`, resolves the uniforms, activates the program, uploads
    /// `verticies` once and leaves the vertex array bound. Without one of the
    /// uniforms nothing is kept: the three objects are deleted.
    pub fn new(
        cmds: &mut Vec<GlCommand>,
        program: Program,
        vbo: ArrayBuffer,
        vao: VertexArray,
        verticies: &Vec<VertexData>,
    ) -> (r: Result<TrianglesDraw, Error>)
        requires
            verticies@.len() <= i32::MAX,
        ensures
            r is Ok <==> all_resolve(&program, triangle_uniform_names()),
            r matches Ok(d) ==> {
                let n = final(cmds)@.len();
                &&& d.wf()
                &&& d.program_handle() == program.handle()
                &&& d.buffer_handle() == vbo.handle()
                &&& d.array_handle() == vao.handle()
                &&& d.locations().located_in(&program)
                &&& d.vertex_count() == verticies@.len()
                &&& n >= 2
                &&& final(cmds)@.take(n - 2) == old(cmds)@ + layout_setup_commands(
                    vbo.handle(),
                    vao.handle(),
                ) + seq![
                    GlCommand::UseProgram { program: program.handle() },
                    GlCommand::BindBuffer { target: BufferTarget::Array, buffer: vbo.handle() },
                ]
                &&& uploads(final(cmds)@[n - 2], Usage::StaticDraw, vertices_bytes(verticies@))
                &&& final(cmds)@[n - 1] == GlCommand::BindVertexArray { array: vao.handle() }
            },
            r matches Err(e) ==> {
                &&& fails_first_at(&program, triangle_uniform_names(), e)
                &&& final(cmds)@ == old(cmds)@ + layout_setup_commands(vbo.handle(), vao.handle())
                    + seq![
                    GlCommand::DeleteVertexArray { array: vao.handle() },
                    GlCommand::DeleteBuffer { buffer: vbo.handle() },
                    GlCommand::DeleteProgram { program: program.handle() },
                ]
            },
    {
        let ghost start = cmds@;
        setup_vertex_layout(cmds, &vbo, &vao);
        let uniform_locs = match TriangleUniforms::new(&program) {
            Ok(u) => u,
            Err(e) => {
                vao.release(cmds);
                vbo.release(cmds);
                program.release(cmds);
                assert(cmds@ =~= start + layout_setup_commands(vbo.handle(), vao.handle()) + seq![
                    GlCommand::DeleteVertexArray { array: vao.handle() },
                    GlCommand::DeleteBuffer { buffer: vbo.handle() },
                    GlCommand::DeleteProgram { program: program.handle() },
                ]);
                return Err(e);
            },
        };
        let triangles_draw = TrianglesDraw {
            program,
            vbo,
            vao,
            uniform_locs,
            vertex_count: verticies.len(),
        };
        triangles_draw.program.set_used(cmds);
        triangles_draw.vbo.bind(cmds);
        let ghost before_upload = cmds@;
        triangles_draw.vbo.static_draw_data(cmds, vertices_to_bytes(verticies));
        triangles_draw.vao.bind(cmds);
        assert(cmds@.take(cmds@.len() - 2) =~= before_upload);
        assert(before_upload =~= start + layout_setup_commands(vbo.handle(), vao.handle()) + seq![
            GlCommand::UseProgram { program: program.handle() },
            GlCommand::BindBuffer { target: BufferTarget::Array, buffer: vbo.handle() },
        ]);
        Ok(triangles_draw)
    }

    /// Sets the model uniforms and draws `num_vertices` vertices from vertex
    /// `offset`, which must lie within the buffer.
    pub fn draw(
        &self,
        cmds: &mut Vec<GlCommand>,
        model_scale: f32_,
        model_translation: Mat4,
        model_rotation: Mat4,
        num_vertices: usize,
        offset: usize,
    )
        requires
            self.wf(),
            offset + num_vertices <= self.vertex_count(),
        ensures
            final(cmds)@ == old(cmds)@ + model_draw_commands(
                self.locations().model_scale,
                self.locations().model_translation,
                self.locations().model_rotation,
                ModelTransform {
                    scale: model_scale,
                    translation: model_translation,
                    rotation: model_rotation,
                },
                offset as int,
                num_vertices as int,
            ),
    {
        let m = ModelTransform {
            scale: model_scale,
            translation: model_translation,
            rotation: model_rotation,
        };
        draw_model(
            cmds,
            self.uniform_locs.model_scale,
            self.uniform_locs.model_translation,
            self.uniform_locs.model_rotation,
            m,
            offset,
            num_vertices,
        );
    }

    /// Replaces the buffer's content with the vertices of `triangles`, three
    /// per triangle, and draws them all in one call.
    pub fn draw_batch(&mut self, cmds: &mut Vec<GlCommand>, triangles: &Vec<Triangle>)
        requires
            old(self).wf(),
            3 * triangles@.len() <= i32::MAX,
        ensures
            final(self).wf(),
            final(self).program_handle() == old(self).program_handle(),
            final(self).buffer_handle() == old(self).buffer_handle(),
            final(self).array_handle() == old(self).array_handle(),
            final(self).locations() == old(self).locations(),
            final(self).vertex_count() == 3 * triangles@.len(),
            final(cmds)@.take(old(cmds)@.len() as int) == old(cmds)@,
            is_batch_draw(
                final(cmds)@.skip(old(cmds)@.len() as int),
                old(self).program_handle(),
                old(self).buffer_handle(),
                old(self).array_handle(),
                triangles@,
            ),
    {
        let ghost start = cmds@;
        let vertices = flatten_triangles(triangles);
        self.program.set_used(cmds);
        self.vbo.bind(cmds);
        self.vbo.dynamic_draw_data(cmds, vertices_to_bytes(&vertices));
        self.vao.bind(cmds);
        self.vertex_count = vertices.len();
        cmds.push(GlCommand::DrawTriangles { first: 0, count: vertices.len() as i32 });
        assert(cmds@.take(start.len() as int) =~= start);
        let ghost added = cmds@.skip(start.len() as int);
        assert(added[0] == cmds@[start.len() as int]);
        assert(added[1] == cmds@[start.len() as int + 1]);
        assert(added[2] == cmds@[start.len() as int + 2]);
        assert(added[3] == cmds@[start.len() as int + 3]);
        assert(added[4] == cmds@[start.len() as int + 4]);
    }

    /// Sets the two view uniforms of the active program.
    pub fn set_view(&self, cmds: &mut Vec<GlCommand>, view_translation: Mat4, view_rotation: Mat4)
        ensures
            final(cmds)@ == old(cmds)@ + seq![
                GlCommand::UniformMatrix4f {
                    location: self.locations().view_translation,
                    value: view_translation,
                },
                GlCommand::UniformMatrix4f {
                    location: self.locations().view_rotation,
                    value: view_rotation,
                },
            ],
    {
        self.program.set_mat4_uniform(cmds, self.uniform_locs.view_translation, view_translation);
        self.program.set_mat4_uniform(cmds, self.uniform_locs.view_rotation, view_rotation);
        assert(cmds@ =~= old(cmds)@ + seq![
            GlCommand::UniformMatrix4f {
                location: self.locations().view_translation,
                value: view_translation,
            },
            GlCommand::UniformMatrix4f {
                location: self.locations().view_rotation,
                value: view_rotation,
            },
        ]);
    }

    /// Sets the projection uniform of the active program.
    pub fn set_projection(&self, cmds: &mut Vec<GlCommand>, projection: Mat4)
        ensures
            final(cmds)@ == old(cmds)@.push(
                GlCommand::UniformMatrix4f { location: self.locations().projection, value: projection },
            ),
    {
        self.program.set_mat4_uniform(cmds, self.uniform_locs.projection, projection);
    }
}

} // verus!
