//! Light markers: like lit objects, drawn from one static vertex buffer, but
//! each filled with one solid color instead of being lit.

use vstd::prelude::*;

use crate::buffer::{ArrayBuffer, VertexArray};
use crate::command::{BufferTarget, GlCommand, Mat4, Usage};
use crate::data::{f32_, f32_f32_f32_f32};
use crate::draw::{
    draw_model, layout_setup_commands, located, model_draw_commands, setup_vertex_layout, uploads,
    ModelTransform,
};
use crate::shader::{all_resolve, fails_first_at, name_views, resolve_all, Error, Program};
use crate::vertex::{vertices_bytes, vertices_to_bytes, VertexData};

verus! {

/// Locations of the uniforms of the solid-color shader.
#[derive(Clone, Copy, Debug, PartialEq, Eq, Structural)]
pub struct SpotlightUniforms {
    pub model_scale: i32,
    pub model_translation: i32,
    pub model_rotation: i32,
    pub view_translation: i32,
    pub view_rotation: i32,
    pub projection: i32,
    pub solid_color: i32,
}

/// The uniforms of the solid-color shader, in the order they are resolved.
pub open spec fn spotlight_uniform_names() -> Seq<Seq<char>> {
    seq![
        "model_scale"@,
        "model_translation"@,
        "model_rotation"@,
        "view_rotation"@,
        "view_translation"@,
        "projection"@,
        "solid_color"@,
    ]
}

impl SpotlightUniforms {
    /// Whether every location is the one `p` gives for the uniform's name.
    pub open spec fn located_in(self, p: &Program) -> bool {
        &&& located(p, "model_scale"@, self.model_scale)
        &&& located(p, "model_translation"@, self.model_translation)
        &&& located(p, "model_rotation"@, self.model_rotation)
        &&& located(p, "view_rotation"@, self.view_rotation)
        &&& located(p, "view_translation"@, self.view_translation)
        &&& located(p, "projection"@, self.projection)
        &&& located(p, "solid_color"@, self.solid_color)
    }

    /// Resolves every uniform of the solid-color shader in `program`; fails
    /// naming the first one that is missing.
    pub fn new(program: &Program) -> (r: Result<SpotlightUniforms, Error>)
        ensures
            r is Ok <==> all_resolve(program, spotlight_uniform_names()),
            r matches Ok(u) ==> u.located_in(program),
            r matches Err(e) ==> fails_first_at(program, spotlight_uniform_names(), e),
    {
        let names: Vec<&str> = vec![
            "model_scale",
            "model_translation",
            "model_rotation",
            "view_rotation",
            "view_translation",
            "projection",
            "solid_color",
        ];
        assert(name_views(names@) =~= spotlight_uniform_names());
        let locs = match resolve_all(program, &names) {
            Ok(locs) => locs,
            Err(e) => return Err(e),
        };
        proof {
            assert(located(program, names@[0]@, locs@[0]));
            assert(located(program, names@[1]@, locs@[1]));
            assert(located(program, names@[2]@, locs@[2]));
            assert(located(program, names@[3]@, locs@[3]));
            assert(located(program, names@[4]@, locs@[4]));
            assert(located(program, names@[5]@, locs@[5]));
            assert(located(program, names@[6]@, locs@[6]));
        }
        Ok(
            SpotlightUniforms {
                model_scale: locs[0],
                model_translation: locs[1],
                model_rotation: locs[2],
                view_rotation: locs[3],
                view_translation: locs[4],
                projection: locs[5],
                solid_color: locs[6],
            },
        )
    }
}

/// One light marker: where it is drawn and its fill color.
#[derive(Clone, Copy, Debug, PartialEq, Eq)]
pub struct ColoredModel {
    pub model: ModelTransform,
    pub color: f32_f32_f32_f32,
}

/// Drawing each marker in turn: activate the program, set its color, then
/// draw it from vertex `i * per_object`, `per_object` vertices long.
pub open spec fn markers_draw_commands(
    program: u32,
    u: SpotlightUniforms,
    markers: Seq<ColoredModel>,
    per_object: int,
) -> Seq<GlCommand>
    decreases markers.len(),
{
    if markers.len() == 0 {
        seq![]
    } else {
        let m = markers.last();
        markers_draw_commands(program, u, markers.drop_last(), per_object) + seq![
            GlCommand::UseProgram { program },
            GlCommand::Uniform4f { location: u.solid_color, value: m.color },
        ] + model_draw_commands(
            u.model_scale,
            u.model_translation,
            u.model_rotation,
            m.model,
            (markers.len() - 1) * per_object,
            per_object,
        )
    }
}

/// Draws solid-color objects from one vertex buffer uploaded at construction.
pub struct SpotlightDraw {
    program: Program,
    vbo: ArrayBuffer,
    vao: VertexArray,
    uniform_locs: SpotlightUniforms,
    vertex_count: usize,
}

impl SpotlightDraw {
    pub closed spec fn program_handle(&self) -> u32 {
        self.program.handle()
    }

    pub closed spec fn buffer_handle(&self) -> u32 {
        self.vbo.handle()
    }

    pub closed spec fn array_handle(&self) -> u32 {
        self.vao.handle()
    }

    pub closed spec fn locations(&self) -> SpotlightUniforms {
        self.uniform_locs
    }

    /// Number of vertices in the buffer.
    pub closed spec fn vertex_count(&self) -> int {
        self.vertex_count as int
    }

    /// Number of vertices in the buffer.
    pub fn num_vertices(&self) -> (r: usize)
        ensures
            r == self.vertex_count(),
    {
        self.vertex_count
    }

    pub fn uniform_locations(&self) -> (r: SpotlightUniforms)
        ensures
            r == self.locations(),
    {
        self.uniform_locs
    }

    pub closed spec fn wf(&self) -> bool {
        &&& self.vertex_count <= i32::MAX
        &&& self.uniform_locs.located_in(&self.program)
    }

    /// Sets up drawing with `program`: records the vertex layout in `vao`
    /// against `vbo`, resolves the uniforms, activates the program, uploads
    /// `verticies` once and leaves the vertex array bound. Without one of the
    /// uniforms nothing is kept: the three objects are deleted.
    pub fn new(
        cmds: &mut Vec<GlCommand>,
        program: Program,
        vbo: ArrayBuffer,
        vao: VertexArray,
        verticies: &Vec<VertexData>,
    ) -> (r: Result<SpotlightDraw, Error>)
        requires
            verticies@.len() <= i32::MAX,
        ensures
            r is Ok <==> all_resolve(&program, spotlight_uniform_names()),
            r matches Ok(d) ==> {
                let n = final(cmds)@.len();
                &&& d.wf()
                &&& d.program_handle() == program.handle()
                &&& d.buffer_handle() == vbo.handle()
                &&& d.array_handle() == vao.handle()
                &&& d.locations().located_in(&program)
                &&& d.vertex_count() == verticies@.len()
                &&& n >= 2
                &&& final(cmds)@.take(n - 2) == old(cmds)@ + layout_setup_commands(
                    vbo.handle(),
                    vao.handle(),
                ) + seq![
                    GlCommand::UseProgram { program: program.handle() },
                    GlCommand::BindBuffer { target: BufferTarget::Array, buffer: vbo.handle() },
                ]
                &&& uploads(final(cmds)@[n - 2], Usage::StaticDraw, vertices_bytes(verticies@))
                &&& final(cmds)@[n - 1] == GlCommand::BindVertexArray { array: vao.handle() }
            },
            r matches Err(e) ==> {
                &&& fails_first_at(&program, spotlight_uniform_names(), e)
                &&& final(cmds)@ == old(cmds)@ + layout_setup_commands(vbo.handle(), vao.handle())
                    + seq![
                    GlCommand::DeleteVertexArray { array: vao.handle() },
                    GlCommand::DeleteBuffer { buffer: vbo.handle() },
                    GlCommand::DeleteProgram { program: program.handle() },
                ]
            },
    {
        let ghost start = cmds@;
        setup_vertex_layout(cmds, &vbo, &vao);
        let uniform_locs = match SpotlightUniforms::new(&program) {
            Ok(u) => u,
            Err(e) => {
                vao.release(cmds);
                vbo.release(cmds);
                program.release(cmds);
                assert(cmds@ =~= start + layout_setup_commands(vbo.handle(), vao.handle()) + seq![
                    GlCommand::DeleteVertexArray { array: vao.handle() },
                    GlCommand::DeleteBuffer { buffer: vbo.handle() },
                    GlCommand::DeleteProgram { program: program.handle() },
                ]);
                return Err(e);
            },
        };
        let spotlight_draw = SpotlightDraw {
            program,
            vbo,
            vao,
            uniform_locs,
            vertex_count: verticies.len(),
        };
        spotlight_draw.program.set_used(cmds);
        spotlight_draw.vbo.bind(cmds);
        let ghost before_upload = cmds@;
        spotlight_draw.vbo.static_draw_data(cmds, vertices_to_bytes(verticies));
        spotlight_draw.vao.bind(cmds);
        assert(cmds@.take(cmds@.len() - 2) =~= before_upload);
        assert(before_upload =~= start + layout_setup_commands(vbo.handle(), vao.handle()) + seq![
            GlCommand::UseProgram { program: program.handle() },
            GlCommand::BindBuffer { target: BufferTarget::Array, buffer: vbo.handle() },
        ]);
        Ok(spotlight_draw)
    }

    pub fn program(&self) -> (r: &Program)
        ensures
            r.handle() == self.program_handle(),
    {
        &self.program
    }

    /// Activates the program and binds the buffer and vertex array, once
    /// before a sequence of draws.
    pub fn prepare_for_draws(&self, cmds: &mut Vec<GlCommand>)
        ensures
            final(cmds)@ == old(cmds)@ + seq![
                GlCommand::UseProgram { program: self.program_handle() },
                GlCommand::BindBuffer { target: BufferTarget::Array, buffer: self.buffer_handle() },
                GlCommand::BindVertexArray { array: self.array_handle() },
            ],
    {
        self.program.set_used(cmds);
        self.vbo.bind(cmds);
        self.vao.bind(cmds);
        assert(cmds@ =~= old(cmds)@ + seq![
            GlCommand::UseProgram { program: self.program_handle() },
            GlCommand::BindBuffer { target: BufferTarget::Array, buffer: self.buffer_handle() },
            GlCommand::BindVertexArray { array: self.array_handle() },
        ]);
    }

    /// Sets the model uniforms and draws `num_vertices` vertices from vertex
    /// `offset`, which must lie within the buffer.
    pub fn draw(
        &self,
        cmds: &mut Vec<GlCommand>,
        model_scale: f32_,
        model_translation: Mat4,
        model_rotation: Mat4,
        num_vertices: usize,
        offset: usize,
    )
        requires
            self.wf(),
            offset + num_vertices <= self.vertex_count(),
        ensures
            final(cmds)@ == old(cmds)@ + model_draw_commands(
                self.locations().model_scale,
                self.locations().model_translation,
                self.locations().model_rotation,
                ModelTransform {
                    scale: model_scale,
                    translation: model_translation,
                    rotation: model_rotation,
                },
                offset as int,
                num_vertices as int,
            ),
    {
        let m = ModelTransform {
            scale: model_scale,
            translation: model_translation,
            rotation: model_rotation,
        };
        draw_model(
            cmds,
            self.uniform_locs.model_scale,
            self.uniform_locs.model_translation,
            self.uniform_locs.model_rotation,
            m,
            offset,
            num_vertices,
        );
    }

    /// Draws marker `i` of `markers` in its own color from vertex
    /// `i * per_object`, `per_object` vertices long, for every `i` in order.
    pub fn draw_markers(
        &self,
        cmds: &mut Vec<GlCommand>,
        markers: &Vec<ColoredModel>,
        per_object: usize,
    )
        requires
            self.wf(),
            markers@.len() * per_object <= self.vertex_count(),
        ensures
            final(cmds)@ == old(cmds)@ + markers_draw_commands(
                self.program_handle(),
                self.locations(),
                markers@,
                per_object as int,
            ),
    {
        let mut i: usize = 0;
        let mut first: usize = 0;
        while i < markers.len()
            invariant
                self.wf(),
                i <= markers@.len(),
                markers@.len() * per_object <= self.vertex_count(),
                first == i * per_object,
                cmds@ == old(cmds)@ + markers_draw_commands(
                    self.program_handle(),
                    self.locations(),
                    markers@.take(i as int),
                    per_object as int,
                ),
            decreases markers@.len() - i,
        {
            proof {
                assert((i + 1) * per_object <= markers@.len() * per_object) by (nonlinear_arith)
                    requires
                        i + 1 <= markers@.len(),
                ;
                assert((i + 1) * per_object == i * per_object + per_object) by (nonlinear_arith);
            }
            let ghost before = cmds@;
            let marker = markers[i];
            self.set_solid_color(cmds, marker.color);
            let m = marker.model;
            self.draw(cmds, m.scale, m.translation, m.rotation, per_object, first);
            proof {
                let t = markers@.take(i as int + 1);
                assert(t.drop_last() =~= markers@.take(i as int));
                assert(t.last() == marker);
                assert(cmds@ =~= old(cmds)@ + markers_draw_commands(
                    self.program_handle(),
                    self.locations(),
                    t,
                    per_object as int,
                ));
            }
            first = first + per_object;
            i = i + 1;
        }
        assert(markers@.take(i as int) =~= markers@);
    }

    /// Activates the program and sets the fill color of the following draws.
    pub fn set_solid_color(&self, cmds: &mut Vec<GlCommand>, color: f32_f32_f32_f32)
        ensures
            final(cmds)@ == old(cmds)@ + seq![
                GlCommand::UseProgram { program: self.program_handle() },
                GlCommand::Uniform4f { location: self.locations().solid_color, value: color },
            ],
    {
        self.program.set_used(cmds);
        self.program.set_vec4_uniform(cmds, self.uniform_locs.solid_color, color);
        assert(cmds@ =~= old(cmds)@ + seq![
            GlCommand::UseProgram { program: self.program_handle() },
            GlCommand::Uniform4f { location: self.locations().solid_color, value: color },
        ]);
    }

    /// Activates the program and sets the two view uniforms.
    pub fn set_view(&self, cmds: &mut Vec<GlCommand>, view_translation: Mat4, view_rotation: Mat4)
        ensures
            final(cmds)@ == old(cmds)@ + seq![
                GlCommand::UseProgram { program: self.program_handle() },
                GlCommand::UniformMatrix4f {
                    location: self.locations().view_translation,
                    value: view_translation,
                },
                GlCommand::UniformMatrix4f {
                    location: self.locations().view_rotation,
                    value: view_rotation,
                },
            ],
    {
        self.program.set_used(cmds);
        self.program.set_mat4_uniform(cmds, self.uniform_locs.view_translation, view_translation);
        self.program.set_mat4_uniform(cmds, self.uniform_locs.view_rotation, view_rotation);
        assert(cmds@ =~= old(cmds)@ + seq![
            GlCommand::UseProgram { program: self.program_handle() },
            GlCommand::UniformMatrix4f {
                location: self.locations().view_translation,
                value: view_translation,
            },
            GlCommand::UniformMatrix4f {
                location: self.locations().view_rotation,
                value: view_rotation,
            },
        ]);
    }

    /// Activates the program and sets the projection uniform.
    pub fn set_projection(&self, cmds: &mut Vec<GlCommand>, projection: Mat4)
        ensures
            final(cmds)@ == old(cmds)@ + seq![
                GlCommand::UseProgram { program: self.program_handle() },
                GlCommand::UniformMatrix4f {
                    location: self.locations().projection,
                    value: projection,
                },
            ],
    {
        self.program.set_used(cmds);
        self.program.set_mat4_uniform(cmds, self.uniform_locs.projection, projection);
        assert(cmds@ =~= old(cmds)@ + seq![
            GlCommand::UseProgram { program: self.program_handle() },
            GlCommand::UniformMatrix4f { location: self.locations().projection, value: projection },
        ]);
    }
}

} // verus!
