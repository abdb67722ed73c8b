//! Lit objects: one static vertex buffer holding many objects, each drawn
//! with its own model transform, under a shared view, projection and list of
//! point lights.

use vstd::prelude::*;

use crate::buffer::{ArrayBuffer, VertexArray};
use crate::command::{BufferTarget, GlCommand, Mat4, Usage};
use crate::data::f32_;
use crate::draw::{
    draw_model, draw_models, layout_setup_commands, located, model_draw_commands,
    objects_draw_commands, setup_vertex_layout, uploads, LightSource, ModelTransform,
};
use crate::shader::{
    all_resolve, fails_first_at, lemma_found_location_valid, name_views, resolve_all, Error,
    Program,
};
use crate::vertex::{vertices_bytes, vertices_to_bytes, VertexData};

verus! {

/// Locations of the uniforms of the lit object shader.
#[derive(Clone, Copy, Debug, PartialEq, Eq, Structural)]
pub struct ObjectUniforms {
    pub model_scale: i32,
    pub model_translation: i32,
    pub model_rotation: i32,
    pub view_translation: i32,
    pub view_rotation: i32,
    pub projection: i32,
    pub lights_count: i32,
    pub light_positions: i32,
    pub light_colors: i32,
    pub light_radiuses: i32,
}

/// The uniforms of the lit object shader, in the order they are resolved.
pub open spec fn object_uniform_names() -> Seq<Seq<char>> {
    seq![
        "model_scale"@,
        "model_translation"@,
        "model_rotation"@,
        "view_rotation"@,
        "view_translation"@,
        "projection"@,
        "lights_count"@,
        "light_positions"@,
        "light_colors"@,
        "light_radiuses"@,
    ]
}

impl ObjectUniforms {
    /// Whether every location is the one `p` gives for the uniform's name.
    pub open spec fn located_in(self, p: &Program) -> bool {
        &&& located(p, "model_scale"@, self.model_scale)
        &&& located(p, "model_translation"@, self.model_translation)
        &&& located(p, "model_rotation"@, self.model_rotation)
        &&& located(p, "view_rotation"@, self.view_rotation)
        &&& located(p, "view_translation"@, self.view_translation)
        &&& located(p, "projection"@, self.projection)
        &&& located(p, "lights_count"@, self.lights_count)
        &&& located(p, "light_positions"@, self.light_positions)
        &&& located(p, "light_colors"@, self.light_colors)
        &&& located(p, "light_radiuses"@, self.light_radiuses)
    }

    /// Resolves every uniform of the lit object shader in `program`; fails
    /// naming the first one that is missing.
    pub fn new(program: &Program) -> (r: Result<ObjectUniforms, Error>)
        ensures
            r is Ok <==> all_resolve(program, object_uniform_names()),
            r matches Ok(u) ==> u.located_in(program),
            r matches Err(e) ==> fails_first_at(program, object_uniform_names(), e),
    {
        let names: Vec<&str> = vec![
            "model_scale",
            "model_translation",
            "model_rotation",
            "view_rotation",
            "view_translation",
            "projection",
            "lights_count",
            "light_positions",
            "light_colors",
            "light_radiuses",
        ];
        assert(name_views(names@) =~= object_uniform_names());
        let locs = match resolve_all(program, &names) {
            Ok(locs) => locs,
            Err(e) => return Err(e),
        };
        proof {
            assert(located(program, names@[0]@, locs@[0]));
            assert(located(program, names@[1]@, locs@[1]));
            assert(located(program, names@[2]@, locs@[2]));
            assert(located(program, names@[3]@, locs@[3]));
            assert(located(program, names@[4]@, locs@[4]));
            assert(located(program, names@[5]@, locs@[5]));
            assert(located(program, names@[6]@, locs@[6]));
            assert(located(program, names@[7]@, locs@[7]));
            assert(located(program, names@[8]@, locs@[8]));
            assert(located(program, names@[9]@, locs@[9]));
        }
        Ok(
            ObjectUniforms {
                model_scale: locs[0],
                model_translation: locs[1],
                model_rotation: locs[2],
                view_rotation: locs[3],
                view_translation: locs[4],
                projection: locs[5],
                lights_count: locs[6],
                light_positions: locs[7],
                light_colors: locs[8],
                light_radiuses: locs[9],
            },
        )
    }
}

/// Writing light `i` into the three light arrays: position, radius, color.
pub open spec fn light_commands(u: ObjectUniforms, l: LightSource, i: int) -> Seq<GlCommand> {
    seq![
        GlCommand::Uniform3f { location: (u.light_positions + i) as i32, value: l.position },
        GlCommand::Uniform1f { location: (u.light_radiuses + i) as i32, value: l.radius },
        GlCommand::Uniform4f { location: (u.light_colors + i) as i32, value: l.color },
    ]
}

/// Writing every light at its index, in order.
pub open spec fn lights_commands(u: ObjectUniforms, lights: Seq<LightSource>) -> Seq<GlCommand>
    decreases lights.len(),
{
    if lights.len() == 0 {
        seq![]
    } else {
        lights_commands(u, lights.drop_last()) + light_commands(
            u,
            lights.last(),
            lights.len() - 1,
        )
    }
}

/// Whether command `c` writes a light array element at an index below `n`,
/// and nothing else.
pub open spec fn writes_light_below(u: ObjectUniforms, c: GlCommand, n: int) -> bool {
    match c {
        GlCommand::Uniform3f { location, .. } => u.light_positions <= location
            < u.light_positions + n,
        GlCommand::Uniform1f { location, .. } => u.light_radiuses <= location < u.light_radiuses
            + n,
        GlCommand::Uniform4f { location, .. } => u.light_colors <= location < u.light_colors + n,
        _ => false,
    }
}

/// Writing `n` lights touches each light array only at indices `0..n`: the
/// elements from index `n` on keep their values.
pub proof fn lemma_lights_stay_below_count(u: ObjectUniforms, lights: Seq<LightSource>)
    requires
        u.light_positions >= 0,
        u.light_radiuses >= 0,
        u.light_colors >= 0,
        u.light_positions + lights.len() <= i32::MAX,
        u.light_radiuses + lights.len() <= i32::MAX,
        u.light_colors + lights.len() <= i32::MAX,
    ensures
        lights_commands(u, lights).len() == 3 * lights.len(),
        forall|j: int|
            0 <= j < lights_commands(u, lights).len() ==> writes_light_below(
                u,
                #[trigger] lights_commands(u, lights)[j],
                lights.len() as int,
            ),
    decreases lights.len(),
{
    if lights.len() > 0 {
        let prefix = lights.drop_last();
        lemma_lights_stay_below_count(u, prefix);
        let all = lights_commands(u, lights);
        let head = lights_commands(u, prefix);
        let tail = light_commands(u, lights.last(), lights.len() - 1);
        assert forall|j: int| 0 <= j < all.len() implies writes_light_below(
            u,
            #[trigger] all[j],
            lights.len() as int,
        ) by {
            if j < head.len() {
                assert(all[j] == head[j]);
                assert(writes_light_below(u, head[j], prefix.len() as int));
            } else {
                assert(all[j] == tail[j - head.len()]);
            }
        }
    }
}

/// Draws lit objects from one vertex buffer uploaded at construction.
pub struct ObjectsDraw {
    program: Program,
    vbo: ArrayBuffer,
    vao: VertexArray,
    uniform_locs: ObjectUniforms,
    vertex_count: usize,
}

impl ObjectsDraw {
    pub closed spec fn program_handle(&self) -> u32 {
        self.program.handle()
    }

    pub closed spec fn buffer_handle(&self) -> u32 {
        self.vbo.handle()
    }

    pub closed spec fn array_handle(&self) -> u32 {
        self.vao.handle()
    }

    pub closed spec fn locations(&self) -> ObjectUniforms {
        self.uniform_locs
    }

    /// Number of vertices in the buffer.
    pub closed spec fn vertex_count(&self) -> int {
        self.vertex_count as int
    }

    /// Number of vertices in the buffer.
    pub fn num_vertices(&self) -> (r: usize)
        ensures
            r == self.vertex_count(),
    {
        self.vertex_count
    }

    pub fn uniform_locations(&self) -> (r: ObjectUniforms)
        ensures
            r == self.locations(),
    {
        self.uniform_locs
    }

    pub closed spec fn wf(&self) -> bool {
        &&& self.vertex_count <= i32::MAX
        &&& self.uniform_locs.located_in(&self.program)
    }

    /// Sets up drawing with `program`: records the vertex layout in `vao`
    /// against `vbo`, resolves the uniforms, activates the program and uploads
    /// `verticies` once. Without one of the uniforms nothing is kept: the
    /// three objects are deleted.
    pub fn new(
        cmds: &mut Vec<GlCommand>,
        program: Program,
        vbo: ArrayBuffer,
        vao: VertexArray,
        verticies: &Vec<VertexData>,
    ) -> (r: Result<ObjectsDraw, Error>)
        requires
            verticies@.len() <= i32::MAX,
        ensures
            r is Ok <==> all_resolve(&program, object_uniform_names()),
            r matches Ok(d) ==> {
                &&& d.wf()
                &&& d.program_handle() == program.handle()
                &&& d.buffer_handle() == vbo.handle()
                &&& d.array_handle() == vao.handle()
                &&& d.locations().located_in(&program)
                &&& d.vertex_count() == verticies@.len()
                &&& final(cmds)@.drop_last() == old(cmds)@ + layout_setup_commands(
                    vbo.handle(),
                    vao.handle(),
                ) + seq![
                    GlCommand::UseProgram { program: program.handle() },
                    GlCommand::BindBuffer { target: BufferTarget::Array, buffer: vbo.handle() },
                ]
                &&& uploads(final(cmds)@.last(), Usage::StaticDraw, vertices_bytes(verticies@))
            },
            r matches Err(e) ==> {
                &&& fails_first_at(&program, object_uniform_names(), e)
                &&& final(cmds)@ == old(cmds)@ + layout_setup_commands(vbo.handle(), vao.handle())
                    + seq![
                    GlCommand::DeleteVertexArray { array: vao.handle() },
                    GlCommand::DeleteBuffer { buffer: vbo.handle() },
                    GlCommand::DeleteProgram { program: program.handle() },
                ]
            },
    {
        let ghost start = cmds@;
        setup_vertex_layout(cmds, &vbo, &vao);
        let uniform_locs = match ObjectUniforms::new(&program) {
            Ok(u) => u,
            Err(e) => {
                vao.release(cmds);
                vbo.release(cmds);
                program.release(cmds);
                assert(cmds@ =~= start + layout_setup_commands(vbo.handle(), vao.handle()) + seq![
                    GlCommand::DeleteVertexArray { array: vao.handle() },
                    GlCommand::DeleteBuffer { buffer: vbo.handle() },
                    GlCommand::DeleteProgram { program: program.handle() },
                ]);
                return Err(e);
            },
        };
        let objects_draw = ObjectsDraw {
            program,
            vbo,
            vao,
            uniform_locs,
            vertex_count: verticies.len(),
        };
        objects_draw.program.set_used(cmds);
        objects_draw.vbo.bind(cmds);
        let ghost before_upload = cmds@;
        objects_draw.vbo.static_draw_data(cmds, vertices_to_bytes(verticies));
        assert(cmds@.drop_last() =~= before_upload);
        assert(before_upload =~= start + layout_setup_commands(vbo.handle(), vao.handle()) + seq![
            GlCommand::UseProgram { program: program.handle() },
            GlCommand::BindBuffer { target: BufferTarget::Array, buffer: vbo.handle() },
        ]);
        Ok(objects_draw)
    }

    pub fn program(&self) -> (r: &Program)
        ensures
            r.handle() == self.program_handle(),
    {
        &self.program
    }

    /// Activates the program and binds the buffer and vertex array, once
    /// before a sequence of draws.
    pub fn prepare_for_draws(&self, cmds: &mut Vec<GlCommand>)
        ensures
            final(cmds)@ == old(cmds)@ + seq![
                GlCommand::UseProgram { program: self.program_handle() },
                GlCommand::BindBuffer { target: BufferTarget::Array, buffer: self.buffer_handle() },
                GlCommand::BindVertexArray { array: self.array_handle() },
            ],
    {
        self.program.set_used(cmds);
        self.vbo.bind(cmds);
        self.vao.bind(cmds);
        assert(cmds@ =~= old(cmds)@ + seq![
            GlCommand::UseProgram { program: self.program_handle() },
            GlCommand::BindBuffer { target: BufferTarget::Array, buffer: self.buffer_handle() },
            GlCommand::BindVertexArray { array: self.array_handle() },
        ]);
    }

    /// Sets the model uniforms and draws `num_vertices` vertices from vertex
    /// `offset`, which must lie within the buffer.
    pub fn draw(
        &self,
        cmds: &mut Vec<GlCommand>,
        model_scale: f32_,
        model_translation: Mat4,
        model_rotation: Mat4,
        num_vertices: usize,
        offset: usize,
    )
        requires
            self.wf(),
            offset + num_vertices <= self.vertex_count(),
        ensures
            final(cmds)@ == old(cmds)@ + model_draw_commands(
                self.locations().model_scale,
                self.locations().model_translation,
                self.locations().model_rotation,
                ModelTransform {
                    scale: model_scale,
                    translation: model_translation,
                    rotation: model_rotation,
                },
                offset as int,
                num_vertices as int,
            ),
    {
        let m = ModelTransform {
            scale: model_scale,
            translation: model_translation,
            rotation: model_rotation,
        };
        draw_model(
            cmds,
            self.uniform_locs.model_scale,
            self.uniform_locs.model_translation,
            self.uniform_locs.model_rotation,
            m,
            offset,
            num_vertices,
        );
    }

    /// Draws object `i` of `models` from vertex `i * per_object`,
    /// `per_object` vertices long, for every `i` in order.
    pub fn draw_objects(
        &self,
        cmds: &mut Vec<GlCommand>,
        models: &Vec<ModelTransform>,
        per_object: usize,
    )
        requires
            self.wf(),
            models@.len() * per_object <= self.vertex_count(),
        ensures
            final(cmds)@ == old(cmds)@ + objects_draw_commands(
                self.locations().model_scale,
                self.locations().model_translation,
                self.locations().model_rotation,
                models@,
                per_object as int,
            ),
    {
        draw_models(
            cmds,
            self.uniform_locs.model_scale,
            self.uniform_locs.model_translation,
            self.uniform_locs.model_rotation,
            models,
            per_object,
        );
    }

    /// Writes each light at its index of the light arrays, then the number of
    /// lights; the shader reads no further than that number.
    pub fn set_spotlights(&self, cmds: &mut Vec<GlCommand>, lights: &Vec<LightSource>)
        requires
            self.wf(),
            self.locations().light_positions + lights@.len() <= i32::MAX,
            self.locations().light_radiuses + lights@.len() <= i32::MAX,
            self.locations().light_colors + lights@.len() <= i32::MAX,
        ensures
            final(cmds)@ == old(cmds)@ + seq![GlCommand::UseProgram { program: self.program_handle() }]
                + lights_commands(self.locations(), lights@) + seq![
                GlCommand::Uniform1ui {
                    location: self.locations().lights_count,
                    value: lights@.len() as u32,
                },
            ],
    {
        let ghost start = cmds@;
        self.program.set_used(cmds);
        let ghost used = cmds@;
        let u = self.uniform_locs;
        proof {
            lemma_found_location_valid(self.program.uniform_table(), "light_positions"@);
            lemma_found_location_valid(self.program.uniform_table(), "light_radiuses"@);
            lemma_found_location_valid(self.program.uniform_table(), "light_colors"@);
        }
        let mut lights_count: u32 = 0;
        let mut i: usize = 0;
        while i < lights.len()
            invariant
                i <= lights@.len(),
                lights_count == i,
                u == self.locations(),
                u.light_positions >= 0,
                u.light_radiuses >= 0,
                u.light_colors >= 0,
                u.light_positions + lights@.len() <= i32::MAX,
                u.light_radiuses + lights@.len() <= i32::MAX,
                u.light_colors + lights@.len() <= i32::MAX,
                cmds@ == used + lights_commands(u, lights@.take(i as int)),
            decreases lights@.len() - i,
        {
            let light = lights[i];
            self.program.set_vec3_array_uniform(cmds, u.light_positions, i, light.position);
            self.program.set_float_array_uniform(cmds, u.light_radiuses, i, light.radius);
            self.program.set_vec4_array_uniform(cmds, u.light_colors, i, light.color);
            proof {
                let t = lights@.take(i as int + 1);
                assert(t.drop_last() =~= lights@.take(i as int));
                assert(t.last() == light);
                assert(cmds@ =~= used + lights_commands(u, t));
            }
            lights_count = lights_count + 1;
            i = i + 1;
        }
        assert(lights@.take(i as int) =~= lights@);
        self.program.set_uint_uniform(cmds, u.lights_count, lights_count);
        assert(cmds@ =~= start + seq![GlCommand::UseProgram { program: self.program_handle() }]
            + lights_commands(self.locations(), lights@) + seq![
            GlCommand::Uniform1ui {
                location: self.locations().lights_count,
                value: lights@.len() as u32,
            },
        ]);
    }

    /// Activates the program and sets the two view uniforms.
    pub fn set_view(&self, cmds: &mut Vec<GlCommand>, view_translation: Mat4, view_rotation: Mat4)
        ensures
            final(cmds)@ == old(cmds)@ + seq![
                GlCommand::UseProgram { program: self.program_handle() },
                GlCommand::UniformMatrix4f {
                    location: self.locations().view_translation,
                    value: view_translation,
                },
                GlCommand::UniformMatrix4f {
                    location: self.locations().view_rotation,
                    value: view_rotation,
                },
            ],
    {
        self.program.set_used(cmds);
        self.program.set_mat4_uniform(cmds, self.uniform_locs.view_translation, view_translation);
        self.program.set_mat4_uniform(cmds, self.uniform_locs.view_rotation, view_rotation);
        assert(cmds@ =~= old(cmds)@ + seq![
            GlCommand::UseProgram { program: self.program_handle() },
            GlCommand::UniformMatrix4f {
                location: self.locations().view_translation,
                value: view_translation,
            },
            GlCommand::UniformMatrix4f {
                location: self.locations().view_rotation,
                value: view_rotation,
            },
        ]);
    }

    /// Activates the program and sets the projection uniform.
    pub fn set_projection(&self, cmds: &mut Vec<GlCommand>, projection: Mat4)
        ensures
            final(cmds)@ == old(cmds)@ + seq![
                GlCommand::UseProgram { program: self.program_handle() },
                GlCommand::UniformMatrix4f {
                    location: self.locations().projection,
                    value: projection,
                },
            ],
    {
        self.program.set_used(cmds);
        self.program.set_mat4_uniform(cmds, self.uniform_locs.projection, projection);
        assert(cmds@ =~= old(cmds)@ + seq![
            GlCommand::UseProgram { program: self.program_handle() },
            GlCommand::UniformMatrix4f { location: self.locations().projection, value: projection },
        ]);
    }
}

} // verus!
