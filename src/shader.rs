//! Shader programs: loading and linking as a sequence of steps whose driver
//! work is done by the caller, the table of uniform locations of a linked
//! program, and the typed uniform setters.

use vstd::prelude::*;

use crate::command::{GlCommand, Mat4};
use crate::data::{f32_, f32_f32_f32, f32_f32_f32_f32};
use crate::resources;
use crate::resources::{contains_nul, cstring_from_bytes};

verus! {

/// Why a shader or program could not be made, or a uniform found.
#[derive(Debug)]
pub enum Error {
    /// The text of resource `name` could not be loaded.
    ResourceLoad { name: String, inner: resources::Error },
    /// The resource name ends neither in `.vert` nor in `.frag`.
    CannotDetermineShaderTypeForResource { name: String },
    /// The driver rejected the shader `name`; `message` is its full log.
    CompileError { name: String, message: String },
    /// The driver could not link the program `name`; `message` is its full log.
    LinkError { name: String, message: String },
    /// The linked program has no active uniform called `name`.
    UniformNameError { name: String },
}

/// The pipeline stage of a shader.
#[derive(Clone, Copy, Debug, PartialEq, Eq, Structural)]
pub enum StageKind {
    Vertex,
    Fragment,
}

pub open spec fn vert_suffix() -> Seq<char> {
    seq!['.', 'v', 'e', 'r', 't']
}

pub open spec fn frag_suffix() -> Seq<char> {
    seq!['.', 'f', 'r', 'a', 'g']
}

pub open spec fn has_suffix(s: Seq<char>, suffix: Seq<char>) -> bool {
    suffix.len() <= s.len() && s.subrange(s.len() - suffix.len(), s.len() as int) == suffix
}

/// The stage named by a resource's suffix: `.vert` or `.frag`.
pub open spec fn stage_kind_of(name: Seq<char>) -> Option<StageKind> {
    if has_suffix(name, vert_suffix()) {
        Some(StageKind::Vertex)
    } else if has_suffix(name, frag_suffix()) {
        Some(StageKind::Fragment)
    } else {
        None
    }
}

fn ends_with(s: &str, suffix: &str) -> (r: bool)
    ensures
        r == has_suffix(s@, suffix@),
{
    let n = s.unicode_len();
    let m = suffix.unicode_len();
    if m > n {
        return false;
    }
    let mut i: usize = 0;
    while i < m
        invariant
            n == s@.len(),
            m == suffix@.len(),
            m <= n,
            i <= m,
            forall|k: int| 0 <= k < i ==> s@[n - m + k] == suffix@[k],
        decreases m - i,
    {
        if s.get_char(n - m + i) != suffix.get_char(i) {
            assert(s@.subrange(n - m, n as int)[i as int] != suffix@[i as int]);
            return false;
        }
        i = i + 1;
    }
    assert(s@.subrange(n - m, n as int) =~= suffix@);
    true
}

/// A compiled shader object.
#[derive(Debug)]
pub struct Shader {
    id: u32,
}

impl Shader {
    pub closed spec fn handle(&self) -> u32 {
        self.id
    }

    pub fn id(&self) -> (r: u32)
        ensures
            r == self.handle(),
    {
        self.id
    }

    /// The stage of the shader resource `name`, from its suffix.
    pub fn kind_for_resource(name: &str) -> (r: Result<StageKind, Error>)
        ensures
            stage_kind_of(name@) matches Some(k) ==> r == Ok::<StageKind, Error>(k),
            stage_kind_of(name@) is None ==> (r matches Err(
                Error::CannotDetermineShaderTypeForResource { name: n },
            ) && n@ == name@),
    {
        proof {
            reveal_strlit(".vert");
            reveal_strlit(".frag");
            assert(".vert"@ =~= vert_suffix());
            assert(".frag"@ =~= frag_suffix());
        }
        if ends_with(name, ".vert") {
            Ok(StageKind::Vertex)
        } else if ends_with(name, ".frag") {
            Ok(StageKind::Fragment)
        } else {
            Err(Error::CannotDetermineShaderTypeForResource { name: name.to_owned() })
        }
    }

    /// Decides what to compile for the shader resource `name`, given the
    /// outcome of reading it: its stage (an unknown suffix fails first), and
    /// its text, which must hold no NUL byte.
    pub fn from_res(name: &str, loaded: Result<Vec<u8>, resources::Error>) -> (r: Result<
        (StageKind, Vec<u8>),
        Error,
    >)
        ensures
            stage_kind_of(name@) is None ==> (r matches Err(
                Error::CannotDetermineShaderTypeForResource { name: n },
            ) && n@ == name@),
            stage_kind_of(name@) is Some ==> (loaded matches Err(e) ==> (r matches Err(
                Error::ResourceLoad { name: n, inner },
            ) && n@ == name@ && inner == e)),
            stage_kind_of(name@) is Some ==> (loaded matches Ok(b) ==> (contains_nul(b@) ==> (
            r matches Err(Error::ResourceLoad { name: n, inner: resources::Error::FileContainsNil })
                && n@ == name@))),
            stage_kind_of(name@) is Some ==> (loaded matches Ok(b) ==> (!contains_nul(b@) ==> (
            r matches Ok((kind, source)) && Some(kind) == stage_kind_of(name@) && source@
                == b@))),
    {
        let kind = match Shader::kind_for_resource(name) {
            Ok(k) => k,
            Err(e) => return Err(e),
        };
        match loaded {
            Err(e) => Err(Error::ResourceLoad { name: name.to_owned(), inner: e }),
            Ok(bytes) => match cstring_from_bytes(bytes) {
                Ok(source) => Ok((kind, source)),
                Err(e) => Err(Error::ResourceLoad { name: name.to_owned(), inner: e }),
            },
        }
    }

    /// The shader `name` from the driver's compile outcome: its object, or
    /// its log.
    pub fn from_compiled(name: &str, compiled: Result<u32, String>) -> (r: Result<Shader, Error>)
        ensures
            compiled matches Ok(id) ==> (r matches Ok(s) && s.handle() == id),
            compiled matches Err(log) ==> (r matches Err(Error::CompileError { name: n, message })
                && n@ == name@ && message == log),
    {
        match compiled {
            Ok(id) => Ok(Shader { id }),
            Err(log) => Err(Error::CompileError { name: name.to_owned(), message: log }),
        }
    }

    /// Deletes the shader object.
    pub fn release(self, cmds: &mut Vec<GlCommand>)
        ensures
            final(cmds)@ == old(cmds)@.push(GlCommand::DeleteShader { shader: self.handle() }),
    {
        cmds.push(GlCommand::DeleteShader { shader: self.id });
    }
}

/// One active uniform of a linked program, as the driver reports it.
#[derive(Clone, Debug, PartialEq, Eq)]
pub struct UniformInfo {
    pub name: String,
    pub location: i32,
}

pub open spec fn array_suffix() -> Seq<char> {
    seq!['[', '0', ']']
}

/// Whether `u` is the uniform called `name`: the driver names an array by
/// its first element, `name[0]`.
pub open spec fn names_uniform(u: UniformInfo, name: Seq<char>) -> bool {
    u.location >= 0 && (u.name@ == name || u.name@ == name + array_suffix())
}

/// The location of the first entry of `table` called `name`.
pub open spec fn find_uniform(table: Seq<UniformInfo>, name: Seq<char>) -> Option<i32>
    decreases table.len(),
{
    if table.len() == 0 {
        None
    } else if names_uniform(table[0], name) {
        Some(table[0].location)
    } else {
        find_uniform(table.drop_first(), name)
    }
}

/// A location found in the table is a valid one.
pub proof fn lemma_found_location_valid(table: Seq<UniformInfo>, name: Seq<char>)
    ensures
        find_uniform(table, name) matches Some(loc) ==> loc >= 0,
    decreases table.len(),
{
    if table.len() > 0 && !names_uniform(table[0], name) {
        lemma_found_location_valid(table.drop_first(), name);
    }
}

/// A linked program and the locations of its active uniforms.
#[derive(Debug)]
pub struct Program {
    id: u32,
    uniforms: Vec<UniformInfo>,
}

/// What resolving `name` in `p` gives: the location of the uniform, or
/// `UniformNameError` naming it.
pub open spec fn resolves_to(p: &Program, name: Seq<char>, r: Result<i32, Error>) -> bool {
    match find_uniform(p.uniform_table(), name) {
        Some(loc) => r == Ok::<i32, Error>(loc),
        None => r matches Err(Error::UniformNameError { name: n }) && n@ == name,
    }
}

/// Resolving a name twice in one program gives the same location both times,
/// or fails both times naming the same uniform.
pub proof fn lemma_resolution_deterministic(
    p: &Program,
    name: Seq<char>,
    first: Result<i32, Error>,
    second: Result<i32, Error>,
)
    requires
        resolves_to(p, name, first),
        resolves_to(p, name, second),
    ensures
        first matches Ok(a) ==> second == Ok::<i32, Error>(a),
        first matches Err(Error::UniformNameError { name: a }) ==> (second matches Err(
            Error::UniformNameError { name: b },
        ) && a@ == b@),
        first is Ok <==> second is Ok,
{
}

impl Program {
    pub closed spec fn handle(&self) -> u32 {
        self.id
    }

    pub closed spec fn uniform_table(&self) -> Seq<UniformInfo> {
        self.uniforms@
    }

    /// The program object `id`, linked, with the active uniforms that the
    /// driver reports for it.
    pub fn from_linked(id: u32, uniforms: Vec<UniformInfo>) -> (r: Program)
        ensures
            r.handle() == id,
            r.uniform_table() == uniforms@,
    {
        Program { id, uniforms }
    }

    /// Starts loading the program `name` from the shader resources
    /// `name.vert` and `name.frag`: the loader, and what to do first.
    pub fn from_res(name: &str) -> (r: (ProgramLoader, LoadStep))
        ensures
            r.0.wf(),
            r.0.name() == name@,
            r.0.shader_ids().len() == 0,
            r.1 matches LoadStep::ReadResource { resource } && resource@ == name@ + vert_suffix(),
            r.0.phase() matches LoadPhase::Reading { resource } && resource@ == name@
                + vert_suffix(),
    {
        let mut first = name.to_owned();
        first.append(".vert");
        proof {
            reveal_strlit(".vert");
            assert(".vert"@ =~= vert_suffix());
        }
        let loader = ProgramLoader {
            name: name.to_owned(),
            shaders: Vec::new(),
            phase: LoadPhase::Reading { resource: first.clone() },
        };
        assert(loader.shader_ids() =~= Seq::<u32>::empty());
        (loader, LoadStep::ReadResource { resource: first })
    }

    pub fn id(&self) -> (r: u32)
        ensures
            r == self.handle(),
    {
        self.id
    }

    /// The location of the uniform `uniform_name`; the same answer every time.
    pub fn get_uniform_loc(&self, uniform_name: &str) -> (r: Result<i32, Error>)
        ensures
            resolves_to(self, uniform_name@, r),
    {
        let query = uniform_name.to_owned();
        let mut element = uniform_name.to_owned();
        element.append("[0]");
        proof {
            reveal_strlit("[0]");
            assert("[0]"@ =~= array_suffix());
        }
        let ghost table = self.uniforms@;
        let mut i: usize = 0;
        assert(table.skip(0) =~= table);
        while i < self.uniforms.len()
            invariant
                table == self.uniforms@,
                i <= table.len(),
                query@ == uniform_name@,
                element@ == uniform_name@ + array_suffix(),
                find_uniform(table, uniform_name@) == find_uniform(
                    table.skip(i as int),
                    uniform_name@,
                ),
            decreases table.len() - i,
        {
            let u = &self.uniforms[i];
            assert(table.skip(i as int)[0] == table[i as int]);
            if u.location >= 0 && (u.name == query || u.name == element) {
                return Ok(u.location);
            }
            assert(table.skip(i as int).drop_first() =~= table.skip(i as int + 1));
            i = i + 1;
        }
        Err(Error::UniformNameError { name: query })
    }

    pub fn set_float_uniform(&self, cmds: &mut Vec<GlCommand>, loc: i32, value: f32_)
        ensures
            final(cmds)@ == old(cmds)@.push(GlCommand::Uniform1f { location: loc, value }),
    {
        cmds.push(GlCommand::Uniform1f { location: loc, value });
    }

    pub fn set_vec3_uniform(&self, cmds: &mut Vec<GlCommand>, loc: i32, value: f32_f32_f32)
        ensures
            final(cmds)@ == old(cmds)@.push(GlCommand::Uniform3f { location: loc, value }),
    {
        cmds.push(GlCommand::Uniform3f { location: loc, value });
    }

    pub fn set_vec4_uniform(&self, cmds: &mut Vec<GlCommand>, loc: i32, value: f32_f32_f32_f32)
        ensures
            final(cmds)@ == old(cmds)@.push(GlCommand::Uniform4f { location: loc, value }),
    {
        cmds.push(GlCommand::Uniform4f { location: loc, value });
    }

    pub fn set_mat4_uniform(&self, cmds: &mut Vec<GlCommand>, loc: i32, value: Mat4)
        ensures
            final(cmds)@ == old(cmds)@.push(GlCommand::UniformMatrix4f { location: loc, value }),
    {
        cmds.push(GlCommand::UniformMatrix4f { location: loc, value });
    }

    /// Sets element `idx` of the array uniform whose first element is at `loc`.
    pub fn set_vec4_array_uniform(
        &self,
        cmds: &mut Vec<GlCommand>,
        loc: i32,
        idx: usize,
        value: f32_f32_f32_f32,
    )
        requires
            0 <= loc,
            loc + idx <= i32::MAX,
        ensures
            final(cmds)@ == old(cmds)@.push(
                GlCommand::Uniform4f { location: (loc + idx) as i32, value },
            ),
    {
        cmds.push(GlCommand::Uniform4f { location: loc + idx as i32, value });
    }

    /// Sets element `idx` of the array uniform whose first element is at `loc`.
    pub fn set_vec3_array_uniform(
        &self,
        cmds: &mut Vec<GlCommand>,
        loc: i32,
        idx: usize,
        value: f32_f32_f32,
    )
        requires
            0 <= loc,
            loc + idx <= i32::MAX,
        ensures
            final(cmds)@ == old(cmds)@.push(
                GlCommand::Uniform3f { location: (loc + idx) as i32, value },
            ),
    {
        cmds.push(GlCommand::Uniform3f { location: loc + idx as i32, value });
    }

    /// Sets element `idx` of the array uniform whose first element is at `loc`.
    pub fn set_float_array_uniform(
        &self,
        cmds: &mut Vec<GlCommand>,
        loc: i32,
        idx: usize,
        value: f32_,
    )
        requires
            0 <= loc,
            loc + idx <= i32::MAX,
        ensures
            final(cmds)@ == old(cmds)@.push(
                GlCommand::Uniform1f { location: (loc + idx) as i32, value },
            ),
    {
        cmds.push(GlCommand::Uniform1f { location: loc + idx as i32, value });
    }

    pub fn set_uint_uniform(&self, cmds: &mut Vec<GlCommand>, loc: i32, value: u32)
        ensures
            final(cmds)@ == old(cmds)@.push(GlCommand::Uniform1ui { location: loc, value }),
    {
        cmds.push(GlCommand::Uniform1ui { location: loc, value });
    }

    /// Makes this the active program.
    pub fn set_used(&self, cmds: &mut Vec<GlCommand>)
        ensures
            final(cmds)@ == old(cmds)@.push(GlCommand::UseProgram { program: self.handle() }),
    {
        cmds.push(GlCommand::UseProgram { program: self.id });
    }

    /// Deletes the program object.
    pub fn release(self, cmds: &mut Vec<GlCommand>)
        ensures
            final(cmds)@ == old(cmds)@.push(GlCommand::DeleteProgram { program: self.handle() }),
    {
        cmds.push(GlCommand::DeleteProgram { program: self.id });
    }
}

/// Where a program load stands.
#[derive(Debug)]
pub enum LoadPhase {
    /// Waiting for the text of `resource`.
    Reading { resource: String },
    /// Waiting for the driver to compile `resource`.
    Compiling { resource: String },
    /// Waiting for the driver to link the compiled shaders.
    Linking,
    /// Done; no further event is taken.
    Finished,
}

/// What the caller reports back after doing a [`LoadStep`].
#[derive(Debug)]
pub enum LoadEvent {
    /// The outcome of reading a resource's file.
    ResourceRead(Result<Vec<u8>, resources::Error>),
    /// The new shader object, or the driver's compile log.
    ShaderCompiled(Result<u32, String>),
    /// The linked program object with its active uniforms, or the driver's
    /// link log.
    ProgramLinked(Result<(u32, Vec<UniformInfo>), String>),
}

/// What the caller is asked to do next.
#[derive(Debug)]
pub enum LoadStep {
    /// Read the file of `resource` and report [`LoadEvent::ResourceRead`].
    ReadResource { resource: String },
    /// Compile `source` as a shader of stage `kind` and report
    /// [`LoadEvent::ShaderCompiled`].
    CompileShader { resource: String, kind: StageKind, source: Vec<u8> },
    /// Create a program, attach `shaders`, link it, detach them after a
    /// successful link, and report [`LoadEvent::ProgramLinked`].
    LinkProgram { shaders: Vec<u32> },
    /// Loading failed.
    Failed(Error),
    /// Loading succeeded.
    Linked(Program),
}

/// The stage compiled in position `i`: the vertex stage, then the fragment stage.
pub open spec fn stage_at(i: int) -> StageKind {
    if i == 0 {
        StageKind::Vertex
    } else {
        StageKind::Fragment
    }
}

pub open spec fn suffix_at(i: int) -> Seq<char> {
    if i == 0 {
        vert_suffix()
    } else {
        frag_suffix()
    }
}

/// Deleting shader objects from the last one to the first.
pub open spec fn release_commands(ids: Seq<u32>) -> Seq<GlCommand>
    decreases ids.len(),
{
    if ids.len() == 0 {
        seq![]
    } else {
        seq![GlCommand::DeleteShader { shader: ids.last() }] + release_commands(ids.drop_last())
    }
}

/// Loads a program: reads and compiles its vertex stage, then its fragment
/// stage, then links them. Each [`LoadStep`] asks the caller for one piece
/// of outside work; the caller reports its outcome with
/// [`ProgramLoader::step`]. The shader objects are deleted once loading ends.
pub struct ProgramLoader {
    name: String,
    shaders: Vec<Shader>,
    phase: LoadPhase,
}

impl ProgramLoader {
    pub closed spec fn name(&self) -> Seq<char> {
        self.name@
    }

    /// The shader objects compiled so far, in stage order.
    pub closed spec fn shader_ids(&self) -> Seq<u32> {
        self.shaders@.map_values(|s: Shader| s.handle())
    }

    pub closed spec fn phase(&self) -> LoadPhase {
        self.phase
    }

    pub open spec fn wf(&self) -> bool {
        let n = self.shader_ids().len();
        match self.phase() {
            LoadPhase::Reading { resource } => n < 2 && resource@ == self.name() + suffix_at(
                n as int,
            ),
            LoadPhase::Compiling { resource } => n < 2 && resource@ == self.name() + suffix_at(
                n as int,
            ),
            LoadPhase::Linking => n == 2,
            LoadPhase::Finished => n == 0,
        }
    }

    /// Whether `event` answers the step that the loader is waiting on.
    pub open spec fn accepts(&self, event: LoadEvent) -> bool {
        match (self.phase(), event) {
            (LoadPhase::Reading { .. }, LoadEvent::ResourceRead(_)) => true,
            (LoadPhase::Compiling { .. }, LoadEvent::ShaderCompiled(_)) => true,
            (LoadPhase::Linking, LoadEvent::ProgramLinked(_)) => true,
            _ => false,
        }
    }

    pub fn is_accepted(&self, event: &LoadEvent) -> (r: bool)
        ensures
            r == self.accepts(*event),
    {
        match (&self.phase, event) {
            (LoadPhase::Reading { .. }, LoadEvent::ResourceRead(_)) => true,
            (LoadPhase::Compiling { .. }, LoadEvent::ShaderCompiled(_)) => true,
            (LoadPhase::Linking, LoadEvent::ProgramLinked(_)) => true,
            _ => false,
        }
    }

    fn release_shaders(&mut self, cmds: &mut Vec<GlCommand>)
        ensures
            final(cmds)@ == old(cmds)@ + release_commands(old(self).shader_ids()),
            final(self).shader_ids().len() == 0,
            final(self).name() == old(self).name(),
            final(self).phase() == old(self).phase(),
    {
        let ghost ids = self.shader_ids();
        while self.shaders.len() > 0
            invariant
                old(cmds)@ + release_commands(ids) == cmds@ + release_commands(self.shader_ids()),
                self.name() == old(self).name(),
                self.phase() == old(self).phase(),
            decreases self.shaders@.len(),
        {
            let ghost before = self.shader_ids();
            let s = self.shaders.pop().unwrap();
            let ghost id = s.handle();
            s.release(cmds);
            proof {
                assert(self.shader_ids() =~= before.drop_last());
                assert(before.last() == id);
                assert(seq![GlCommand::DeleteShader { shader: id }] + release_commands(
                    before.drop_last(),
                ) == release_commands(before));
                assert(cmds@ + release_commands(self.shader_ids()) =~= old(cmds)@
                    + release_commands(ids));
            }
        }
        assert(self.shader_ids() =~= Seq::<u32>::empty());
        assert(cmds@ + release_commands(self.shader_ids()) =~= cmds@);
    }
}


/// The outcome of reading resource `res` for the stage after the shaders
/// `ids`: its text goes to the compiler, or the load fails.
pub open spec fn after_read(
    res: Seq<char>,
    ids: Seq<u32>,
    loaded: Result<Vec<u8>, resources::Error>,
    r: LoadStep,
    next: ProgramLoader,
) -> bool {
    match loaded {
        Err(e) => r matches LoadStep::Failed(Error::ResourceLoad { name: n, inner }) && n@ == res
            && inner == e,
        Ok(b) => if contains_nul(b@) {
            r matches LoadStep::Failed(
                Error::ResourceLoad { name: n, inner: resources::Error::FileContainsNil },
            ) && n@ == res
        } else {
            &&& (r matches LoadStep::CompileShader { resource, kind, source } && resource@ == res
                && kind == stage_at(ids.len() as int) && source@ == b@)
            &&& (next.phase() matches LoadPhase::Compiling { resource } && resource@ == res)
            &&& next.shader_ids() == ids
        },
    }
}

/// The outcome of compiling resource `res`: the next stage is read, or the
/// shaders are linked once both stages are compiled, or the load fails.
pub open spec fn after_compile(
    name: Seq<char>,
    res: Seq<char>,
    ids: Seq<u32>,
    compiled: Result<u32, String>,
    r: LoadStep,
    next: ProgramLoader,
) -> bool {
    match compiled {
        Err(log) => r matches LoadStep::Failed(Error::CompileError { name: n, message }) && n@
            == res && message == log,
        Ok(id) => {
            &&& next.shader_ids() == ids.push(id)
            &&& if ids.len() == 0 {
                &&& (r matches LoadStep::ReadResource { resource } && resource@ == name
                    + frag_suffix())
                &&& (next.phase() matches LoadPhase::Reading { resource } && resource@ == name
                    + frag_suffix())
            } else {
                &&& (r matches LoadStep::LinkProgram { shaders } && shaders@ == ids.push(id))
                &&& next.phase() is Linking
            }
        },
    }
}

/// The outcome of linking the program `name`: the program with its
/// uniforms, or the link log.
pub open spec fn after_link(
    name: Seq<char>,
    linked: Result<(u32, Vec<UniformInfo>), String>,
    r: LoadStep,
) -> bool {
    match linked {
        Err(log) => r matches LoadStep::Failed(Error::LinkError { name: n, message }) && n@ == name
            && message == log,
        Ok((id, uniforms)) => r matches LoadStep::Linked(p) && p.handle() == id
            && p.uniform_table() == uniforms@,
    }
}

proof fn lemma_suffix_stage(name: Seq<char>, i: int)
    requires
        0 <= i < 2,
    ensures
        stage_kind_of(name + suffix_at(i)) == Some(stage_at(i)),
{
    let s = name + suffix_at(i);
    assert(s.subrange(s.len() - 5, s.len() as int) =~= suffix_at(i));
    if i == 1 {
        assert(suffix_at(i)[1] != vert_suffix()[1]);
    }
}

impl ProgramLoader {
    /// Takes the outcome of the step the loader asked for and says what to do
    /// next. A failure or a successful link ends the load and deletes the
    /// compiled shader objects; no other step issues a command.
    pub fn step(&mut self, event: LoadEvent, cmds: &mut Vec<GlCommand>) -> (r: LoadStep)
        requires
            old(self).wf(),
            old(self).accepts(event),
        ensures
            final(self).wf(),
            final(self).name() == old(self).name(),
            (r is Failed || r is Linked) <==> final(self).phase() is Finished,
            (r is Failed || r is Linked) ==> final(cmds)@ == old(cmds)@ + release_commands(
                old(self).shader_ids(),
            ),
            !(r is Failed || r is Linked) ==> final(cmds)@ == old(cmds)@,
            old(self).phase() matches LoadPhase::Reading { resource } ==> (event matches LoadEvent::ResourceRead(
                loaded,
            ) ==> after_read(resource@, old(self).shader_ids(), loaded, r, *final(self))),
            old(self).phase() matches LoadPhase::Compiling { resource } ==> (
            event matches LoadEvent::ShaderCompiled(compiled) ==> after_compile(
                old(self).name(),
                resource@,
                old(self).shader_ids(),
                compiled,
                r,
                *final(self),
            )),
            old(self).phase() is Linking ==> (event matches LoadEvent::ProgramLinked(linked)
                ==> after_link(old(self).name(), linked, r)),
    {
        match event {
            LoadEvent::ResourceRead(loaded) => {
                let resource = match &self.phase {
                    LoadPhase::Reading { resource } => resource.clone(),
                    _ => {
                        proof {
                            assert(false);
                        }
                        return LoadStep::LinkProgram { shaders: Vec::new() };
                    },
                };
                proof {
                    lemma_suffix_stage(self.name(), self.shader_ids().len() as int);
                }
                match Shader::from_res(&resource, loaded) {
                    Ok((kind, source)) => {
                        self.phase = LoadPhase::Compiling { resource: resource.clone() };
                        LoadStep::CompileShader { resource, kind, source }
                    },
                    Err(e) => {
                        self.release_shaders(cmds);
                        self.phase = LoadPhase::Finished;
                        LoadStep::Failed(e)
                    },
                }
            },
            LoadEvent::ShaderCompiled(compiled) => {
                let resource = match &self.phase {
                    LoadPhase::Compiling { resource } => resource.clone(),
                    _ => {
                        proof {
                            assert(false);
                        }
                        return LoadStep::LinkProgram { shaders: Vec::new() };
                    },
                };
                match Shader::from_compiled(&resource, compiled) {
                    Ok(shader) => {
                        let ghost before = self.shader_ids();
                        self.shaders.push(shader);
                        assert(self.shader_ids() =~= before.push(shader.handle()));
                        if self.shaders.len() < 2 {
                            let mut next = self.name.clone();
                            next.append(".frag");
                            proof {
                                reveal_strlit(".frag");
                                assert(".frag"@ =~= frag_suffix());
                            }
                            self.phase = LoadPhase::Reading { resource: next.clone() };
                            LoadStep::ReadResource { resource: next }
                        } else {
                            let mut ids: Vec<u32> = Vec::new();
                            ids.push(self.shaders[0].id());
                            ids.push(self.shaders[1].id());
                            assert(ids@ =~= self.shader_ids());
                            self.phase = LoadPhase::Linking;
                            LoadStep::LinkProgram { shaders: ids }
                        }
                    },
                    Err(e) => {
                        self.release_shaders(cmds);
                        self.phase = LoadPhase::Finished;
                        LoadStep::Failed(e)
                    },
                }
            },
            LoadEvent::ProgramLinked(linked) => {
                self.release_shaders(cmds);
                self.phase = LoadPhase::Finished;
                match linked {
                    Ok((id, uniforms)) => LoadStep::Linked(Program::from_linked(id, uniforms)),
                    Err(log) => LoadStep::Failed(
                        Error::LinkError { name: self.name.clone(), message: log },
                    ),
                }
            },
        }
    }
}

/// The views of a list of names.
pub open spec fn name_views(names: Seq<&str>) -> Seq<Seq<char>> {
    names.map_values(|n: &str| n@)
}

/// Whether every name is the name of an active uniform of `p`.
pub open spec fn all_resolve(p: &Program, names: Seq<Seq<char>>) -> bool {
    forall|k: int| 0 <= k < names.len() ==> (#[trigger] find_uniform(p.uniform_table(), names[k])) is Some
}

/// Whether `e` is the failure of the first name of `names` that `p` lacks.
pub open spec fn fails_first_at(p: &Program, names: Seq<Seq<char>>, e: Error) -> bool {
    exists|k: int|
        0 <= k < names.len() && all_resolve(p, names.take(k)) && #[trigger] resolves_to(
            p,
            names[k],
            Err(e),
        )
}

/// Resolves each name in order, failing at the first one that `p` lacks.
pub fn resolve_all(p: &Program, names: &Vec<&str>) -> (r: Result<Vec<i32>, Error>)
    ensures
        r is Ok <==> all_resolve(p, name_views(names@)),
        r matches Ok(locs) ==> locs@.len() == names@.len() && forall|k: int|
            0 <= k < names@.len() ==> find_uniform(p.uniform_table(), #[trigger] names@[k]@) == Some(
                locs@[k],
            ),
        r matches Err(e) ==> fails_first_at(p, name_views(names@), e),
{
    let ghost views = name_views(names@);
    let mut locs: Vec<i32> = Vec::new();
    let mut i: usize = 0;
    while i < names.len()
        invariant
            views == name_views(names@),
            i <= names@.len(),
            locs@.len() == i,
            forall|k: int|
                0 <= k < i ==> find_uniform(p.uniform_table(), #[trigger] names@[k]@) == Some(
                    locs@[k],
                ),
        decreases names@.len() - i,
    {
        match p.get_uniform_loc(names[i]) {
            Ok(loc) => {
                locs.push(loc);
            },
            Err(e) => {
                proof {
                    assert(views[i as int] == names@[i as int]@);
                    assert forall|k: int| 0 <= k < i implies (#[trigger] find_uniform(
                        p.uniform_table(),
                        views.take(i as int)[k],
                    )) is Some by {
                        assert(views.take(i as int)[k] == names@[k]@);
                    }
                    assert(views.take(i as int).len() == i);
                    assert(!all_resolve(p, views)) by {
                        assert(find_uniform(p.uniform_table(), views[i as int]) is None);
                    }
                }
                return Err(e);
            },
        }
        i = i + 1;
    }
    proof {
        assert forall|k: int| 0 <= k < views.len() implies (#[trigger] find_uniform(
            p.uniform_table(),
            views[k],
        )) is Some by {
            assert(views[k] == names@[k]@);
        }
    }
    Ok(locs)
}

} // verus!
