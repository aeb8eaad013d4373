//! Shader programs: how one is compiled and linked, and the locations of
//! its variables, each asked of the driver once.

use crate::gl::Command;
use crate::gl::CommandView;
use crate::gl::Gl;
use crate::gl::ProgramId;
use crate::gl::ShaderId;
use crate::gl::StageKind;
use crate::gl::UniformId;
use crate::names::lemma_insert_lookup;
use crate::names::lemma_position_holds;
use crate::names::NameTable;
use vstd::prelude::*;

verus! {

/// Why a program could not be made.
#[derive(Clone, Debug, PartialEq, Eq)]
pub enum CompileError {
    /// A stage did not compile; the text is the driver's log.
    Stage { kind: StageKind, info_log: String },
    /// The stages did not link; the text is the driver's log.
    Link { info_log: String },
}

/// What a [`CompileError`] says.
pub enum CompileErrorView {
    Stage { kind: StageKind, info_log: Seq<char> },
    Link { info_log: Seq<char> },
}

impl View for CompileError {
    type V = CompileErrorView;

    open spec fn view(&self) -> CompileErrorView {
        match *self {
            CompileError::Stage { kind, info_log } => CompileErrorView::Stage {
                kind,
                info_log: info_log@,
            },
            CompileError::Link { info_log } => CompileErrorView::Link { info_log: info_log@ },
        }
    }
}

/// What the driver reports of a stage after compiling it.
#[derive(Clone, Debug, PartialEq, Eq)]
pub struct StageStatus {
    /// The driver's compile status.
    pub compiled: bool,
    /// The driver's log for the stage, if it keeps one.
    pub info_log: Option<String>,
}

/// What the driver reports of a program after linking it.
#[derive(Clone, Debug, PartialEq, Eq)]
pub struct LinkStatus {
    /// The driver's link status.
    pub linked: bool,
    /// The driver's log for the program, if it keeps one.
    pub info_log: Option<String>,
}

/// The two kinds of shader variables that are found by name.
#[derive(Clone, Copy, Debug, PartialEq, Eq, Structural)]
pub enum LocationKind {
    Attribute,
    Uniform,
}

/// A question to the driver: where in `program` is the variable `name`?
#[derive(Clone, Debug, PartialEq, Eq)]
pub struct LocationQuery {
    pub program: ProgramId,
    pub kind: LocationKind,
    pub name: String,
}

/// What a [`LocationQuery`] asks.
pub struct LocationQueryView {
    pub program: ProgramId,
    pub kind: LocationKind,
    pub name: Seq<char>,
}

impl View for LocationQuery {
    type V = LocationQueryView;

    open spec fn view(&self) -> LocationQueryView {
        LocationQueryView { program: self.program, kind: self.kind, name: self.name@ }
    }
}

/// The driver's answer to a [`LocationQuery`].
#[derive(Clone, Copy, Debug, PartialEq, Eq, Structural)]
pub enum LocationAnswer {
    /// The slot of an attribute as the driver gives it: negative if the
    /// program has no such attribute.
    Attribute { slot: i32 },
    /// The location of a uniform, if the program has one of that name.
    Uniform { location: Option<UniformId> },
}

/// Log text used where the driver gives none for a stage.
pub open spec fn unknown_stage_error() -> Seq<char> {
    "Unknown error creating shader"@
}

/// Log text used where the driver gives none for a program.
pub open spec fn unknown_link_error() -> Seq<char> {
    "Unknown error creating program"@
}

/// The driver's log, or `fallback` where it gave none.
pub open spec fn log_or(info_log: Option<String>, fallback: Seq<char>) -> Seq<char> {
    match info_log {
        Some(text) => text@,
        None => fallback,
    }
}

/// The slot of an attribute: a negative answer means there is none.
pub open spec fn attribute_slot(slot: i32) -> Option<u32> {
    if slot < 0 {
        None
    } else {
        Some(slot as u32)
    }
}

/// The commands that compile one stage.
pub open spec fn compile_commands(shader: ShaderId, kind: StageKind, source: Seq<char>) -> Seq<
    CommandView,
> {
    seq![
        CommandView::CreateShader { shader, kind },
        CommandView::ShaderSource { shader, source },
        CommandView::CompileShader { shader },
    ]
}

/// The commands that link two compiled stages.
pub open spec fn link_commands(program: ProgramId, vertex: ShaderId, fragment: ShaderId) -> Seq<
    CommandView,
> {
    seq![
        CommandView::CreateProgram { program },
        CommandView::AttachShader { program, shader: vertex },
        CommandView::AttachShader { program, shader: fragment },
        CommandView::LinkProgram { program },
    ]
}

/// Records the compilation of one stage from its source text.
pub fn compile_shader(gl: &mut Gl, kind: StageKind, source: &str) -> (shader: ShaderId)
    requires
        old(gl).numbers_left() >= 1,
    ensures
        shader.number == old(gl).next_number(),
        final(gl).next_number() == old(gl).next_number() + 1,
        final(gl)@ == old(gl)@ + compile_commands(shader, kind, source@),
{
    let shader = gl.create_shader(kind);
    gl.record(Command::ShaderSource { shader, source: source.to_owned() });
    gl.record(Command::CompileShader { shader });
    assert(gl@ =~= old(gl)@ + compile_commands(shader, kind, source@));
    shader
}

/// Judges a compiled stage by what the driver reports of it: the stage if
/// it compiled, else the driver's log.
pub fn stage_outcome(kind: StageKind, shader: ShaderId, status: StageStatus) -> (outcome: Result<
    ShaderId,
    CompileError,
>)
    ensures
        status.compiled ==> outcome == Ok::<ShaderId, CompileError>(shader),
        !status.compiled ==> outcome.is_err() && outcome.unwrap_err()@ == (
        CompileErrorView::Stage {
            kind,
            info_log: log_or(status.info_log, unknown_stage_error()),
        }),
{
    if status.compiled {
        Ok(shader)
    } else {
        let info_log = match status.info_log {
            Some(text) => text,
            None => "Unknown error creating shader".to_owned(),
        };
        Err(CompileError::Stage { kind, info_log })
    }
}

/// Records the linking of two compiled stages into a new program.
pub fn link_program(gl: &mut Gl, vert_shader: ShaderId, frag_shader: ShaderId) -> (program:
    ProgramId)
    requires
        old(gl).numbers_left() >= 1,
    ensures
        program.number == old(gl).next_number(),
        final(gl).next_number() == old(gl).next_number() + 1,
        final(gl)@ == old(gl)@ + link_commands(program, vert_shader, frag_shader),
{
    let program = gl.create_program();
    gl.record(Command::AttachShader { program, shader: vert_shader });
    gl.record(Command::AttachShader { program, shader: frag_shader });
    gl.record(Command::LinkProgram { program });
    assert(gl@ =~= old(gl)@ + link_commands(program, vert_shader, frag_shader));
    program
}

/// Judges a linked program by what the driver reports of it: the program
/// if it linked, else the driver's log.
pub fn link_outcome(program: ProgramId, status: LinkStatus) -> (outcome: Result<
    ProgramId,
    CompileError,
>)
    ensures
        status.linked ==> outcome == Ok::<ProgramId, CompileError>(program),
        !status.linked ==> outcome.is_err() && outcome.unwrap_err()@ == (CompileErrorView::Link {
            info_log: log_or(status.info_log, unknown_link_error()),
        }),
{
    if status.linked {
        Ok(program)
    } else {
        let info_log = match status.info_log {
            Some(text) => text,
            None => "Unknown error creating program".to_owned(),
        };
        Err(CompileError::Link { info_log })
    }
}

/// A linked program and what is known of where its variables are.
///
/// The driver is asked for the place of a name at most once: what it
/// answered, be it a place or that there is none, is kept for as long as
/// the program lives.
#[derive(Debug)]
pub struct Shader {
    program: ProgramId,
    vertex_attrs: NameTable<Option<u32>>,
    uniforms: NameTable<Option<UniformId>>,
}

/// The entries of a table, as a map from names.
pub open spec fn table_map<V>(table: NameTable<V>) -> Map<Seq<char>, V> {
    Map::new(
        |name: Seq<char>| table.position(name).is_some(),
        |name: Seq<char>| table.values()[table.position(name).unwrap()],
    )
}

/// A map that keeps what it has under `name`, or else takes `value`.
pub open spec fn keep_or_insert<V>(map: Map<Seq<char>, V>, name: Seq<char>, value: V) -> Map<
    Seq<char>,
    V,
> {
    if map.contains_key(name) {
        map
    } else {
        map.insert(name, value)
    }
}

impl Shader {
    /// The linked program.
    pub closed spec fn program_id(&self) -> ProgramId {
        self.program
    }

    /// The attributes asked for so far, each with its slot or with the
    /// knowledge that the program has no such attribute.
    pub closed spec fn attributes(&self) -> Map<Seq<char>, Option<u32>> {
        table_map(self.vertex_attrs)
    }

    /// The uniforms asked for so far, each with its location or with the
    /// knowledge that the program has no such uniform.
    pub closed spec fn uniform_locations(&self) -> Map<Seq<char>, Option<UniformId>> {
        table_map(self.uniforms)
    }

    /// The tables behind the two maps are in order.
    pub closed spec fn wf(&self) -> bool {
        self.vertex_attrs.wf() && self.uniforms.wf()
    }

    /// The location that commands use for the uniform `name`: the one the
    /// driver reported, or none.
    pub open spec fn uniform(&self, name: Seq<char>) -> Option<UniformId> {
        if self.uniform_locations().contains_key(name) {
            self.uniform_locations()[name]
        } else {
            None
        }
    }

    /// Starts making a program from the source texts of its two stages:
    /// records the compilation of the vertex stage and waits for the
    /// driver's report on it.
    pub fn new(gl: &mut Gl, vert_shader: &str, frag_shader: &str) -> (build: ShaderBuild)
        requires
            old(gl).numbers_left() >= 1,
        ensures
            build@ == (ShaderBuildView::CompilingVertex {
                shader: ShaderId { number: old(gl).next_number() as u32 },
                fragment_source: frag_shader@,
            }),
            build.wf(),
            final(gl).next_number() == old(gl).next_number() + 1,
            final(gl)@ == old(gl)@ + compile_commands(
                ShaderId { number: old(gl).next_number() as u32 },
                StageKind::Vertex,
                vert_shader@,
            ),
    {
        let shader = compile_shader(gl, StageKind::Vertex, vert_shader);
        ShaderBuild::CompilingVertex { shader, fragment_source: frag_shader.to_owned() }
    }

    /// The linked program `program`, with nothing known yet of its variables.
    pub fn from_program(program: ProgramId) -> (shader: Shader)
        ensures
            shader.wf(),
            shader.program_id() == program,
            shader.attributes() == Map::<Seq<char>, Option<u32>>::empty(),
            shader.uniform_locations() == Map::<Seq<char>, Option<UniformId>>::empty(),
    {
        let shader = Shader { program, vertex_attrs: NameTable::new(), uniforms: NameTable::new() };
        assert(shader.attributes() =~= Map::<Seq<char>, Option<u32>>::empty());
        assert(shader.uniform_locations() =~= Map::<Seq<char>, Option<UniformId>>::empty());
        shader
    }

    /// The location that commands use for the uniform `name`.
    pub fn uniform_or_none(&self, name: &str) -> (location: Option<UniformId>)
        requires
            self.wf(),
        ensures
            location == self.uniform(name@),
    {
        match self.get_uniform_location(name) {
            Some(location) => location,
            None => None,
        }
    }

    /// The linked program.
    pub fn program(&self) -> (program: ProgramId)
        ensures
            program == self.program_id(),
    {
        self.program
    }

    /// The slot of the attribute `name`, if the driver was asked before:
    /// `Some(slot)` gives what it answered then, `None` says that it has to
    /// be asked.
    pub fn get_attrib_location(&self, name: &str) -> (known: Option<Option<u32>>)
        requires
            self.wf(),
        ensures
            known == if self.attributes().contains_key(name@) {
                Some(self.attributes()[name@])
            } else {
                None
            },
    {
        let key = name.to_owned();
        match self.vertex_attrs.find(&key) {
            Some(i) => Some(*self.vertex_attrs.value(i)),
            None => None,
        }
    }

    /// The location of the uniform `name`, if the driver was asked before:
    /// `Some(location)` gives what it answered then, `None` says that it
    /// has to be asked.
    pub fn get_uniform_location(&self, name: &str) -> (known: Option<Option<UniformId>>)
        requires
            self.wf(),
        ensures
            known == if self.uniform_locations().contains_key(name@) {
                Some(self.uniform_locations()[name@])
            } else {
                None
            },
    {
        let key = name.to_owned();
        match self.uniforms.find(&key) {
            Some(i) => Some(*self.uniforms.value(i)),
            None => None,
        }
    }

    /// Keeps the driver's answer for the attribute `name`, unless an
    /// earlier answer is kept already, and returns the answer now kept.
    pub fn record_attrib_location(&mut self, name: &str, slot: i32) -> (kept: Option<u32>)
        requires
            old(self).wf(),
        ensures
            final(self).wf(),
            final(self).program_id() == old(self).program_id(),
            final(self).uniform_locations() == old(self).uniform_locations(),
            final(self).attributes() == keep_or_insert(
                old(self).attributes(),
                name@,
                attribute_slot(slot),
            ),
            final(self).attributes().contains_key(name@),
            kept == final(self).attributes()[name@],
    {
        let key = name.to_owned();
        match self.vertex_attrs.find(&key) {
            Some(i) => *self.vertex_attrs.value(i),
            None => {
                let value: Option<u32> = if slot < 0 {
                    None
                } else {
                    Some(slot as u32)
                };
                let ghost before = self.vertex_attrs;
                self.vertex_attrs.insert(key, value);
                proof {
                    lemma_table_insert(before, self.vertex_attrs, name@, value);
                }
                value
            },
        }
    }

    /// Keeps the driver's answer for the uniform `name`, unless an earlier
    /// answer is kept already, and returns the answer now kept.
    pub fn record_uniform_location(&mut self, name: &str, location: Option<UniformId>) -> (kept:
        Option<UniformId>)
        requires
            old(self).wf(),
        ensures
            final(self).wf(),
            final(self).program_id() == old(self).program_id(),
            final(self).attributes() == old(self).attributes(),
            final(self).uniform_locations() == keep_or_insert(
                old(self).uniform_locations(),
                name@,
                location,
            ),
            final(self).uniform_locations().contains_key(name@),
            kept == final(self).uniform_locations()[name@],
    {
        let key = name.to_owned();
        match self.uniforms.find(&key) {
            Some(i) => *self.uniforms.value(i),
            None => {
                let ghost before = self.uniforms;
                self.uniforms.insert(key, location);
                proof {
                    lemma_table_insert(before, self.uniforms, name@, location);
                }
                location
            },
        }
    }

    /// Takes the driver's answer to a question about this program. An
    /// answer about another program, or of the wrong kind, changes nothing.
    pub fn resolve(&mut self, query: &LocationQuery, answer: LocationAnswer)
        requires
            old(self).wf(),
        ensures
            final(self).wf(),
            final(self).program_id() == old(self).program_id(),
            final(self).attributes() == resolved_attributes(*old(self), query@, answer),
            final(self).uniform_locations() == resolved_uniforms(*old(self), query@, answer),
    {
        if query.program == self.program {
            match answer {
                LocationAnswer::Attribute { slot } => {
                    if query.kind == LocationKind::Attribute {
                        self.record_attrib_location(query.name.as_str(), slot);
                    }
                },
                LocationAnswer::Uniform { location } => {
                    if query.kind == LocationKind::Uniform {
                        self.record_uniform_location(query.name.as_str(), location);
                    }
                },
            }
        }
    }
}

/// The making of a program, step by step: the vertex stage is compiled,
/// then the fragment stage, then the two are linked. After each step the
/// driver's report decides whether the next one is taken.
#[derive(Debug)]
pub enum ShaderBuild {
    /// The vertex stage is being compiled.
    CompilingVertex { shader: ShaderId, fragment_source: String },
    /// The vertex stage compiled; the fragment stage is being compiled.
    CompilingFragment { vertex: ShaderId, shader: ShaderId },
    /// Both stages compiled; the program is being linked.
    Linking { program: ProgramId },
    /// The program is linked.
    Ready { shader: Shader },
    /// A step failed. No later step was taken.
    Failed { error: CompileError },
}

/// Where the making of a program stands.
pub enum ShaderBuildView {
    CompilingVertex { shader: ShaderId, fragment_source: Seq<char> },
    CompilingFragment { vertex: ShaderId, shader: ShaderId },
    Linking { program: ProgramId },
    Ready { program: ProgramId },
    Failed { error: CompileErrorView },
}

impl View for ShaderBuild {
    type V = ShaderBuildView;

    open spec fn view(&self) -> ShaderBuildView {
        match *self {
            ShaderBuild::CompilingVertex { shader, fragment_source } =>
                ShaderBuildView::CompilingVertex { shader, fragment_source: fragment_source@ },
            ShaderBuild::CompilingFragment { vertex, shader } =>
                ShaderBuildView::CompilingFragment { vertex, shader },
            ShaderBuild::Linking { program } => ShaderBuildView::Linking { program },
            ShaderBuild::Ready { shader } => ShaderBuildView::Ready {
                program: shader.program_id(),
            },
            ShaderBuild::Failed { error } => ShaderBuildView::Failed { error: error@ },
        }
    }
}

/// What the host has to report before the making of a program can go on.
#[derive(Clone, Copy, Debug, PartialEq, Eq, Structural)]
pub enum BuildRequest {
    /// The compile status and log of this stage.
    StageStatus { shader: ShaderId },
    /// The link status and log of this program.
    LinkStatus { program: ProgramId },
    /// Nothing: the making has ended.
    Nothing,
}

/// The request that belongs to a state.
pub open spec fn request_of(state: ShaderBuildView) -> BuildRequest {
    match state {
        ShaderBuildView::CompilingVertex { shader, .. } => BuildRequest::StageStatus { shader },
        ShaderBuildView::CompilingFragment { shader, .. } => BuildRequest::StageStatus { shader },
        ShaderBuildView::Linking { program } => BuildRequest::LinkStatus { program },
        ShaderBuildView::Ready { .. } => BuildRequest::Nothing,
        ShaderBuildView::Failed { .. } => BuildRequest::Nothing,
    }
}

/// The state after the driver's report on a stage, where created objects
/// are numbered from `next`.
pub open spec fn after_stage(state: ShaderBuildView, status: StageStatus, next: int)
    -> ShaderBuildView {
    match state {
        ShaderBuildView::CompilingVertex { shader, fragment_source } => if status.compiled {
            ShaderBuildView::CompilingFragment {
                vertex: shader,
                shader: ShaderId { number: next as u32 },
            }
        } else {
            ShaderBuildView::Failed {
                error: CompileErrorView::Stage {
                    kind: StageKind::Vertex,
                    info_log: log_or(status.info_log, unknown_stage_error()),
                },
            }
        },
        ShaderBuildView::CompilingFragment { vertex, shader } => if status.compiled {
            ShaderBuildView::Linking { program: ProgramId { number: next as u32 } }
        } else {
            ShaderBuildView::Failed {
                error: CompileErrorView::Stage {
                    kind: StageKind::Fragment,
                    info_log: log_or(status.info_log, unknown_stage_error()),
                },
            }
        },
        _ => state,
    }
}

/// The commands recorded on the driver's report on a stage.
pub open spec fn stage_step_commands(state: ShaderBuildView, status: StageStatus, next: int)
    -> Seq<CommandView> {
    match state {
        ShaderBuildView::CompilingVertex { shader, fragment_source } if status.compiled =>
            compile_commands(
            ShaderId { number: next as u32 },
            StageKind::Fragment,
            fragment_source,
        ),
        ShaderBuildView::CompilingFragment { vertex, shader } if status.compiled => link_commands(
            ProgramId { number: next as u32 },
            vertex,
            shader,
        ),
        _ => Seq::<CommandView>::empty(),
    }
}

/// The state after the driver's report on the program.
pub open spec fn after_link(state: ShaderBuildView, status: LinkStatus) -> ShaderBuildView {
    match state {
        ShaderBuildView::Linking { program } => if status.linked {
            ShaderBuildView::Ready { program }
        } else {
            ShaderBuildView::Failed {
                error: CompileErrorView::Link {
                    info_log: log_or(status.info_log, unknown_link_error()),
                },
            }
        },
        _ => state,
    }
}

impl ShaderBuild {
    /// A program that is ready has nothing known yet of its variables.
    pub open spec fn wf(&self) -> bool {
        match *self {
            ShaderBuild::Ready { shader } => {
                &&& shader.wf()
                &&& shader.attributes() == Map::<Seq<char>, Option<u32>>::empty()
                &&& shader.uniform_locations() == Map::<Seq<char>, Option<UniformId>>::empty()
            },
            _ => true,
        }
    }

    /// What the host has to report next.
    pub fn request(&self) -> (request: BuildRequest)
        ensures
            request == request_of(self@),
    {
        match self {
            ShaderBuild::CompilingVertex { shader, .. } => BuildRequest::StageStatus {
                shader: *shader,
            },
            ShaderBuild::CompilingFragment { shader, .. } => BuildRequest::StageStatus {
                shader: *shader,
            },
            ShaderBuild::Linking { program } => BuildRequest::LinkStatus { program: *program },
            ShaderBuild::Ready { .. } => BuildRequest::Nothing,
            ShaderBuild::Failed { .. } => BuildRequest::Nothing,
        }
    }

    /// Takes the driver's report on the stage that is being compiled. If
    /// the stage compiled, the next step is recorded: compiling the
    /// fragment stage after the vertex stage, linking after the fragment
    /// stage. If not, the making fails with the driver's log and nothing is
    /// recorded. In a state that waits for no stage, nothing happens.
    pub fn stage_compiled(self, gl: &mut Gl, status: StageStatus) -> (next: ShaderBuild)
        requires
            self.wf(),
            old(gl).numbers_left() >= 1,
        ensures
            next.wf(),
            next@ == after_stage(self@, status, old(gl).next_number()),
            final(gl)@ == old(gl)@ + stage_step_commands(self@, status, old(gl).next_number()),
            final(gl).next_number() == old(gl).next_number() + (if stage_step_commands(
                self@,
                status,
                old(gl).next_number(),
            ).len() > 0 {
                1int
            } else {
                0int
            }),
    {
        proof {
            assert(old(gl)@ + Seq::<CommandView>::empty() =~= old(gl)@);
        }
        match self {
            ShaderBuild::CompilingVertex { shader, fragment_source } => {
                match stage_outcome(StageKind::Vertex, shader, status) {
                    Ok(vertex) => {
                        let fragment = compile_shader(
                            gl,
                            StageKind::Fragment,
                            fragment_source.as_str(),
                        );
                        ShaderBuild::CompilingFragment { vertex, shader: fragment }
                    },
                    Err(error) => ShaderBuild::Failed { error },
                }
            },
            ShaderBuild::CompilingFragment { vertex, shader } => {
                match stage_outcome(StageKind::Fragment, shader, status) {
                    Ok(fragment) => {
                        let program = link_program(gl, vertex, fragment);
                        ShaderBuild::Linking { program }
                    },
                    Err(error) => ShaderBuild::Failed { error },
                }
            },
            ShaderBuild::Linking { program } => ShaderBuild::Linking { program },
            ShaderBuild::Ready { shader } => ShaderBuild::Ready { shader },
            ShaderBuild::Failed { error } => ShaderBuild::Failed { error },
        }
    }

    /// Takes the driver's report on the program that is being linked. If
    /// it linked, the program is ready; if not, the making fails with the
    /// driver's log. In a state that waits for no program, nothing happens.
    pub fn program_linked(self, status: LinkStatus) -> (next: ShaderBuild)
        requires
            self.wf(),
        ensures
            next.wf(),
            next@ == after_link(self@, status),
    {
        match self {
            ShaderBuild::Linking { program } => {
                match link_outcome(program, status) {
                    Ok(program) => ShaderBuild::Ready { shader: Shader::from_program(program) },
                    Err(error) => ShaderBuild::Failed { error },
                }
            },
            ShaderBuild::CompilingVertex { shader, fragment_source } =>
                ShaderBuild::CompilingVertex { shader, fragment_source },
            ShaderBuild::CompilingFragment { vertex, shader } => ShaderBuild::CompilingFragment {
                vertex,
                shader,
            },
            ShaderBuild::Ready { shader } => ShaderBuild::Ready { shader },
            ShaderBuild::Failed { error } => ShaderBuild::Failed { error },
        }
    }
}

/// Place of a program in a table of programs.
#[derive(Clone, Copy, Debug, PartialEq, Eq, Structural)]
pub struct ShaderHandle {
    pub index: usize,
}

/// The linked programs. Whatever draws with a program holds its place in
/// this table, not the program, so that a program is there once and what is
/// known of its variables is known to all that draw with it.
#[derive(Debug)]
pub struct Programs {
    shaders: Vec<Shader>,
}

impl Programs {
    /// The programs, in the order in which they were added.
    pub closed spec fn shaders(&self) -> Seq<Shader> {
        self.shaders@
    }

    /// Every program is in order.
    pub open spec fn wf(&self) -> bool {
        forall|i: int| 0 <= i < self.shaders().len() ==> (#[trigger] self.shaders()[i]).wf()
    }

    /// The table has a program at the place that `handle` names.
    pub open spec fn holds(&self, handle: ShaderHandle) -> bool {
        handle.index < self.shaders().len()
    }

    /// The program at the place that `handle` names.
    pub open spec fn shader(&self, handle: ShaderHandle) -> Shader {
        self.shaders()[handle.index as int]
    }

    /// `self` is `before` after an answer has been taken: the same programs
    /// at the same places, each knowing what it knew and what the answer
    /// says of it.
    pub open spec fn resolved_from(
        &self,
        before: &Programs,
        query: LocationQueryView,
        answer: LocationAnswer,
    ) -> bool {
        &&& self.shaders().len() == before.shaders().len()
        &&& forall|i: int|
            0 <= i < self.shaders().len() ==> {
                &&& (#[trigger] self.shaders()[i]).program_id() == before.shaders()[i].program_id()
                &&& self.shaders()[i].attributes() == resolved_attributes(
                    before.shaders()[i],
                    query,
                    answer,
                )
                &&& self.shaders()[i].uniform_locations() == resolved_uniforms(
                    before.shaders()[i],
                    query,
                    answer,
                )
            }
    }

    /// A table without programs.
    pub fn new() -> (programs: Programs)
        ensures
            programs.wf(),
            programs.shaders() == Seq::<Shader>::empty(),
    {
        Programs { shaders: Vec::new() }
    }

    /// Number of programs.
    pub fn len(&self) -> (n: usize)
        ensures
            n == self.shaders().len(),
    {
        self.shaders.len()
    }

    /// Adds a program and returns its place.
    pub fn add(&mut self, shader: Shader) -> (handle: ShaderHandle)
        requires
            old(self).wf(),
            shader.wf(),
        ensures
            final(self).wf(),
            final(self).shaders() == old(self).shaders().push(shader),
            handle.index == old(self).shaders().len(),
    {
        let handle = ShaderHandle { index: self.shaders.len() };
        self.shaders.push(shader);
        assert forall|i: int| 0 <= i < self.shaders().len() implies (
        #[trigger] self.shaders()[i]).wf() by {
            if i < old(self).shaders().len() {
                assert(old(self).shaders()[i].wf());
            }
        }
        handle
    }

    /// The program at the place that `handle` names.
    pub fn get(&self, handle: ShaderHandle) -> (shader: &Shader)
        requires
            self.holds(handle),
        ensures
            *shader == self.shader(handle),
    {
        &self.shaders[handle.index]
    }

    /// Takes the driver's answer to a question. Every program that the
    /// question is about keeps the answer; all others stay as they are.
    pub fn resolve(&mut self, query: &LocationQuery, answer: LocationAnswer)
        requires
            old(self).wf(),
        ensures
            final(self).wf(),
            final(self).resolved_from(old(self), query@, answer),
    {
        let mut pending: Vec<Shader> = Vec::new();
        core::mem::swap(&mut self.shaders, &mut pending);
        let ghost before = pending@;
        assert forall|i: int| 0 <= i < before.len() implies (#[trigger] before[i]).wf() by {
            assert(old(self).shaders()[i].wf());
        }
        while pending.len() > 0
            invariant
                self.shaders@.len() + pending@.len() == before.len(),
                pending@ == before.skip(self.shaders@.len() as int),
                forall|i: int| 0 <= i < before.len() ==> (#[trigger] before[i]).wf(),
                forall|i: int|
                    0 <= i < self.shaders@.len() ==> {
                        &&& (#[trigger] self.shaders@[i]).wf()
                        &&& self.shaders@[i].program_id() == before[i].program_id()
                        &&& self.shaders@[i].attributes() == resolved_attributes(
                            before[i],
                            query@,
                            answer,
                        )
                        &&& self.shaders@[i].uniform_locations() == resolved_uniforms(
                            before[i],
                            query@,
                            answer,
                        )
                    },
            decreases pending@.len(),
        {
            let ghost done = self.shaders@.len() as int;
            let mut shader = pending.remove(0);
            assert(shader == before[done]);
            shader.resolve(query, answer);
            self.shaders.push(shader);
            assert(pending@ =~= before.skip(done + 1));
        }
    }
}

/// Taking an answer forgets nothing and settles the question: whatever the
/// program at `handle` knew before, it knows after, with the same location;
/// and if the question was about that program, it knows the answer to it
/// from then on.
pub proof fn lemma_answer_is_shared(
    before: Programs,
    after: Programs,
    query: LocationQueryView,
    answer: LocationAnswer,
    handle: ShaderHandle,
)
    requires
        before.holds(handle),
        after.resolved_from(&before, query, answer),
    ensures
        after.holds(handle),
        after.shader(handle).program_id() == before.shader(handle).program_id(),
        forall|name: Seq<char>| #[trigger]
            before.shader(handle).attributes().contains_key(name) ==> after.shader(
                handle,
            ).attributes().contains_key(name) && after.shader(handle).attributes()[name]
                == before.shader(handle).attributes()[name],
        forall|name: Seq<char>| #[trigger]
            before.shader(handle).uniform_locations().contains_key(name) ==> after.shader(
                handle,
            ).uniform_locations().contains_key(name) && after.shader(
                handle,
            ).uniform_locations()[name] == before.shader(handle).uniform_locations()[name],
        query.program == before.shader(handle).program_id() && query.kind
            == LocationKind::Attribute && answer is Attribute ==> after.shader(
            handle,
        ).attributes().contains_key(query.name),
        query.program == before.shader(handle).program_id() && query.kind == LocationKind::Uniform
            && answer is Uniform ==> after.shader(handle).uniform_locations().contains_key(
            query.name,
        ),
{
    assert(after.shaders()[handle.index as int].program_id()
        == before.shaders()[handle.index as int].program_id());
}

/// The attributes known after an answer has been taken.
pub open spec fn resolved_attributes(
    shader: Shader,
    query: LocationQueryView,
    answer: LocationAnswer,
) -> Map<Seq<char>, Option<u32>> {
    match answer {
        LocationAnswer::Attribute { slot } if query.program == shader.program_id() && query.kind
            == LocationKind::Attribute => keep_or_insert(
            shader.attributes(),
            query.name,
            attribute_slot(slot),
        ),
        _ => shader.attributes(),
    }
}

/// The uniforms known after an answer has been taken.
pub open spec fn resolved_uniforms(
    shader: Shader,
    query: LocationQueryView,
    answer: LocationAnswer,
) -> Map<Seq<char>, Option<UniformId>> {
    match answer {
        LocationAnswer::Uniform { location } if query.program == shader.program_id() && query.kind
            == LocationKind::Uniform => keep_or_insert(
            shader.uniform_locations(),
            query.name,
            location,
        ),
        _ => shader.uniform_locations(),
    }
}

proof fn lemma_table_insert<V>(
    before: NameTable<V>,
    after: NameTable<V>,
    name: Seq<char>,
    value: V,
)
    requires
        before.wf(),
        after.wf(),
        before.position(name).is_none(),
        after.names() == before.names().push(name),
        after.values() == before.values().push(value),
    ensures
        table_map(after) == table_map(before).insert(name, value),
{
    let a = table_map(after);
    let b = table_map(before).insert(name, value);
    assert forall|other: Seq<char>| #[trigger] a.dom().contains(other) == b.dom().contains(
        other,
    ) by {
        lemma_insert_lookup(before, after, name, value, other);
        lemma_position_holds(before.names(), other);
        lemma_position_holds(after.names(), other);
    }
    assert forall|other: Seq<char>| #[trigger] a.dom().contains(other) implies a[other]
        == b[other] by {
        lemma_insert_lookup(before, after, name, value, other);
        lemma_position_holds(before.names(), other);
        lemma_position_holds(after.names(), other);
    }
    assert(table_map(after) =~= table_map(before).insert(name, value));
}

/// The first answer for an attribute stands. Once an answer for `name` has
/// been taken, the name is known, so that `get_attrib_location` returns
/// what is kept for it and the driver need not be asked again; whatever is
/// answered later, for this name or for another, what is kept for `name`
/// stays the same. This holds as well where the first answer was that the
/// program has no such attribute.
pub proof fn lemma_attribute_asked_once(
    before: Shader,
    after: Shader,
    later: Shader,
    name: Seq<char>,
    first: i32,
    other: Seq<char>,
    second: i32,
)
    requires
        after.attributes() == keep_or_insert(before.attributes(), name, attribute_slot(first)),
        later.attributes() == keep_or_insert(after.attributes(), other, attribute_slot(second)),
    ensures
        after.attributes().contains_key(name),
        !before.attributes().contains_key(name) ==> after.attributes()[name] == attribute_slot(
            first,
        ),
        before.attributes().contains_key(name) ==> after.attributes()[name]
            == before.attributes()[name],
        later.attributes().contains_key(name),
        later.attributes()[name] == after.attributes()[name],
        other == name ==> later.attributes() == after.attributes(),
{
}

/// The same for uniforms: once an answer for the uniform `name` has been
/// taken, be it a location or none, the name is known and what is kept for
/// it stays the same, whatever is answered later.
pub proof fn lemma_uniform_asked_once(
    before: Shader,
    after: Shader,
    later: Shader,
    name: Seq<char>,
    first: Option<UniformId>,
    other: Seq<char>,
    second: Option<UniformId>,
)
    requires
        after.uniform_locations() == keep_or_insert(before.uniform_locations(), name, first),
        later.uniform_locations() == keep_or_insert(after.uniform_locations(), other, second),
    ensures
        after.uniform_locations().contains_key(name),
        !before.uniform_locations().contains_key(name) ==> after.uniform_locations()[name]
            == first,
        before.uniform_locations().contains_key(name) ==> after.uniform_locations()[name]
            == before.uniform_locations()[name],
        later.uniform_locations().contains_key(name),
        later.uniform_locations()[name] == after.uniform_locations()[name],
        other == name ==> later.uniform_locations() == after.uniform_locations(),
        later.uniform(name) == after.uniform(name),
{
}

} // verus!
