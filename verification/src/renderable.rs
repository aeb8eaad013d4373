//! One mesh bound to one shader program and any number of textures.

use crate::camera::Camera;
use crate::gl::ArrayData;
use crate::gl::ArrayDataView;
use crate::gl::BufferId;
use crate::gl::BufferTarget;
use crate::gl::Command;
use crate::gl::CommandView;
use crate::gl::ElementType;
use crate::gl::Gl;
use crate::gl::TextureId;
use crate::gl::VertexArrayId;
use crate::names::first_index;
use crate::names::lemma_first_index_is;
use crate::names::lemma_first_index_none;
use crate::names::stored;
use crate::names::NameTable;
use crate::shader::LocationKind;
use crate::shader::LocationQuery;
use crate::shader::LocationQueryView;
use crate::shader::Programs;
use crate::shader::Shader;
use crate::shader::ShaderHandle;
use crate::state::lemma_after_all_concat;
use crate::state::lemma_after_all_in_order;
use crate::state::lemma_after_all_push;
use crate::state::DriverState;
use crate::texture::creation_commands;
use crate::texture::LoadState;
use crate::texture::Texture;
use crate::transform::Factor;
use crate::transform::LookAt;
use crate::transform::Matrix;
use crate::transform::MatrixView;
use crate::transform::Perspective;
use crate::transform::Transform;
use vstd::prelude::*;

verus! {

/// Most textures one renderable may hold: texture units are counted in 32
/// signed bits.
pub const MAX_TEXTURES: usize = 0x7FFF_FFFF;

/// Name of the uniform that receives the projection matrix.
pub open spec fn projection_uniform() -> Seq<char> {
    "u_projectionMatrix"@
}

/// Name of the uniform that receives the model-view matrix.
pub open spec fn model_view_uniform() -> Seq<char> {
    "u_modelViewMatrix"@
}

/// Name of the uniform that receives the normal matrix.
pub open spec fn normal_uniform() -> Seq<char> {
    "u_normalMatrix"@
}

/// Something that can be drawn with a model transform and a camera.
///
/// Drawing needs to know where the program keeps its uniforms. While a
/// location is still unknown, `render` records nothing and returns the
/// question for the driver; once the answer has been taken, `render` can be
/// called again.
pub trait Render {
    /// The drawable is in order.
    spec fn ready(&self, programs: &Programs) -> bool;

    /// The first location that has to be asked of the driver before the
    /// drawable can be drawn, if there is one.
    spec fn pending(&self, programs: &Programs) -> Option<LocationQueryView>;

    /// The commands that draw the drawable.
    spec fn draw_commands(
        &self,
        programs: &Programs,
        model: Seq<Factor>,
        view: LookAt,
        projection: Perspective,
    ) -> Seq<CommandView>;

    /// The first location that has to be asked of the driver before the
    /// drawable can be drawn, if there is one.
    fn unresolved(&self, programs: &Programs) -> (query: Option<LocationQuery>)
        requires
            self.ready(programs),
        ensures
            match query {
                Some(q) => self.pending(programs) == Some(q@),
                None => self.pending(programs).is_none(),
            },
    ;

    /// Draws the drawable, or returns the question that has to be answered
    /// first and records nothing.
    fn render(
        &self,
        gl: &mut Gl,
        programs: &Programs,
        model_matrix: &Transform,
        camera: &Camera,
    ) -> (result: Result<(), LocationQuery>)
        requires
            self.ready(programs),
        ensures
            final(gl).next_number() == old(gl).next_number(),
            match result {
                Ok(done) => {
                    &&& self.pending(programs).is_none()
                    &&& final(gl)@ == old(gl)@ + self.draw_commands(
                        programs,
                        model_matrix@,
                        camera.view_transform(),
                        camera.projection_transform(),
                    )
                },
                Err(query) => {
                    &&& self.pending(programs) == Some(query@)
                    &&& final(gl)@ == old(gl)@
                },
            },
    ;

    /// Drawing puts back what it changes: where nothing was bound before
    /// the draw, nothing is bound after it, and the same capabilities are
    /// switched on.
    proof fn lemma_draw_restores(
        &self,
        programs: &Programs,
        state: DriverState,
        model: Seq<Factor>,
        view: LookAt,
        projection: Perspective,
    )
        requires
            self.ready(programs),
            state.idle(),
        ensures
            state.after_all(self.draw_commands(programs, model, view, projection)).idle(),
            state.after_all(self.draw_commands(programs, model, view, projection)).capabilities
                == state.capabilities,
    ;
}

/// Whether a vertex attribute was bound.
#[derive(Clone, Copy, Debug, PartialEq, Eq, Structural)]
pub enum Attach {
    /// The program has the attribute; its data is in a new buffer.
    Bound,
    /// The program has no such attribute; nothing was created or recorded.
    Skipped,
}

/// A mesh with the program that draws it and the textures it samples.
#[derive(Clone, Debug)]
pub struct Renderable {
    shader: ShaderHandle,
    vao: VertexArrayId,
    attributes: NameTable<u32>,
    num_indices: u32,
    indices_type: ElementType,
    textures: NameTable<Texture>,
}

/// The commands that put `data` into a new buffer and describe it as the
/// attribute at `slot`, `size` numbers for each vertex.
pub open spec fn attach_commands(
    vertex_array: VertexArrayId,
    buffer: BufferId,
    slot: u32,
    data: ArrayDataView,
    size: i32,
) -> Seq<CommandView> {
    seq![
        CommandView::BindVertexArray { vertex_array: Some(vertex_array) },
        CommandView::CreateBuffer { buffer },
        CommandView::BindBuffer { target: BufferTarget::Array, buffer: Some(buffer) },
        CommandView::BufferData { target: BufferTarget::Array, data },
        CommandView::VertexAttribPointer { location: slot, size, element_type: data.element_type() },
        CommandView::BindVertexArray { vertex_array: None },
    ]
}

/// The commands that put `data` into a new buffer of triangle indices.
pub open spec fn index_commands(vertex_array: VertexArrayId, buffer: BufferId, data: ArrayDataView)
    -> Seq<CommandView> {
    seq![
        CommandView::BindVertexArray { vertex_array: Some(vertex_array) },
        CommandView::CreateBuffer { buffer },
        CommandView::BindBuffer { target: BufferTarget::ElementArray, buffer: Some(buffer) },
        CommandView::BufferData { target: BufferTarget::ElementArray, data },
        CommandView::BindVertexArray { vertex_array: None },
    ]
}

/// The commands that switch on the first `n` attribute arrays.
pub open spec fn enable_commands(slots: Seq<u32>, n: int) -> Seq<CommandView> {
    Seq::new(n as nat, |k: int| CommandView::EnableVertexAttribArray { location: slots[k] })
}

/// The commands that switch off the first `n` attribute arrays.
pub open spec fn disable_commands(slots: Seq<u32>, n: int) -> Seq<CommandView> {
    Seq::new(n as nat, |k: int| CommandView::DisableVertexAttribArray { location: slots[k] })
}

/// The commands that bind the first `n` textures: the texture at place `i`
/// goes to unit `i`, and the sampler of its name is pointed at that unit.
pub open spec fn texture_bind_commands(
    shader: Shader,
    names: Seq<Seq<char>>,
    textures: Seq<Texture>,
    n: int,
) -> Seq<CommandView> {
    Seq::new(
        (3 * n) as nat,
        |k: int|
            if k % 3 == 0 {
                CommandView::ActiveTexture { unit: (k / 3) as u32 }
            } else if k % 3 == 1 {
                CommandView::BindTexture { texture: Some(textures[k / 3].id()) }
            } else {
                CommandView::Uniform1i { uniform: shader.uniform(names[k / 3]), value: (k / 3) as i32 }
            },
    )
}

/// The commands that empty the first `n` texture units.
pub open spec fn texture_unbind_commands(n: int) -> Seq<CommandView> {
    Seq::new(
        (2 * n) as nat,
        |k: int|
            if k % 2 == 0 {
                CommandView::ActiveTexture { unit: (k / 2) as u32 }
            } else {
                CommandView::BindTexture { texture: None }
            },
    )
}

/// The commands that set the three matrices of a draw.
pub open spec fn matrix_commands(
    shader: Shader,
    model: Seq<Factor>,
    view: LookAt,
    projection: Perspective,
) -> Seq<CommandView> {
    seq![
        CommandView::UniformMatrix4 {
            uniform: shader.uniform(projection_uniform()),
            matrix: MatrixView::Projection { projection },
        },
        CommandView::UniformMatrix4 {
            uniform: shader.uniform(model_view_uniform()),
            matrix: MatrixView::ModelView { view, model },
        },
        CommandView::UniformMatrix3 {
            uniform: shader.uniform(normal_uniform()),
            matrix: MatrixView::Normal { view, model },
        },
    ]
}

/// The place of the first texture with the number `texture`.
pub open spec fn texture_place(textures: Seq<Texture>, texture: TextureId) -> Option<int> {
    first_index(textures.len() as int, |i: int| textures[i].id() == texture)
}

/// Two states differ at most in the attribute arrays that are switched on.
pub open spec fn same_but_arrays(before: DriverState, after: DriverState) -> bool {
    &&& after.program == before.program
    &&& after.vertex_array == before.vertex_array
    &&& after.active_unit == before.active_unit
    &&& after.textured_units == before.textured_units
    &&& after.capabilities == before.capabilities
}

/// Two states differ at most in the active unit and in the units that have
/// a texture bound.
pub open spec fn same_but_textures(before: DriverState, after: DriverState) -> bool {
    &&& after.program == before.program
    &&& after.vertex_array == before.vertex_array
    &&& after.attribute_arrays == before.attribute_arrays
    &&& after.capabilities == before.capabilities
}

proof fn lemma_enable(state: DriverState, slots: Seq<u32>, n: int)
    requires
        0 <= n <= slots.len(),
    ensures
        same_but_arrays(state, state.after_all(enable_commands(slots, n))),
        forall|l: u32| #[trigger]
            state.after_all(enable_commands(slots, n)).attribute_arrays.contains(l)
                ==> state.attribute_arrays.contains(l) || exists|k: int|
                0 <= k < n && slots[k] == l,
    decreases n,
{
    if n > 0 {
        lemma_enable(state, slots, n - 1);
        let last = CommandView::EnableVertexAttribArray { location: slots[n - 1] };
        assert(enable_commands(slots, n) =~= enable_commands(slots, n - 1).push(last));
        lemma_after_all_push(state, enable_commands(slots, n - 1), last);
        let earlier = state.after_all(enable_commands(slots, n - 1));
        assert forall|l: u32| #[trigger]
            earlier.after(last).attribute_arrays.contains(l) implies state.attribute_arrays.contains(
            l,
        ) || exists|k: int| 0 <= k < n && slots[k] == l by {
            if l == slots[n - 1] {
                assert(0 <= n - 1 < n && slots[n - 1] == l);
            } else {
                assert(earlier.attribute_arrays.contains(l));
                if !state.attribute_arrays.contains(l) {
                    let k = choose|k: int| 0 <= k < n - 1 && slots[k] == l;
                    assert(0 <= k < n && slots[k] == l);
                }
            }
        }
    }
}

proof fn lemma_disable(state: DriverState, slots: Seq<u32>, n: int)
    requires
        0 <= n <= slots.len(),
    ensures
        same_but_arrays(state, state.after_all(disable_commands(slots, n))),
        forall|l: u32| #[trigger]
            state.after_all(disable_commands(slots, n)).attribute_arrays.contains(l) ==> {
                &&& state.attribute_arrays.contains(l)
                &&& forall|k: int| 0 <= k < n ==> slots[k] != l
            },
    decreases n,
{
    if n > 0 {
        lemma_disable(state, slots, n - 1);
        let last = CommandView::DisableVertexAttribArray { location: slots[n - 1] };
        assert(disable_commands(slots, n) =~= disable_commands(slots, n - 1).push(last));
        lemma_after_all_push(state, disable_commands(slots, n - 1), last);
    }
}

proof fn lemma_texture_bind(
    state: DriverState,
    shader: Shader,
    names: Seq<Seq<char>>,
    textures: Seq<Texture>,
    n: int,
)
    requires
        0 <= n <= MAX_TEXTURES,
    ensures
        same_but_textures(state, state.after_all(texture_bind_commands(shader, names, textures, n))),
        forall|unit: u32| #[trigger]
            state.after_all(
                texture_bind_commands(shader, names, textures, n),
            ).textured_units.contains(unit) ==> state.textured_units.contains(unit) || unit < n,
    decreases n,
{
    if n > 0 {
        lemma_texture_bind(state, shader, names, textures, n - 1);
        let earlier = texture_bind_commands(shader, names, textures, n - 1);
        let first = CommandView::ActiveTexture { unit: (n - 1) as u32 };
        let second = CommandView::BindTexture { texture: Some(textures[n - 1].id()) };
        let third = CommandView::Uniform1i {
            uniform: shader.uniform(names[n - 1]),
            value: (n - 1) as i32,
        };
        assert(texture_bind_commands(shader, names, textures, n) =~= earlier.push(first).push(
            second,
        ).push(third));
        lemma_after_all_push(state, earlier.push(first).push(second), third);
        lemma_after_all_push(state, earlier.push(first), second);
        lemma_after_all_push(state, earlier, first);
    }
}

proof fn lemma_texture_unbind(state: DriverState, n: int)
    requires
        0 <= n <= MAX_TEXTURES,
    ensures
        same_but_textures(state, state.after_all(texture_unbind_commands(n))),
        forall|unit: u32| #[trigger]
            state.after_all(texture_unbind_commands(n)).textured_units.contains(unit) ==> {
                &&& state.textured_units.contains(unit)
                &&& unit >= n
            },
    decreases n,
{
    if n > 0 {
        lemma_texture_unbind(state, n - 1);
        let earlier = texture_unbind_commands(n - 1);
        let first = CommandView::ActiveTexture { unit: (n - 1) as u32 };
        let second = CommandView::BindTexture { texture: None };
        assert(texture_unbind_commands(n) =~= earlier.push(first).push(second));
        lemma_after_all_push(state, earlier.push(first), second);
        lemma_after_all_push(state, earlier, first);
    }
}

impl Renderable {
    /// The place of the program in the table of programs.
    pub closed spec fn handle(&self) -> ShaderHandle {
        self.shader
    }

    /// The program, with what is known of its variables.
    pub open spec fn shader(&self, programs: &Programs) -> Shader {
        programs.shader(self.handle())
    }

    /// The table holds the program of this renderable, and the program is
    /// in order.
    pub open spec fn linked(&self, programs: &Programs) -> bool {
        &&& programs.holds(self.handle())
        &&& programs.shader(self.handle()).wf()
    }

    /// The vertex array object that holds the attribute bindings.
    pub closed spec fn vertex_array(&self) -> VertexArrayId {
        self.vao
    }

    /// The attributes that were bound, each with its slot.
    pub closed spec fn attribute_table(&self) -> NameTable<u32> {
        self.attributes
    }

    /// The textures, each under the name of its sampler.
    pub closed spec fn texture_table(&self) -> NameTable<Texture> {
        self.textures
    }

    /// Number of indices that a draw uses.
    pub closed spec fn index_count(&self) -> u32 {
        self.num_indices
    }

    /// Type of the indices.
    pub closed spec fn index_type(&self) -> ElementType {
        self.indices_type
    }

    /// The program and the two tables are in order, and the textures are
    /// few enough to number their units.
    pub open spec fn wf(&self) -> bool {
        &&& self.attribute_table().wf()
        &&& self.texture_table().wf()
        &&& self.texture_table().names().len() <= MAX_TEXTURES
    }

    /// The uniforms that a draw sets, in the order in which it needs them:
    /// the sampler of each texture, then the three matrices.
    pub open spec fn needed_uniforms(&self) -> Seq<Seq<char>> {
        self.texture_table().names() + seq![
            projection_uniform(),
            model_view_uniform(),
            normal_uniform(),
        ]
    }

    /// The place in `needed_uniforms` of the first uniform whose location
    /// the driver has not been asked for.
    pub open spec fn first_unknown(&self, programs: &Programs) -> Option<int> {
        first_index(
            self.needed_uniforms().len() as int,
            |i: int| !self.shader(programs).uniform_locations().contains_key(self.needed_uniforms()[i]),
        )
    }

    /// The commands that make the program, the attributes and the textures
    /// current.
    pub open spec fn bind_commands(&self, programs: &Programs) -> Seq<CommandView> {
        seq![
            CommandView::UseProgram { program: Some(self.shader(programs).program_id()) },
            CommandView::BindVertexArray { vertex_array: Some(self.vertex_array()) },
        ] + enable_commands(
            self.attribute_table().values(),
            self.attribute_table().values().len() as int,
        ) + texture_bind_commands(
            self.shader(programs),
            self.texture_table().names(),
            self.texture_table().values(),
            self.texture_table().values().len() as int,
        )
    }

    /// The commands that undo `bind_commands`.
    pub open spec fn unbind_commands(&self) -> Seq<CommandView> {
        texture_unbind_commands(self.texture_table().values().len() as int) + disable_commands(
            self.attribute_table().values(),
            self.attribute_table().values().len() as int,
        ) + seq![
            CommandView::BindVertexArray { vertex_array: None },
            CommandView::UseProgram { program: None },
        ]
    }

    /// A renderable for the program at `shader`, with a new, empty vertex
    /// array object.
    pub fn new(gl: &mut Gl, shader: ShaderHandle) -> (renderable: Renderable)
        requires
            old(gl).numbers_left() >= 1,
        ensures
            renderable.wf(),
            renderable.handle() == shader,
            renderable.vertex_array().number == old(gl).next_number(),
            renderable.attribute_table().names() == Seq::<Seq<char>>::empty(),
            renderable.attribute_table().values() == Seq::<u32>::empty(),
            renderable.texture_table().names() == Seq::<Seq<char>>::empty(),
            renderable.texture_table().values() == Seq::<Texture>::empty(),
            renderable.index_count() == 0,
            renderable.index_type() == ElementType::UnsignedShort,
            final(gl).next_number() == old(gl).next_number() + 1,
            final(gl)@ == old(gl)@.push(
                CommandView::CreateVertexArray { vertex_array: renderable.vertex_array() },
            ),
    {
        let vao = gl.create_vertex_array();
        Renderable {
            shader,
            vao,
            attributes: NameTable::new(),
            num_indices: 0,
            indices_type: ElementType::UnsignedShort,
            textures: NameTable::new(),
        }
    }

    /// Binds `data` to the attribute `name` of the program, `size` numbers
    /// for each vertex.
    ///
    /// If the driver has not been asked where the attribute is, the question
    /// is returned and nothing else happens. If the program has no such
    /// attribute, nothing is created or recorded. Otherwise the data goes
    /// into a new buffer and the attribute's slot is kept for drawing.
    pub fn vertex_attribute(
        &mut self,
        gl: &mut Gl,
        programs: &Programs,
        name: &str,
        data: ArrayData,
        size: i32,
    ) -> (result: Result<Attach, LocationQuery>)
        requires
            old(self).wf(),
            old(self).linked(programs),
            old(gl).numbers_left() >= 1,
        ensures
            final(self).wf(),
            final(self).handle() == old(self).handle(),
            final(self).vertex_array() == old(self).vertex_array(),
            final(self).texture_table() == old(self).texture_table(),
            final(self).index_count() == old(self).index_count(),
            final(self).index_type() == old(self).index_type(),
            !old(self).shader(programs).attributes().contains_key(name@) ==> {
                &&& result.is_err()
                &&& result.unwrap_err()@ == (LocationQueryView {
                    program: old(self).shader(programs).program_id(),
                    kind: LocationKind::Attribute,
                    name: name@,
                })
                &&& final(self).attribute_table() == old(self).attribute_table()
                &&& final(gl)@ == old(gl)@
                &&& final(gl).next_number() == old(gl).next_number()
            },
            old(self).shader(programs).attributes().contains_key(name@) ==> match old(
                self,
            ).shader(programs).attributes()[name@] {
                None => {
                    &&& result == Ok::<Attach, LocationQuery>(Attach::Skipped)
                    &&& final(self).attribute_table() == old(self).attribute_table()
                    &&& final(gl)@ == old(gl)@
                    &&& final(gl).next_number() == old(gl).next_number()
                },
                Some(slot) => {
                    &&& result == Ok::<Attach, LocationQuery>(Attach::Bound)
                    &&& stored(
                        old(self).attribute_table(),
                        final(self).attribute_table(),
                        name@,
                        slot,
                    )
                    &&& final(gl)@ == old(gl)@ + attach_commands(
                        old(self).vertex_array(),
                        BufferId { number: old(gl).next_number() as u32 },
                        slot,
                        data@,
                        size,
                    )
                    &&& final(gl).next_number() == old(gl).next_number() + 1
                },
            },
    {
        let shader = programs.get(self.shader);
        match shader.get_attrib_location(name) {
            None => Err(
                LocationQuery {
                    program: shader.program(),
                    kind: LocationKind::Attribute,
                    name: name.to_owned(),
                },
            ),
            Some(None) => Ok(Attach::Skipped),
            Some(Some(slot)) => {
                let element_type = data.element_type();
                gl.record(Command::BindVertexArray { vertex_array: Some(self.vao) });
                let buffer = gl.create_buffer();
                gl.record(Command::BindBuffer { target: BufferTarget::Array, buffer: Some(buffer) });
                let ghost data_view = data@;
                gl.record(Command::BufferData { target: BufferTarget::Array, data });
                gl.record(Command::VertexAttribPointer { location: slot, size, element_type });
                gl.record(Command::BindVertexArray { vertex_array: None });
                self.attributes.insert(name.to_owned(), slot);
                assert(gl@ =~= old(gl)@ + attach_commands(
                    self.vao,
                    buffer,
                    slot,
                    data_view,
                    size,
                ));
                Ok(Attach::Bound)
            },
        }
    }

    /// Puts the triangle indices `data` into a new buffer and keeps their
    /// number and type for drawing.
    pub fn index_buffer(&mut self, gl: &mut Gl, data: ArrayData)
        requires
            old(self).wf(),
            old(gl).numbers_left() >= 1,
            data@.len() <= u32::MAX,
        ensures
            final(self).wf(),
            final(self).handle() == old(self).handle(),
            final(self).vertex_array() == old(self).vertex_array(),
            final(self).attribute_table() == old(self).attribute_table(),
            final(self).texture_table() == old(self).texture_table(),
            final(self).index_count() == data@.len(),
            final(self).index_type() == data@.element_type(),
            final(gl)@ == old(gl)@ + index_commands(
                old(self).vertex_array(),
                BufferId { number: old(gl).next_number() as u32 },
                data@,
            ),
            final(gl).next_number() == old(gl).next_number() + 1,
    {
        let element_type = data.element_type();
        let count: u32 = match data.len() {
            Some(count) => count,
            None => 0,
        };
        gl.record(Command::BindVertexArray { vertex_array: Some(self.vao) });
        let buffer = gl.create_buffer();
        gl.record(Command::BindBuffer { target: BufferTarget::ElementArray, buffer: Some(buffer) });
        let ghost data_view = data@;
        gl.record(Command::BufferData { target: BufferTarget::ElementArray, data });
        self.num_indices = count;
        self.indices_type = element_type;
        gl.record(Command::BindVertexArray { vertex_array: None });
        assert(gl@ =~= old(gl)@ + index_commands(self.vao, buffer, data_view));
    }

    /// Creates a texture for the image at `src` and keeps it under the name
    /// of its sampler, in place of the texture that had that name before or
    /// after all the others.
    pub fn texture(&mut self, gl: &mut Gl, src: &str, texture_name: &str)
        requires
            old(self).wf(),
            old(gl).numbers_left() >= 1,
            old(self).texture_table().names().len() < MAX_TEXTURES,
        ensures
            final(self).wf(),
            final(self).handle() == old(self).handle(),
            final(self).vertex_array() == old(self).vertex_array(),
            final(self).attribute_table() == old(self).attribute_table(),
            final(self).index_count() == old(self).index_count(),
            final(self).index_type() == old(self).index_type(),
            stored(
                old(self).texture_table(),
                final(self).texture_table(),
                texture_name@,
                Texture::holding(
                    TextureId { number: old(gl).next_number() as u32 },
                    LoadState::Loading,
                ),
            ),
            final(gl)@ == old(gl)@ + creation_commands(
                TextureId { number: old(gl).next_number() as u32 },
                src@,
            ),
            final(gl).next_number() == old(gl).next_number() + 1,
    {
        let texture = Texture::new(gl, src);
        self.textures.insert(texture_name.to_owned(), texture);
    }

    /// Takes the news that the image fetched for `texture` has arrived: the
    /// first texture with that number, if it was waiting, has the image
    /// uploaded.
    pub fn image_loaded(&mut self, gl: &mut Gl, texture: TextureId)
        requires
            old(self).wf(),
        ensures
            final(self).wf(),
            final(self).handle() == old(self).handle(),
            final(self).vertex_array() == old(self).vertex_array(),
            final(self).attribute_table() == old(self).attribute_table(),
            final(self).index_count() == old(self).index_count(),
            final(self).index_type() == old(self).index_type(),
            final(self).texture_table().names() == old(self).texture_table().names(),
            final(gl).next_number() == old(gl).next_number(),
            match texture_place(old(self).texture_table().values(), texture) {
                Some(i) => {
                    &&& final(self).texture_table().values() == old(
                        self,
                    ).texture_table().values().update(
                        i,
                        old(self).texture_table().values()[i].loaded(),
                    )
                    &&& final(gl)@ == old(gl)@ + old(
                        self,
                    ).texture_table().values()[i].arrival_commands()
                },
                None => {
                    &&& final(self).texture_table().values() == old(self).texture_table().values()
                    &&& final(gl)@ == old(gl)@
                },
            },
    {
        let ghost values = self.textures.values();
        let ghost holds = |i: int| values[i].id() == texture;
        let mut i: usize = 0;
        while i < self.textures.len()
            invariant
                self.wf(),
                *self == *old(self),
                *gl == *old(gl),
                values == self.textures.values(),
                holds == (|i: int| values[i].id() == texture),
                i <= values.len(),
                forall|j: int| 0 <= j < i ==> !#[trigger] holds(j),
            decreases values.len() - i,
        {
            let mut found = *self.textures.value(i);
            if found.get_texture() == texture {
                proof {
                    lemma_first_index_is(values.len() as int, holds, i as int);
                }
                found.image_loaded(gl);
                self.textures.replace(i, found);
                return ;
            }
            i += 1;
        }
        proof {
            lemma_first_index_none(values.len() as int, holds);
        }
    }

    /// Number of indices that a draw uses.
    pub fn num_indices(&self) -> (count: u32)
        ensures
            count == self.index_count(),
    {
        self.num_indices
    }

    /// Type of the indices.
    pub fn indices_type(&self) -> (element_type: ElementType)
        ensures
            element_type == self.index_type(),
    {
        self.indices_type
    }

    /// The place of the program in the table of programs.
    pub fn program(&self) -> (handle: ShaderHandle)
        ensures
            handle == self.handle(),
    {
        self.shader
    }

    /// The vertex array object that holds the attribute bindings.
    pub fn vertex_array_object(&self) -> (vertex_array: VertexArrayId)
        ensures
            vertex_array == self.vertex_array(),
    {
        self.vao
    }

    /// The attributes that were bound, each with its slot.
    pub fn attributes(&self) -> (attributes: &NameTable<u32>)
        ensures
            *attributes == self.attribute_table(),
    {
        &self.attributes
    }

    /// The textures, each under the name of its sampler.
    pub fn textures(&self) -> (textures: &NameTable<Texture>)
        ensures
            *textures == self.texture_table(),
    {
        &self.textures
    }

    /// Makes the program, the vertex array, the attribute arrays and the
    /// textures current.
    fn bind(&self, gl: &mut Gl, programs: &Programs)
        requires
            self.wf(),
            self.linked(programs),
        ensures
            final(gl).next_number() == old(gl).next_number(),
            final(gl)@ == old(gl)@ + self.bind_commands(programs),
    {
        let shader = programs.get(self.shader);
        gl.record(Command::UseProgram { program: Some(shader.program()) });
        gl.record(Command::BindVertexArray { vertex_array: Some(self.vao) });
        let ghost start = gl@;
        let ghost slots = self.attributes.values();
        let mut i: usize = 0;
        while i < self.attributes.len()
            invariant
                self.wf(),
                slots == self.attributes.values(),
                i <= slots.len(),
                gl.next_number() == old(gl).next_number(),
                gl@ == start + enable_commands(slots, i as int),
            decreases slots.len() - i,
        {
            let location = *self.attributes.value(i);
            gl.record(Command::EnableVertexAttribArray { location });
            assert(gl@ =~= start + enable_commands(slots, i + 1));
            i += 1;
        }
        let ghost middle = gl@;
        let ghost names = self.textures.names();
        let ghost textures = self.textures.values();
        let mut unit: usize = 0;
        while unit < self.textures.len()
            invariant
                self.wf(),
                shader.wf(),
                names == self.textures.names(),
                textures == self.textures.values(),
                unit <= textures.len(),
                gl.next_number() == old(gl).next_number(),
                gl@ == middle + texture_bind_commands(*shader, names, textures, unit as int),
            decreases textures.len() - unit,
        {
            let uniform = shader.uniform_or_none(self.textures.name(unit).as_str());
            let texture = self.textures.value(unit).get_texture();
            gl.record(Command::ActiveTexture { unit: unit as u32 });
            gl.record(Command::BindTexture { texture: Some(texture) });
            gl.record(Command::Uniform1i { uniform, value: unit as i32 });
            assert(gl@ =~= middle + texture_bind_commands(*shader, names, textures, unit + 1));
            unit += 1;
        }
        assert(gl@ =~= old(gl)@ + self.bind_commands(programs));
    }

    /// Undoes `bind`: empties the texture units, switches the attribute
    /// arrays off and leaves no vertex array and no program current.
    fn unbind(&self, gl: &mut Gl)
        requires
            self.wf(),
        ensures
            final(gl).next_number() == old(gl).next_number(),
            final(gl)@ == old(gl)@ + self.unbind_commands(),
    {
        let ghost start = gl@;
        let ghost count = self.textures.values().len();
        let mut unit: usize = 0;
        while unit < self.textures.len()
            invariant
                self.wf(),
                count == self.textures.values().len(),
                unit <= count,
                gl.next_number() == old(gl).next_number(),
                gl@ == start + texture_unbind_commands(unit as int),
            decreases count - unit,
        {
            gl.record(Command::ActiveTexture { unit: unit as u32 });
            gl.record(Command::BindTexture { texture: None });
            assert(gl@ =~= start + texture_unbind_commands(unit + 1));
            unit += 1;
        }
        let ghost middle = gl@;
        let ghost slots = self.attributes.values();
        let mut i: usize = 0;
        while i < self.attributes.len()
            invariant
                self.wf(),
                slots == self.attributes.values(),
                i <= slots.len(),
                gl.next_number() == old(gl).next_number(),
                gl@ == middle + disable_commands(slots, i as int),
            decreases slots.len() - i,
        {
            let location = *self.attributes.value(i);
            gl.record(Command::DisableVertexAttribArray { location });
            assert(gl@ =~= middle + disable_commands(slots, i + 1));
            i += 1;
        }
        gl.record(Command::BindVertexArray { vertex_array: None });
        gl.record(Command::UseProgram { program: None });
        assert(gl@ =~= old(gl)@ + self.unbind_commands());
    }
}

/// Renderables that draw with the same program share what is known of it:
/// a location that one of them needs and finds known is known to the other
/// too, so the driver is asked for it once.
pub proof fn lemma_program_is_shared(
    first: Renderable,
    second: Renderable,
    programs: &Programs,
    name: Seq<char>,
)
    requires
        first.handle() == second.handle(),
    ensures
        first.shader(programs) == second.shader(programs),
        first.shader(programs).uniform_locations().contains_key(name) == second.shader(
            programs,
        ).uniform_locations().contains_key(name),
        first.shader(programs).uniform(name) == second.shader(programs).uniform(name),
{
}

impl Render for Renderable {
    open spec fn ready(&self, programs: &Programs) -> bool {
        self.wf() && self.linked(programs)
    }

    open spec fn pending(&self, programs: &Programs) -> Option<LocationQueryView> {
        match self.first_unknown(programs) {
            Some(i) => Some(
                LocationQueryView {
                    program: self.shader(programs).program_id(),
                    kind: LocationKind::Uniform,
                    name: self.needed_uniforms()[i],
                },
            ),
            None => None,
        }
    }

    open spec fn draw_commands(
        &self,
        programs: &Programs,
        model: Seq<Factor>,
        view: LookAt,
        projection: Perspective,
    ) -> Seq<CommandView> {
        self.bind_commands(programs) + matrix_commands(self.shader(programs), model, view, projection).push(
            CommandView::DrawElements {
                count: self.index_count(),
                element_type: self.index_type(),
            },
        ) + self.unbind_commands()
    }

    proof fn lemma_draw_restores(
        &self,
        programs: &Programs,
        state: DriverState,
        model: Seq<Factor>,
        view: LookAt,
        projection: Perspective,
    ) {
        let slots = self.attribute_table().values();
        let names = self.texture_table().names();
        let textures = self.texture_table().values();
        let n = slots.len() as int;
        let m = textures.len() as int;
        let head = seq![
            CommandView::UseProgram { program: Some(self.shader(programs).program_id()) },
            CommandView::BindVertexArray { vertex_array: Some(self.vertex_array()) },
        ];
        let enable = enable_commands(slots, n);
        let bind_textures = texture_bind_commands(self.shader(programs), names, textures, m);
        let middle = matrix_commands(self.shader(programs), model, view, projection).push(
            CommandView::DrawElements {
                count: self.index_count(),
                element_type: self.index_type(),
            },
        );
        let unbind_textures = texture_unbind_commands(m);
        let disable = disable_commands(slots, n);
        let tail = seq![
            CommandView::BindVertexArray { vertex_array: None },
            CommandView::UseProgram { program: None },
        ];
        let s1 = state.after_all(head);
        let s2 = s1.after_all(enable);
        let s3 = s2.after_all(bind_textures);
        let s4 = s3.after_all(middle);
        let s5 = s4.after_all(unbind_textures);
        let s6 = s5.after_all(disable);
        let s7 = s6.after_all(tail);
        assert(self.draw_commands(programs, model, view, projection) =~= head + enable + bind_textures
            + middle + unbind_textures + disable + tail);
        lemma_after_all_concat(
            state,
            head + enable + bind_textures + middle + unbind_textures + disable,
            tail,
        );
        lemma_after_all_concat(
            state,
            head + enable + bind_textures + middle + unbind_textures,
            disable,
        );
        lemma_after_all_concat(state, head + enable + bind_textures + middle, unbind_textures);
        lemma_after_all_concat(state, head + enable + bind_textures, middle);
        lemma_after_all_concat(state, head + enable, bind_textures);
        lemma_after_all_concat(state, head, enable);
        assert(s1.attribute_arrays == state.attribute_arrays && s1.textured_units
            == state.textured_units && s1.capabilities == state.capabilities) by {
            reveal_with_fuel(DriverState::after_first, 3);
            lemma_after_all_in_order(state, head);
        }
        lemma_enable(s1, slots, n);
        lemma_texture_bind(s2, self.shader(programs), names, textures, m);
        assert(s4.attribute_arrays == s3.attribute_arrays && s4.textured_units
            == s3.textured_units && s4.capabilities == s3.capabilities) by {
            reveal_with_fuel(DriverState::after_first, 5);
            lemma_after_all_in_order(s3, middle);
        }
        lemma_texture_unbind(s4, m);
        lemma_disable(s5, slots, n);
        assert(s7.program.is_none() && s7.vertex_array.is_none() && s7.attribute_arrays
            == s6.attribute_arrays && s7.textured_units == s6.textured_units && s7.capabilities
            == s6.capabilities) by {
            reveal_with_fuel(DriverState::after_first, 3);
            lemma_after_all_in_order(s6, tail);
        }
        assert forall|l: u32| !s7.attribute_arrays.contains(l) by {
            if s6.attribute_arrays.contains(l) {
                assert(s5.attribute_arrays.contains(l));
                assert(s2.attribute_arrays.contains(l));
                assert(!s1.attribute_arrays.contains(l));
                let k = choose|k: int| 0 <= k < n && slots[k] == l;
                assert(slots[k] != l);
            }
        }
        assert forall|unit: u32| !s7.textured_units.contains(unit) by {
            if s6.textured_units.contains(unit) {
                assert(s5.textured_units.contains(unit));
                assert(s4.textured_units.contains(unit));
                assert(s3.textured_units.contains(unit));
                assert(!s2.textured_units.contains(unit));
            }
        }
        assert(s7.attribute_arrays =~= Set::<u32>::empty());
        assert(s7.textured_units =~= Set::<u32>::empty());
    }

    fn unresolved(&self, programs: &Programs) -> (query: Option<LocationQuery>) {
        let shader = programs.get(self.shader);
        let ghost needed = self.needed_uniforms();
        let ghost known = shader.uniform_locations();
        let ghost holds = |i: int| !known.contains_key(needed[i]);
        let mut i: usize = 0;
        while i < self.textures.len()
            invariant
                self.wf(),
                needed == self.needed_uniforms(),
                known == shader.uniform_locations(),
                *shader == self.shader(programs),
                self.linked(programs),
                holds == (|i: int| !known.contains_key(needed[i])),
                i <= self.textures.names().len(),
                forall|j: int| 0 <= j < i ==> !#[trigger] holds(j),
            decreases self.textures.names().len() - i,
        {
            let name = self.textures.name(i);
            if shader.get_uniform_location(name.as_str()).is_none() {
                proof {
                    assert(needed[i as int] == name@);
                    lemma_first_index_is(needed.len() as int, holds, i as int);
                }
                return Some(
                    LocationQuery {
                        program: shader.program(),
                        kind: LocationKind::Uniform,
                        name: name.clone(),
                    },
                );
            }
            assert(needed[i as int] == name@);
            i += 1;
        }
        let ghost n = self.textures.names().len() as int;
        assert(needed[n] == projection_uniform());
        assert(needed[n + 1] == model_view_uniform());
        assert(needed[n + 2] == normal_uniform());
        if shader.get_uniform_location("u_projectionMatrix").is_none() {
            proof {
                lemma_first_index_is(needed.len() as int, holds, n);
            }
            return Some(
                LocationQuery {
                    program: shader.program(),
                    kind: LocationKind::Uniform,
                    name: "u_projectionMatrix".to_owned(),
                },
            );
        }
        if shader.get_uniform_location("u_modelViewMatrix").is_none() {
            proof {
                lemma_first_index_is(needed.len() as int, holds, n + 1);
            }
            return Some(
                LocationQuery {
                    program: shader.program(),
                    kind: LocationKind::Uniform,
                    name: "u_modelViewMatrix".to_owned(),
                },
            );
        }
        if shader.get_uniform_location("u_normalMatrix").is_none() {
            proof {
                lemma_first_index_is(needed.len() as int, holds, n + 2);
            }
            return Some(
                LocationQuery {
                    program: shader.program(),
                    kind: LocationKind::Uniform,
                    name: "u_normalMatrix".to_owned(),
                },
            );
        }
        proof {
            lemma_first_index_none(needed.len() as int, holds);
        }
        None
    }

    fn render(
        &self,
        gl: &mut Gl,
        programs: &Programs,
        model_matrix: &Transform,
        camera: &Camera,
    ) -> (result: Result<(), LocationQuery>) {
        let shader = programs.get(self.shader);
        match self.unresolved(programs) {
            Some(query) => {
                return Err(query);
            },
            None => {},
        }
        self.bind(gl, programs);
        let ghost bound = gl@;
        let view = *camera.view();
        let projection = *camera.projection();
        let projection_uniform = shader.uniform_or_none("u_projectionMatrix");
        gl.record(
            Command::UniformMatrix4 {
                uniform: projection_uniform,
                matrix: Matrix::Projection { projection },
            },
        );
        let model_view_uniform = shader.uniform_or_none("u_modelViewMatrix");
        gl.record(
            Command::UniformMatrix4 {
                uniform: model_view_uniform,
                matrix: Matrix::ModelView { view, model: model_matrix.duplicate() },
            },
        );
        let normal_uniform = shader.uniform_or_none("u_normalMatrix");
        gl.record(
            Command::UniformMatrix3 {
                uniform: normal_uniform,
                matrix: Matrix::Normal { view, model: model_matrix.duplicate() },
            },
        );
        gl.record(
            Command::DrawElements { count: self.num_indices, element_type: self.indices_type },
        );
        assert(gl@ =~= bound + matrix_commands(
            *shader,
            model_matrix@,
            view,
            projection,
        ).push(
            CommandView::DrawElements {
                count: self.index_count(),
                element_type: self.index_type(),
            },
        ));
        self.unbind(gl);
        assert(gl@ =~= old(gl)@ + self.draw_commands(programs, model_matrix@, view, projection));
        Ok(())
    }
}

} // verus!
