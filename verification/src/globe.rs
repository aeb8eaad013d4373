//! The globe: the earth's surface and an atmosphere shell around it, drawn
//! from one sphere mesh.

use crate::camera::Camera;
use crate::geometry::clamped;
use crate::geometry::generate_uv_sphere;
use crate::geometry::fits;
use crate::geometry::index_count;
use crate::geometry::vertex_count;
use crate::geometry::Mesh;
use crate::geometry::MIN_HEIGHT_SEGMENTS;
use crate::geometry::MIN_WIDTH_SEGMENTS;
use crate::gl::ArrayData;
use crate::gl::ArrayDataView;
use crate::gl::BufferId;
use crate::gl::CommandView;
use crate::gl::ElementType;
use crate::gl::Gl;
use crate::gl::TextureId;
use crate::gl::VertexArrayId;
use crate::gl::VertexChannel;
use crate::names::lemma_position_holds;
use crate::renderable::attach_commands;
use crate::renderable::index_commands;
use crate::renderable::matrix_commands;
use crate::renderable::model_view_uniform;
use crate::renderable::Render;
use crate::renderable::Renderable;
use crate::scalar::Scalar;
use crate::scalar::ATMOSPHERE_SCALE_BITS;
use crate::shader::LocationKind;
use crate::shader::LocationQuery;
use crate::shader::LocationQueryView;
use crate::shader::Programs;
use crate::shader::Shader;
use crate::shader::ShaderHandle;
use crate::state::lemma_after_all_concat;
use crate::state::DriverState;
use crate::texture::creation_commands;
use crate::texture::LoadState;
use crate::texture::Texture;
use crate::transform::Factor;
use crate::transform::LookAt;
use crate::transform::MatrixView;
use crate::transform::Perspective;
use crate::transform::Transform;
use vstd::prelude::*;

verus! {

/// Name of the attribute that receives the vertex positions.
pub open spec fn position_attribute() -> Seq<char> {
    "a_position"@
}

/// Name of the attribute that receives the vertex normals.
pub open spec fn normal_attribute() -> Seq<char> {
    "a_normal"@
}

/// Name of the attribute that receives the texture coordinates.
pub open spec fn uv_attribute() -> Seq<char> {
    "a_uv"@
}

/// Name of the sampler of the earth's surface texture.
pub open spec fn surface_sampler() -> Seq<char> {
    "s_texture"@
}

/// Where the image of the earth's surface is fetched from.
pub open spec fn surface_image() -> Seq<char> {
    "/data/world.jpg"@
}

/// The factor by which the atmosphere shell is larger than the earth: 1.04.
pub open spec fn atmosphere_scale() -> Scalar {
    Scalar { bits: ATMOSPHERE_SCALE_BITS }
}

/// The atmosphere's transform within the globe: the uniform scaling by
/// 1.04, with no translation and no rotation.
pub open spec fn atmosphere_factor() -> Factor {
    Factor::Scaling { factor: atmosphere_scale() }
}

/// One channel of the vertices of `mesh`, on a sphere of the given radius.
pub open spec fn sphere_data(channel: VertexChannel, radius: Scalar, mesh: Mesh) -> ArrayDataView {
    ArrayDataView::Sphere {
        channel,
        radius,
        width_segments: mesh.width() as u32,
        height_segments: mesh.height() as u32,
        vertices: mesh.vertex_seq(),
    }
}

/// The triangle indices of `mesh`.
pub open spec fn index_data(mesh: Mesh) -> ArrayDataView {
    ArrayDataView::Ints { values: mesh.index_seq() }
}

/// How many buffers an attribute takes: one if the program has it.
pub open spec fn used(slot: Option<u32>) -> int {
    if slot.is_some() {
        1
    } else {
        0
    }
}

/// The commands that bind an attribute if the program has it, with the
/// buffer numbered `next`.
pub open spec fn optional_attach(
    vertex_array: VertexArrayId,
    next: int,
    slot: Option<u32>,
    data: ArrayDataView,
    size: i32,
) -> Seq<CommandView> {
    match slot {
        Some(slot) => attach_commands(
            vertex_array,
            BufferId { number: next as u32 },
            slot,
            data,
            size,
        ),
        None => Seq::<CommandView>::empty(),
    }
}

/// The names of the attributes that the program has, among the given ones.
pub open spec fn bound_names(rows: Seq<(Seq<char>, Option<u32>)>) -> Seq<Seq<char>>
    decreases rows.len(),
{
    if rows.len() == 0 {
        Seq::<Seq<char>>::empty()
    } else if rows.last().1.is_some() {
        bound_names(rows.drop_last()).push(rows.last().0)
    } else {
        bound_names(rows.drop_last())
    }
}

/// The slots of the attributes that the program has, among the given ones.
pub open spec fn bound_slots(rows: Seq<(Seq<char>, Option<u32>)>) -> Seq<u32>
    decreases rows.len(),
{
    if rows.len() == 0 {
        Seq::<u32>::empty()
    } else if rows.last().1.is_some() {
        bound_slots(rows.drop_last()).push(rows.last().1.unwrap())
    } else {
        bound_slots(rows.drop_last())
    }
}

/// The attributes of the earth's surface, each with what the driver said of
/// it.
pub open spec fn earth_rows(shader: Shader) -> Seq<(Seq<char>, Option<u32>)> {
    seq![
        (position_attribute(), shader.attributes()[position_attribute()]),
        (normal_attribute(), shader.attributes()[normal_attribute()]),
        (uv_attribute(), shader.attributes()[uv_attribute()]),
    ]
}

/// The attributes of the atmosphere, each with what the driver said of it.
pub open spec fn atmosphere_rows(shader: Shader) -> Seq<(Seq<char>, Option<u32>)> {
    seq![
        (position_attribute(), shader.attributes()[position_attribute()]),
        (normal_attribute(), shader.attributes()[normal_attribute()]),
    ]
}

/// The commands that build the earth's surface, numbering from `next`:
/// its vertex array, positions, normals and texture coordinates as far as
/// the program has them, the triangle indices, and the surface texture.
pub open spec fn earth_commands(shader: Shader, mesh: Mesh, radius: Scalar, next: int) -> Seq<
    CommandView,
> {
    let vertex_array = VertexArrayId { number: next as u32 };
    let position = shader.attributes()[position_attribute()];
    let normal = shader.attributes()[normal_attribute()];
    let uv = shader.attributes()[uv_attribute()];
    let second = next + 1 + used(position);
    let third = second + used(normal);
    let fourth = third + used(uv);
    seq![CommandView::CreateVertexArray { vertex_array }] + optional_attach(
        vertex_array,
        next + 1,
        position,
        sphere_data(VertexChannel::Position, radius, mesh),
        3,
    ) + optional_attach(
        vertex_array,
        second,
        normal,
        sphere_data(VertexChannel::Normal, radius, mesh),
        3,
    ) + optional_attach(
        vertex_array,
        third,
        uv,
        sphere_data(VertexChannel::TexCoord, radius, mesh),
        2,
    ) + index_commands(vertex_array, BufferId { number: fourth as u32 }, index_data(mesh))
        + creation_commands(TextureId { number: (fourth + 1) as u32 }, surface_image())
}

/// How many objects the earth's surface creates.
pub open spec fn earth_numbers(shader: Shader) -> int {
    3 + used(shader.attributes()[position_attribute()]) + used(
        shader.attributes()[normal_attribute()],
    ) + used(shader.attributes()[uv_attribute()])
}

/// The commands that build the atmosphere, numbering from `next`: its
/// vertex array, positions and normals as far as the program has them, and
/// the triangle indices.
pub open spec fn atmosphere_commands(shader: Shader, mesh: Mesh, radius: Scalar, next: int) -> Seq<
    CommandView,
> {
    let vertex_array = VertexArrayId { number: next as u32 };
    let position = shader.attributes()[position_attribute()];
    let normal = shader.attributes()[normal_attribute()];
    let second = next + 1 + used(position);
    let third = second + used(normal);
    seq![CommandView::CreateVertexArray { vertex_array }] + optional_attach(
        vertex_array,
        next + 1,
        position,
        sphere_data(VertexChannel::Position, radius, mesh),
        3,
    ) + optional_attach(
        vertex_array,
        second,
        normal,
        sphere_data(VertexChannel::Normal, radius, mesh),
        3,
    ) + index_commands(vertex_array, BufferId { number: third as u32 }, index_data(mesh))
}

/// How many objects the atmosphere creates.
pub open spec fn atmosphere_numbers(shader: Shader) -> int {
    2 + used(shader.attributes()[position_attribute()]) + used(
        shader.attributes()[normal_attribute()],
    )
}

/// The first attribute that the driver has to be asked for before a globe
/// can be built: the earth's position, normal and texture coordinate, then
/// the atmosphere's position and normal.
pub open spec fn first_unknown_attribute(earth: Shader, atmosphere: Shader) -> Option<
    LocationQueryView,
> {
    if !earth.attributes().contains_key(position_attribute()) {
        Some(attribute_query(earth, position_attribute()))
    } else if !earth.attributes().contains_key(normal_attribute()) {
        Some(attribute_query(earth, normal_attribute()))
    } else if !earth.attributes().contains_key(uv_attribute()) {
        Some(attribute_query(earth, uv_attribute()))
    } else if !atmosphere.attributes().contains_key(position_attribute()) {
        Some(attribute_query(atmosphere, position_attribute()))
    } else if !atmosphere.attributes().contains_key(normal_attribute()) {
        Some(attribute_query(atmosphere, normal_attribute()))
    } else {
        None
    }
}

/// The question where `shader` keeps the attribute `name`.
pub open spec fn attribute_query(shader: Shader, name: Seq<char>) -> LocationQueryView {
    LocationQueryView { program: shader.program_id(), kind: LocationKind::Attribute, name }
}

/// The three attribute names differ.
proof fn lemma_names_differ()
    ensures
        position_attribute() != normal_attribute(),
        position_attribute() != uv_attribute(),
        normal_attribute() != uv_attribute(),
{
    reveal_strlit("a_position");
    reveal_strlit("a_normal");
    reveal_strlit("a_uv");
    assert(position_attribute().len() == 10);
    assert(normal_attribute().len() == 8);
    assert(uv_attribute().len() == 4);
}

/// The earth's surface and its atmosphere shell.
#[derive(Clone, Debug)]
pub struct Globe {
    mesh: Mesh,
    radius: Scalar,
    earth: Renderable,
    atmosphere: Renderable,
    earth_xform: Transform,
    atmosphere_xform: Transform,
}

impl Globe {
    /// The sphere that both parts are drawn from.
    pub closed spec fn mesh(&self) -> Mesh {
        self.mesh
    }

    /// The radius of the earth's surface.
    pub closed spec fn radius(&self) -> Scalar {
        self.radius
    }

    /// The earth's surface.
    pub closed spec fn earth(&self) -> Renderable {
        self.earth
    }

    /// The atmosphere shell.
    pub closed spec fn atmosphere(&self) -> Renderable {
        self.atmosphere
    }

    /// The transform of the earth's surface within the globe.
    pub closed spec fn earth_transform(&self) -> Seq<Factor> {
        self.earth_xform@
    }

    /// The transform of the atmosphere shell within the globe.
    pub closed spec fn atmosphere_transform(&self) -> Seq<Factor> {
        self.atmosphere_xform@
    }

    /// Both parts are in order; the atmosphere has no texture; the earth's
    /// surface is not transformed within the globe, and the atmosphere is
    /// scaled by 1.04 and nothing else.
    pub open spec fn wf(&self) -> bool {
        &&& self.mesh().wf()
        &&& self.earth().wf()
        &&& self.atmosphere().wf()
        &&& self.atmosphere().texture_table().names().len() == 0
        &&& self.earth_transform() == Seq::<Factor>::empty()
        &&& self.atmosphere_transform() == seq![atmosphere_factor()]
    }

    /// Builds a globe of the given radius from a sphere with
    /// `width_segments` by `height_segments` cells, each raised to its
    /// minimum, to be drawn with the two programs given.
    ///
    /// If the driver has not been asked where one of the programs keeps an
    /// attribute that the globe binds, the first such question is returned
    /// and nothing is recorded. Otherwise the earth's surface is built
    /// first and the atmosphere after it, from the same vertices and
    /// indices.
    pub fn new(
        gl: &mut Gl,
        programs: &Programs,
        radius: Scalar,
        width_segments: u32,
        height_segments: u32,
        earth_shader: ShaderHandle,
        atmosphere_shader: ShaderHandle,
    ) -> (result: Result<Globe, LocationQuery>)
        requires
            fits(
                clamped(width_segments, MIN_WIDTH_SEGMENTS) as int,
                clamped(height_segments, MIN_HEIGHT_SEGMENTS) as int,
            ),
            programs.wf(),
            programs.holds(earth_shader),
            programs.holds(atmosphere_shader),
            old(gl).numbers_left() >= 10,
        ensures
            match result {
                Err(query) => {
                    &&& first_unknown_attribute(programs.shader(earth_shader), programs.shader(atmosphere_shader)) == Some(query@)
                    &&& final(gl)@ == old(gl)@
                    &&& final(gl).next_number() == old(gl).next_number()
                },
                Ok(globe) => {
                    &&& first_unknown_attribute(programs.shader(earth_shader), programs.shader(atmosphere_shader)).is_none()
                    &&& globe.wf()
                    &&& globe.radius() == radius
                    &&& globe.mesh().width() == clamped(width_segments, MIN_WIDTH_SEGMENTS)
                    &&& globe.mesh().height() == clamped(height_segments, MIN_HEIGHT_SEGMENTS)
                    &&& globe.is_earth_of(programs, earth_shader, old(gl).next_number())
                    &&& globe.is_atmosphere_of(
                        programs,
                        atmosphere_shader,
                        old(gl).next_number() + earth_numbers(programs.shader(earth_shader)),
                    )
                    &&& final(gl)@ == old(gl)@ + earth_commands(
                        programs.shader(earth_shader),
                        globe.mesh(),
                        radius,
                        old(gl).next_number(),
                    ) + atmosphere_commands(
                        programs.shader(atmosphere_shader),
                        globe.mesh(),
                        radius,
                        old(gl).next_number() + earth_numbers(programs.shader(earth_shader)),
                    )
                    &&& final(gl).next_number() == old(gl).next_number() + earth_numbers(
                        programs.shader(earth_shader),
                    ) + atmosphere_numbers(programs.shader(atmosphere_shader))
                },
            },
    {
        let earth_program = programs.get(earth_shader);
        let atmosphere_program = programs.get(atmosphere_shader);
        if earth_program.get_attrib_location("a_position").is_none() {
            return Err(attribute_question(earth_program, "a_position"));
        }
        if earth_program.get_attrib_location("a_normal").is_none() {
            return Err(attribute_question(earth_program, "a_normal"));
        }
        if earth_program.get_attrib_location("a_uv").is_none() {
            return Err(attribute_question(earth_program, "a_uv"));
        }
        if atmosphere_program.get_attrib_location("a_position").is_none() {
            return Err(attribute_question(atmosphere_program, "a_position"));
        }
        if atmosphere_program.get_attrib_location("a_normal").is_none() {
            return Err(attribute_question(atmosphere_program, "a_normal"));
        }
        let mesh = generate_uv_sphere(width_segments, height_segments);
        let earth = build_earth(gl, programs, earth_shader, earth_program, &mesh, radius);
        let atmosphere = build_atmosphere(gl, programs, atmosphere_shader, atmosphere_program, &mesh, radius);
        let earth_xform = Transform::identity();
        let atmosphere_xform = Transform::scaling(Scalar { bits: ATMOSPHERE_SCALE_BITS });
        Ok(Globe { mesh, radius, earth, atmosphere, earth_xform, atmosphere_xform })
    }

    /// The earth's surface is the one built for the program at `handle`,
    /// numbering from
    /// `next`: it has the attributes that the program has, the indices of
    /// the mesh, and the surface texture, still waiting for its image.
    pub open spec fn is_earth_of(&self, programs: &Programs, handle: ShaderHandle, next: int)
        -> bool {
        let shader = programs.shader(handle);
        &&& self.earth().handle() == handle
        &&& self.earth().vertex_array() == VertexArrayId { number: next as u32 }
        &&& self.earth().attribute_table().names() == bound_names(earth_rows(shader))
        &&& self.earth().attribute_table().values() == bound_slots(earth_rows(shader))
        &&& self.earth().index_count() == self.mesh().index_seq().len()
        &&& self.earth().index_type() == ElementType::UnsignedInt
        &&& self.earth().texture_table().names() == seq![surface_sampler()]
        &&& self.earth().texture_table().values() == seq![
            Texture::holding(
                TextureId { number: (next + earth_numbers(shader) - 1) as u32 },
                LoadState::Loading,
            ),
        ]
    }

    /// The atmosphere is the one built for the program at `handle`,
    /// numbering from `next`:
    /// it has the attributes that the program has and the indices of the
    /// mesh, and no texture.
    pub open spec fn is_atmosphere_of(&self, programs: &Programs, handle: ShaderHandle, next: int)
        -> bool {
        let shader = programs.shader(handle);
        &&& self.atmosphere().handle() == handle
        &&& self.atmosphere().vertex_array() == VertexArrayId { number: next as u32 }
        &&& self.atmosphere().attribute_table().names() == bound_names(atmosphere_rows(shader))
        &&& self.atmosphere().attribute_table().values() == bound_slots(atmosphere_rows(shader))
        &&& self.atmosphere().index_count() == self.mesh().index_seq().len()
        &&& self.atmosphere().index_type() == ElementType::UnsignedInt
        &&& self.atmosphere().texture_table().names() == Seq::<Seq<char>>::empty()
        &&& self.atmosphere().texture_table().values() == Seq::<Texture>::empty()
    }

    /// The radius of the earth's surface.
    pub fn sphere_radius(&self) -> (radius: Scalar)
        ensures
            radius == self.radius(),
    {
        self.radius
    }

    /// The sphere that both parts are drawn from.
    pub fn sphere(&self) -> (mesh: &Mesh)
        ensures
            *mesh == self.mesh(),
    {
        &self.mesh
    }

    /// The earth's surface.
    pub fn surface(&self) -> (earth: &Renderable)
        ensures
            *earth == self.earth(),
    {
        &self.earth
    }

    /// The atmosphere shell.
    pub fn shell(&self) -> (atmosphere: &Renderable)
        ensures
            *atmosphere == self.atmosphere(),
    {
        &self.atmosphere
    }

    /// Takes the news that the image fetched for `texture` has arrived.
    pub fn image_loaded(&mut self, gl: &mut Gl, texture: TextureId)
        requires
            old(self).wf(),
        ensures
            final(self).wf(),
            final(self).mesh() == old(self).mesh(),
            final(self).radius() == old(self).radius(),
            final(self).atmosphere() == old(self).atmosphere(),
            final(self).earth().handle() == old(self).earth().handle(),
            final(self).earth().vertex_array() == old(self).earth().vertex_array(),
            final(self).earth().attribute_table() == old(self).earth().attribute_table(),
            final(self).earth().index_count() == old(self).earth().index_count(),
            final(self).earth().index_type() == old(self).earth().index_type(),
            final(self).earth().texture_table().names() == old(
                self,
            ).earth().texture_table().names(),
            final(gl).next_number() == old(gl).next_number(),
            match crate::renderable::texture_place(
                old(self).earth().texture_table().values(),
                texture,
            ) {
                Some(i) => {
                    &&& final(self).earth().texture_table().values() == old(
                        self,
                    ).earth().texture_table().values().update(
                        i,
                        old(self).earth().texture_table().values()[i].loaded(),
                    )
                    &&& final(gl)@ == old(gl)@ + old(
                        self,
                    ).earth().texture_table().values()[i].arrival_commands()
                },
                None => {
                    &&& final(self).earth().texture_table().values() == old(
                        self,
                    ).earth().texture_table().values()
                    &&& final(gl)@ == old(gl)@
                },
            },
    {
        self.earth.image_loaded(gl, texture);
    }
}

/// The question where `shader` keeps the attribute `name`.
fn attribute_question(shader: &Shader, name: &str) -> (query: LocationQuery)
    ensures
        query@ == attribute_query(*shader, name@),
{
    LocationQuery {
        program: shader.program(),
        kind: LocationKind::Attribute,
        name: name.to_owned(),
    }
}

/// One channel of the vertices of `mesh`, on a sphere of the given radius.
fn sphere_channel(channel: VertexChannel, radius: Scalar, mesh: &Mesh) -> (data: ArrayData)
    ensures
        data@ == sphere_data(channel, radius, *mesh),
{
    ArrayData::Sphere {
        channel,
        radius,
        width_segments: mesh.width_segments(),
        height_segments: mesh.height_segments(),
        vertices: crate::lists::copy_of(mesh.vertices()),
    }
}

/// The renderable of the earth's surface.
#[verifier::rlimit(40)]
fn build_earth(
    gl: &mut Gl,
    programs: &Programs,
    handle: ShaderHandle,
    shader: &Shader,
    mesh: &Mesh,
    radius: Scalar,
) -> (earth: Renderable)
    requires
        programs.holds(handle),
        *shader == programs.shader(handle),
        shader.wf(),
        mesh.wf(),
        shader.attributes().contains_key(position_attribute()),
        shader.attributes().contains_key(normal_attribute()),
        shader.attributes().contains_key(uv_attribute()),
        old(gl).numbers_left() >= 6,
    ensures
        earth.wf(),
        earth.handle() == handle,
        earth.vertex_array() == (VertexArrayId { number: old(gl).next_number() as u32 }),
        earth.attribute_table().names() == bound_names(earth_rows(*shader)),
        earth.attribute_table().values() == bound_slots(earth_rows(*shader)),
        earth.index_count() == mesh.index_seq().len(),
        earth.index_type() == ElementType::UnsignedInt,
        earth.texture_table().names() == seq![surface_sampler()],
        earth.texture_table().values() == seq![
            Texture::holding(
                TextureId { number: (old(gl).next_number() + earth_numbers(*shader) - 1) as u32 },
                LoadState::Loading,
            ),
        ],
        final(gl)@ == old(gl)@ + earth_commands(*shader, *mesh, radius, old(gl).next_number()),
        final(gl).next_number() == old(gl).next_number() + earth_numbers(*shader),
{
    proof {
        lemma_names_differ();
        mesh.lemma_shape();
    }
    let ghost rows = earth_rows(*shader);
    let ghost next = old(gl).next_number();
    let mut earth = Renderable::new(gl, handle);
    proof {
        lemma_position_holds(earth.attribute_table().names(), position_attribute());
        assert(bound_names(rows.take(0)) =~= Seq::<Seq<char>>::empty());
        assert(bound_slots(rows.take(0)) =~= Seq::<u32>::empty());
    }
    let _ = earth.vertex_attribute(
        gl,
        programs,
        "a_position",
        sphere_channel(VertexChannel::Position, radius, mesh),
        3,
    );
    proof {
        lemma_bound_step(rows, 0);
        lemma_bound_fresh(rows, 1, normal_attribute());
        lemma_position_holds(earth.attribute_table().names(), normal_attribute());
        assert(earth.attribute_table().names() =~= bound_names(rows.take(1)));
        assert(earth.attribute_table().values() =~= bound_slots(rows.take(1)));
    }
    let _ = earth.vertex_attribute(
        gl,
        programs,
        "a_normal",
        sphere_channel(VertexChannel::Normal, radius, mesh),
        3,
    );
    proof {
        lemma_bound_step(rows, 1);
        lemma_bound_fresh(rows, 2, uv_attribute());
        lemma_position_holds(earth.attribute_table().names(), uv_attribute());
        assert(earth.attribute_table().names() =~= bound_names(rows.take(2)));
        assert(earth.attribute_table().values() =~= bound_slots(rows.take(2)));
    }
    let _ = earth.vertex_attribute(
        gl,
        programs,
        "a_uv",
        sphere_channel(VertexChannel::TexCoord, radius, mesh),
        2,
    );
    proof {
        lemma_bound_step(rows, 2);
        assert(rows.take(3) =~= rows);
        assert(earth.attribute_table().names() =~= bound_names(rows));
        assert(earth.attribute_table().values() =~= bound_slots(rows));
    }
    earth.index_buffer(
        gl,
        ArrayData::Ints { values: crate::lists::copy_of(mesh.indices()) },
    );
    proof {
        lemma_position_holds(earth.texture_table().names(), surface_sampler());
    }
    earth.texture(gl, "/data/world.jpg", "s_texture");
    proof {
        assert(earth.texture_table().names() =~= seq![surface_sampler()]);
        assert(earth.texture_table().values() =~= seq![
            Texture::holding(
                TextureId { number: (next + earth_numbers(*shader) - 1) as u32 },
                LoadState::Loading,
            ),
        ]);
        assert(gl@ =~= old(gl)@ + earth_commands(*shader, *mesh, radius, next));
    }
    earth
}

/// The renderable of the atmosphere shell.
fn build_atmosphere(
    gl: &mut Gl,
    programs: &Programs,
    handle: ShaderHandle,
    shader: &Shader,
    mesh: &Mesh,
    radius: Scalar,
) -> (atmosphere: Renderable)
    requires
        programs.holds(handle),
        *shader == programs.shader(handle),
        shader.wf(),
        mesh.wf(),
        shader.attributes().contains_key(position_attribute()),
        shader.attributes().contains_key(normal_attribute()),
        old(gl).numbers_left() >= 4,
    ensures
        atmosphere.wf(),
        atmosphere.handle() == handle,
        atmosphere.vertex_array() == (VertexArrayId { number: old(gl).next_number() as u32 }),
        atmosphere.attribute_table().names() == bound_names(atmosphere_rows(*shader)),
        atmosphere.attribute_table().values() == bound_slots(atmosphere_rows(*shader)),
        atmosphere.index_count() == mesh.index_seq().len(),
        atmosphere.index_type() == ElementType::UnsignedInt,
        atmosphere.texture_table().names() == Seq::<Seq<char>>::empty(),
        atmosphere.texture_table().values() == Seq::<Texture>::empty(),
        final(gl)@ == old(gl)@ + atmosphere_commands(
            *shader,
            *mesh,
            radius,
            old(gl).next_number(),
        ),
        final(gl).next_number() == old(gl).next_number() + atmosphere_numbers(*shader),
{
    proof {
        lemma_names_differ();
        mesh.lemma_shape();
    }
    let ghost rows = atmosphere_rows(*shader);
    let ghost next = old(gl).next_number();
    let mut atmosphere = Renderable::new(gl, handle);
    proof {
        lemma_position_holds(atmosphere.attribute_table().names(), position_attribute());
        assert(bound_names(rows.take(0)) =~= Seq::<Seq<char>>::empty());
        assert(bound_slots(rows.take(0)) =~= Seq::<u32>::empty());
    }
    let _ = atmosphere.vertex_attribute(
        gl,
        programs,
        "a_position",
        sphere_channel(VertexChannel::Position, radius, mesh),
        3,
    );
    proof {
        lemma_bound_step(rows, 0);
        lemma_bound_fresh(rows, 1, normal_attribute());
        lemma_position_holds(atmosphere.attribute_table().names(), normal_attribute());
        assert(atmosphere.attribute_table().names() =~= bound_names(rows.take(1)));
        assert(atmosphere.attribute_table().values() =~= bound_slots(rows.take(1)));
    }
    let _ = atmosphere.vertex_attribute(
        gl,
        programs,
        "a_normal",
        sphere_channel(VertexChannel::Normal, radius, mesh),
        3,
    );
    proof {
        lemma_bound_step(rows, 1);
        assert(rows.take(2) =~= rows);
        assert(atmosphere.attribute_table().names() =~= bound_names(rows));
        assert(atmosphere.attribute_table().values() =~= bound_slots(rows));
    }
    atmosphere.index_buffer(
        gl,
        ArrayData::Ints { values: crate::lists::copy_of(mesh.indices()) },
    );
    proof {
        assert(gl@ =~= old(gl)@ + atmosphere_commands(*shader, *mesh, radius, next));
    }
    atmosphere
}

/// Taking one more row adds its name and slot if the program has the
/// attribute, and nothing otherwise.
proof fn lemma_bound_step(rows: Seq<(Seq<char>, Option<u32>)>, n: int)
    requires
        0 <= n < rows.len(),
    ensures
        bound_names(rows.take(n + 1)) == if rows[n].1.is_some() {
            bound_names(rows.take(n)).push(rows[n].0)
        } else {
            bound_names(rows.take(n))
        },
        bound_slots(rows.take(n + 1)) == if rows[n].1.is_some() {
            bound_slots(rows.take(n)).push(rows[n].1.unwrap())
        } else {
            bound_slots(rows.take(n))
        },
{
    assert(rows.take(n + 1).drop_last() =~= rows.take(n));
    assert(rows.take(n + 1).last() == rows[n]);
}

/// A name that differs from the first `n` row names is not among the bound
/// names of those rows.
proof fn lemma_bound_fresh(rows: Seq<(Seq<char>, Option<u32>)>, n: int, name: Seq<char>)
    requires
        0 <= n <= rows.len(),
        forall|k: int| 0 <= k < n ==> (#[trigger] rows[k]).0 != name,
    ensures
        forall|k: int|
            0 <= k < bound_names(rows.take(n)).len() ==> #[trigger] bound_names(rows.take(n))[k]
                != name,
        bound_names(rows.take(n)).len() == bound_slots(rows.take(n)).len(),
    decreases n,
{
    if n > 0 {
        lemma_bound_fresh(rows, n - 1, name);
        lemma_bound_step(rows, n - 1);
    }
}

/// The vertex arrays of a sphere are parallel: positions and normals hold
/// three numbers and texture coordinates two for each of the
/// `(w + 1) * (h + 1)` vertices, and the index array holds
/// `2 * 3 * w * (h - 1)` entries, each of which names a vertex.
pub proof fn lemma_array_lengths(mesh: Mesh, radius: Scalar)
    requires
        mesh.wf(),
    ensures
        sphere_data(VertexChannel::Position, radius, mesh).len() == 3 * vertex_count(
            mesh.width(),
            mesh.height(),
        ),
        sphere_data(VertexChannel::Normal, radius, mesh).len() == 3 * vertex_count(
            mesh.width(),
            mesh.height(),
        ),
        sphere_data(VertexChannel::TexCoord, radius, mesh).len() == 2 * vertex_count(
            mesh.width(),
            mesh.height(),
        ),
        index_data(mesh).len() == index_count(mesh.width(), mesh.height()),
        forall|i: int|
            0 <= i < mesh.index_seq().len() ==> (#[trigger] mesh.index_seq()[i]) < vertex_count(
                mesh.width(),
                mesh.height(),
            ),
{
    mesh.lemma_shape();
}

/// Place of the draw call among the commands that draw a renderable.
pub open spec fn draw_call_place(renderable: Renderable, programs: &Programs) -> int {
    renderable.bind_commands(programs).len() as int + 3
}

/// A globe draws the earth before the atmosphere: the earth's draw call
/// comes first, after its model-view matrix was set from the model
/// transform as given; the atmosphere's draw call comes later, after its
/// model-view matrix was set from the scaling by 1.04 times the model
/// transform.
pub proof fn lemma_earth_before_atmosphere(
    globe: Globe,
    programs: &Programs,
    model: Seq<Factor>,
    view: LookAt,
    projection: Perspective,
)
    requires
        globe.ready(programs),
    ensures
        ({
            let commands = globe.draw_commands(programs, model, view, projection);
            let earth = draw_call_place(globe.earth(), programs);
            let atmosphere = globe.earth().draw_commands(programs, model, view, projection).len()
                + draw_call_place(globe.atmosphere(), programs);
            &&& 2 <= earth < atmosphere < commands.len()
            &&& commands[earth] == CommandView::DrawElements {
                count: globe.earth().index_count(),
                element_type: globe.earth().index_type(),
            }
            &&& commands[earth - 2] == CommandView::UniformMatrix4 {
                uniform: globe.earth().shader(programs).uniform(model_view_uniform()),
                matrix: MatrixView::ModelView { view, model },
            }
            &&& commands[atmosphere] == CommandView::DrawElements {
                count: globe.atmosphere().index_count(),
                element_type: globe.atmosphere().index_type(),
            }
            &&& commands[atmosphere - 2] == CommandView::UniformMatrix4 {
                uniform: globe.atmosphere().shader(programs).uniform(model_view_uniform()),
                matrix: MatrixView::ModelView { view, model: seq![atmosphere_factor()] + model },
            }
        }),
{
    let scaled = seq![atmosphere_factor()] + model;
    let first = globe.earth().draw_commands(programs, model, view, projection);
    let second = globe.atmosphere().draw_commands(programs, scaled, view, projection);
    let earth_matrices = matrix_commands(globe.earth().shader(programs), model, view, projection);
    let atmosphere_matrices = matrix_commands(
        globe.atmosphere().shader(programs),
        scaled,
        view,
        projection,
    );
    let e = draw_call_place(globe.earth(), programs);
    let a = draw_call_place(globe.atmosphere(), programs);
    assert(first[e] == CommandView::DrawElements {
        count: globe.earth().index_count(),
        element_type: globe.earth().index_type(),
    });
    assert(first[e - 2] == earth_matrices[1]);
    assert(second[a] == CommandView::DrawElements {
        count: globe.atmosphere().index_count(),
        element_type: globe.atmosphere().index_type(),
    });
    assert(second[a - 2] == atmosphere_matrices[1]);
    let commands = globe.draw_commands(programs, model, view, projection);
    assert(commands =~= first + second);
    assert(commands[e] == first[e]);
    assert(commands[e - 2] == first[e - 2]);
    assert(commands[first.len() + a] == second[a]);
    assert(commands[first.len() + a - 2] == second[a - 2]);
}

impl Render for Globe {
    open spec fn ready(&self, programs: &Programs) -> bool {
        &&& self.wf()
        &&& self.earth().linked(programs)
        &&& self.atmosphere().linked(programs)
    }

    open spec fn pending(&self, programs: &Programs) -> Option<LocationQueryView> {
        match self.earth().pending(programs) {
            Some(query) => Some(query),
            None => self.atmosphere().pending(programs),
        }
    }

    /// The earth's surface is drawn first, with the model transform as it
    /// is; the atmosphere is drawn after it, with the atmosphere's scaling
    /// to the left of the model transform.
    open spec fn draw_commands(
        &self,
        programs: &Programs,
        model: Seq<Factor>,
        view: LookAt,
        projection: Perspective,
    ) -> Seq<CommandView> {
        self.earth().draw_commands(programs, model, view, projection)
            + self.atmosphere().draw_commands(
            programs,
            self.atmosphere_transform() + model,
            view,
            projection,
        )
    }

    proof fn lemma_draw_restores(
        &self,
        programs: &Programs,
        state: DriverState,
        model: Seq<Factor>,
        view: LookAt,
        projection: Perspective,
    ) {
        let earth = self.earth().draw_commands(programs, model, view, projection);
        let atmosphere = self.atmosphere().draw_commands(
            programs,
            self.atmosphere_transform() + model,
            view,
            projection,
        );
        self.earth().lemma_draw_restores(programs, state, model, view, projection);
        self.atmosphere().lemma_draw_restores(
            programs,
            state.after_all(earth),
            self.atmosphere_transform() + model,
            view,
            projection,
        );
        lemma_after_all_concat(state, earth, atmosphere);
    }

    fn unresolved(&self, programs: &Programs) -> (query: Option<LocationQuery>) {
        match self.earth.unresolved(programs) {
            Some(query) => Some(query),
            None => self.atmosphere.unresolved(programs),
        }
    }

    fn render(
        &self,
        gl: &mut Gl,
        programs: &Programs,
        model_matrix: &Transform,
        camera: &Camera,
    ) -> (result: Result<(), LocationQuery>) {
        match self.unresolved(programs) {
            Some(query) => {
                return Err(query);
            },
            None => {},
        }
        match self.earth.render(gl, programs, model_matrix, camera) {
            Err(query) => {
                return Err(query);
            },
            Ok(done) => {},
        }
        let atm_model_matrix = self.atmosphere_xform.times(model_matrix);
        match self.atmosphere.render(gl, programs, &atm_model_matrix, camera) {
            Err(query) => Err(query),
            Ok(done) => {
                assert(gl@ =~= old(gl)@ + self.draw_commands(
                    programs,
                    model_matrix@,
                    camera.view_transform(),
                    camera.projection_transform(),
                ));
                Ok(())
            },
        }
    }
}

} // verus!
