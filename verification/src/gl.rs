//! The command list through which the core speaks to the graphics driver.
//!
//! A [`Gl`] stands where a graphics context would: the core calls it, and it
//! writes down what was asked. The host takes the commands off the list and
//! carries them out, in order, against the real driver. Objects that the
//! driver creates (shaders, programs, buffers, vertex arrays, textures) are
//! numbered by the `Gl` as their creation is recorded; the host keeps the
//! driver's object under that number.

use crate::geometry::GridVertex;
use crate::scalar::Scalar;
use crate::transform::Matrix;
use crate::transform::MatrixView;
use vstd::prelude::*;

verus! {

/// Number of a shader stage object.
#[derive(Clone, Copy, Debug, PartialEq, Eq, Structural)]
pub struct ShaderId {
    pub number: u32,
}

/// Number of a linked program.
#[derive(Clone, Copy, Debug, PartialEq, Eq, Structural)]
pub struct ProgramId {
    pub number: u32,
}

/// Number of a data buffer.
#[derive(Clone, Copy, Debug, PartialEq, Eq, Structural)]
pub struct BufferId {
    pub number: u32,
}

/// Number of a vertex array object.
#[derive(Clone, Copy, Debug, PartialEq, Eq, Structural)]
pub struct VertexArrayId {
    pub number: u32,
}

/// Number of a texture.
#[derive(Clone, Copy, Debug, PartialEq, Eq, Structural)]
pub struct TextureId {
    pub number: u32,
}

/// Number under which the host keeps a uniform location that the driver
/// reported. These numbers are the host's, not the command list's.
#[derive(Clone, Copy, Debug, PartialEq, Eq, Structural)]
pub struct UniformId {
    pub number: u32,
}

/// The two stages of a shader program.
#[derive(Clone, Copy, Debug, PartialEq, Eq, Structural)]
pub enum StageKind {
    Vertex,
    Fragment,
}

/// Binding points of buffers.
#[derive(Clone, Copy, Debug, PartialEq, Eq, Structural)]
pub enum BufferTarget {
    /// Vertex attribute data.
    Array,
    /// Triangle indices.
    ElementArray,
}

/// Types of the elements of an array handed to the driver.
#[derive(Clone, Copy, Debug, PartialEq, Eq, Structural)]
pub enum ElementType {
    Float,
    UnsignedByte,
    UnsignedShort,
    UnsignedInt,
}

/// Switches of the driver's global state.
#[derive(Clone, Copy, Debug, PartialEq, Eq, Structural)]
pub enum Capability {
    Blend,
    DepthTest,
    CullFace,
}

/// Parameters of the bound two-dimensional texture.
#[derive(Clone, Copy, Debug, PartialEq, Eq, Structural)]
pub enum TextureParameter {
    MinFilter,
    MagFilter,
    WrapS,
    WrapT,
}

/// Values of texture parameters.
#[derive(Clone, Copy, Debug, PartialEq, Eq, Structural)]
pub enum TextureSetting {
    Linear,
    ClampToEdge,
}

/// Factors of the blend equation.
#[derive(Clone, Copy, Debug, PartialEq, Eq, Structural)]
pub enum BlendFactor {
    SourceAlpha,
    OneMinusSourceAlpha,
}

/// Faces of a triangle.
#[derive(Clone, Copy, Debug, PartialEq, Eq, Structural)]
pub enum Face {
    Back,
}

/// What a sphere's vertex array holds for each vertex.
#[derive(Clone, Copy, Debug, PartialEq, Eq, Structural)]
pub enum VertexChannel {
    /// Three numbers: the point on the sphere.
    Position,
    /// Three numbers: the unit normal, which is the direction of the point.
    Normal,
    /// Two numbers: the texture coordinate.
    TexCoord,
}

/// An array of numbers for a buffer.
#[derive(Clone, Debug, PartialEq, Eq)]
pub enum ArrayData {
    /// One channel of a sphere of the given radius: for each grid vertex,
    /// in order, the numbers that the channel holds for it.
    Sphere {
        channel: VertexChannel,
        radius: Scalar,
        width_segments: u32,
        height_segments: u32,
        vertices: Vec<GridVertex>,
    },
    /// Single-precision numbers.
    Floats { values: Vec<Scalar> },
    /// Unsigned 8-bit numbers.
    Bytes { values: Vec<u8> },
    /// Unsigned 16-bit numbers.
    Shorts { values: Vec<u16> },
    /// Unsigned 32-bit numbers.
    Ints { values: Vec<u32> },
}

/// What an [`ArrayData`] holds.
pub enum ArrayDataView {
    Sphere {
        channel: VertexChannel,
        radius: Scalar,
        width_segments: u32,
        height_segments: u32,
        vertices: Seq<GridVertex>,
    },
    Floats { values: Seq<Scalar> },
    Bytes { values: Seq<u8> },
    Shorts { values: Seq<u16> },
    Ints { values: Seq<u32> },
}

impl View for ArrayData {
    type V = ArrayDataView;

    open spec fn view(&self) -> ArrayDataView {
        match *self {
            ArrayData::Sphere { channel, radius, width_segments, height_segments, vertices } =>
                ArrayDataView::Sphere {
                    channel,
                    radius,
                    width_segments,
                    height_segments,
                    vertices: vertices@,
                },
            ArrayData::Floats { values } => ArrayDataView::Floats { values: values@ },
            ArrayData::Bytes { values } => ArrayDataView::Bytes { values: values@ },
            ArrayData::Shorts { values } => ArrayDataView::Shorts { values: values@ },
            ArrayData::Ints { values } => ArrayDataView::Ints { values: values@ },
        }
    }
}

/// Numbers that a channel holds for each vertex.
pub open spec fn channel_components(channel: VertexChannel) -> int {
    match channel {
        VertexChannel::Position => 3,
        VertexChannel::Normal => 3,
        VertexChannel::TexCoord => 2,
    }
}

impl ArrayDataView {
    /// Type of the elements.
    pub open spec fn element_type(self) -> ElementType {
        match self {
            ArrayDataView::Sphere { .. } => ElementType::Float,
            ArrayDataView::Floats { .. } => ElementType::Float,
            ArrayDataView::Bytes { .. } => ElementType::UnsignedByte,
            ArrayDataView::Shorts { .. } => ElementType::UnsignedShort,
            ArrayDataView::Ints { .. } => ElementType::UnsignedInt,
        }
    }

    /// Number of elements.
    pub open spec fn len(self) -> int {
        match self {
            ArrayDataView::Sphere { channel, vertices, .. } => channel_components(channel)
                * vertices.len(),
            ArrayDataView::Floats { values } => values.len() as int,
            ArrayDataView::Bytes { values } => values.len() as int,
            ArrayDataView::Shorts { values } => values.len() as int,
            ArrayDataView::Ints { values } => values.len() as int,
        }
    }
}

impl ArrayData {
    /// Type of the elements.
    pub fn element_type(&self) -> (t: ElementType)
        ensures
            t == self@.element_type(),
    {
        match self {
            ArrayData::Sphere { .. } => ElementType::Float,
            ArrayData::Floats { .. } => ElementType::Float,
            ArrayData::Bytes { .. } => ElementType::UnsignedByte,
            ArrayData::Shorts { .. } => ElementType::UnsignedShort,
            ArrayData::Ints { .. } => ElementType::UnsignedInt,
        }
    }

    /// Number of elements, if it fits in 32 bits.
    pub fn len(&self) -> (n: Option<u32>)
        ensures
            match n {
                Some(n) => n == self@.len(),
                None => self@.len() > u32::MAX,
            },
    {
        let count: u64 = match self {
            ArrayData::Sphere { channel, vertices, .. } => {
                let per_vertex: u64 = match channel {
                    VertexChannel::Position => 3,
                    VertexChannel::Normal => 3,
                    VertexChannel::TexCoord => 2,
                };
                if vertices.len() > u32::MAX as usize {
                    assert(self@.len() > u32::MAX) by (nonlinear_arith)
                        requires
                            self@.len() == per_vertex * vertices@.len(),
                            per_vertex >= 2,
                            vertices@.len() > u32::MAX,
                    ;
                    return None;
                }
                assert(per_vertex * vertices@.len() <= 3 * u32::MAX) by (nonlinear_arith)
                    requires
                        0 <= per_vertex <= 3,
                        vertices@.len() <= u32::MAX,
                ;
                per_vertex * (vertices.len() as u64)
            },
            ArrayData::Floats { values } => values.len() as u64,
            ArrayData::Bytes { values } => values.len() as u64,
            ArrayData::Shorts { values } => values.len() as u64,
            ArrayData::Ints { values } => values.len() as u64,
        };
        if count > u32::MAX as u64 {
            None
        } else {
            Some(count as u32)
        }
    }
}

/// One request to the graphics driver, or to the host beside it.
///
/// The two-dimensional texture target, static buffer usage, unnormalized
/// tightly packed attributes, triangle lists drawn from the first index and
/// mip level 0 are the only forms the core uses, so commands do not spell
/// them out.
#[derive(Clone, Debug, PartialEq, Eq)]
pub enum Command {
    /// Create a shader stage object under this number.
    CreateShader { shader: ShaderId, kind: StageKind },
    /// Give the stage its source text.
    ShaderSource { shader: ShaderId, source: String },
    /// Compile the stage.
    CompileShader { shader: ShaderId },
    /// Create a program object under this number.
    CreateProgram { program: ProgramId },
    /// Attach a compiled stage to a program.
    AttachShader { program: ProgramId, shader: ShaderId },
    /// Link the program.
    LinkProgram { program: ProgramId },
    /// Make the program current, or none.
    UseProgram { program: Option<ProgramId> },
    /// Create a vertex array object under this number.
    CreateVertexArray { vertex_array: VertexArrayId },
    /// Bind the vertex array, or none.
    BindVertexArray { vertex_array: Option<VertexArrayId> },
    /// Create a buffer under this number.
    CreateBuffer { buffer: BufferId },
    /// Bind the buffer to the target, or none.
    BindBuffer { target: BufferTarget, buffer: Option<BufferId> },
    /// Fill the buffer bound to the target, for drawing many times.
    BufferData { target: BufferTarget, data: ArrayData },
    /// Describe the attribute at `location`: `size` elements of the given
    /// type for each vertex, read from the bound array buffer.
    VertexAttribPointer { location: u32, size: i32, element_type: ElementType },
    /// Switch the attribute array at `location` on.
    EnableVertexAttribArray { location: u32 },
    /// Switch the attribute array at `location` off.
    DisableVertexAttribArray { location: u32 },
    /// Create a texture under this number.
    CreateTexture { texture: TextureId },
    /// Make texture unit `unit` the active one.
    ActiveTexture { unit: u32 },
    /// Bind the texture to the active unit, or none.
    BindTexture { texture: Option<TextureId> },
    /// Set a parameter of the bound texture.
    TexParameter { parameter: TextureParameter, setting: TextureSetting },
    /// Fill the bound texture with one pixel of this color, 8 bits a channel.
    TexImagePixel { red: u8, green: u8, blue: u8, alpha: u8 },
    /// Fill the bound texture with the image that was fetched for `texture`.
    TexImageFetched { texture: TextureId },
    /// Derive all smaller levels of the bound texture.
    GenerateMipmap,
    /// Start fetching the image at `source` for `texture`, without waiting.
    /// When it has arrived the host reports so.
    FetchImage { texture: TextureId, source: String },
    /// Set an integer uniform of the current program. Without a location
    /// the driver does nothing.
    Uniform1i { uniform: Option<UniformId>, value: i32 },
    /// Set a 4x4 matrix uniform of the current program.
    UniformMatrix4 { uniform: Option<UniformId>, matrix: Matrix },
    /// Set a 3x3 matrix uniform of the current program.
    UniformMatrix3 { uniform: Option<UniformId>, matrix: Matrix },
    /// Draw `count` indices of the bound element array as triangles.
    DrawElements { count: u32, element_type: ElementType },
    /// Set the color that `Clear` writes, 8 bits a channel.
    ClearColor { red: u8, green: u8, blue: u8, alpha: u8 },
    /// Clear the color buffer and the depth buffer.
    Clear,
    /// Draw to the rectangle from the origin to (`width`, `height`).
    Viewport { width: u32, height: u32 },
    /// Switch a capability on.
    Enable { capability: Capability },
    /// Switch a capability off.
    Disable { capability: Capability },
    /// Set the blend factors.
    BlendFunc { source: BlendFactor, destination: BlendFactor },
    /// Choose the face that culling removes.
    CullFace { face: Face },
}

/// What a [`Command`] asks for.
pub enum CommandView {
    CreateShader { shader: ShaderId, kind: StageKind },
    ShaderSource { shader: ShaderId, source: Seq<char> },
    CompileShader { shader: ShaderId },
    CreateProgram { program: ProgramId },
    AttachShader { program: ProgramId, shader: ShaderId },
    LinkProgram { program: ProgramId },
    UseProgram { program: Option<ProgramId> },
    CreateVertexArray { vertex_array: VertexArrayId },
    BindVertexArray { vertex_array: Option<VertexArrayId> },
    CreateBuffer { buffer: BufferId },
    BindBuffer { target: BufferTarget, buffer: Option<BufferId> },
    BufferData { target: BufferTarget, data: ArrayDataView },
    VertexAttribPointer { location: u32, size: i32, element_type: ElementType },
    EnableVertexAttribArray { location: u32 },
    DisableVertexAttribArray { location: u32 },
    CreateTexture { texture: TextureId },
    ActiveTexture { unit: u32 },
    BindTexture { texture: Option<TextureId> },
    TexParameter { parameter: TextureParameter, setting: TextureSetting },
    TexImagePixel { red: u8, green: u8, blue: u8, alpha: u8 },
    TexImageFetched { texture: TextureId },
    GenerateMipmap,
    FetchImage { texture: TextureId, source: Seq<char> },
    Uniform1i { uniform: Option<UniformId>, value: i32 },
    UniformMatrix4 { uniform: Option<UniformId>, matrix: MatrixView },
    UniformMatrix3 { uniform: Option<UniformId>, matrix: MatrixView },
    DrawElements { count: u32, element_type: ElementType },
    ClearColor { red: u8, green: u8, blue: u8, alpha: u8 },
    Clear,
    Viewport { width: u32, height: u32 },
    Enable { capability: Capability },
    Disable { capability: Capability },
    BlendFunc { source: BlendFactor, destination: BlendFactor },
    CullFace { face: Face },
}

impl View for Command {
    type V = CommandView;

    open spec fn view(&self) -> CommandView {
        match *self {
            Command::CreateShader { shader, kind } => CommandView::CreateShader { shader, kind },
            Command::ShaderSource { shader, source } => CommandView::ShaderSource {
                shader,
                source: source@,
            },
            Command::CompileShader { shader } => CommandView::CompileShader { shader },
            Command::CreateProgram { program } => CommandView::CreateProgram { program },
            Command::AttachShader { program, shader } => CommandView::AttachShader {
                program,
                shader,
            },
            Command::LinkProgram { program } => CommandView::LinkProgram { program },
            Command::UseProgram { program } => CommandView::UseProgram { program },
            Command::CreateVertexArray { vertex_array } => CommandView::CreateVertexArray {
                vertex_array,
            },
            Command::BindVertexArray { vertex_array } => CommandView::BindVertexArray {
                vertex_array,
            },
            Command::CreateBuffer { buffer } => CommandView::CreateBuffer { buffer },
            Command::BindBuffer { target, buffer } => CommandView::BindBuffer { target, buffer },
            Command::BufferData { target, data } => CommandView::BufferData {
                target,
                data: data@,
            },
            Command::VertexAttribPointer { location, size, element_type } =>
                CommandView::VertexAttribPointer { location, size, element_type },
            Command::EnableVertexAttribArray { location } => CommandView::EnableVertexAttribArray {
                location,
            },
            Command::DisableVertexAttribArray { location } =>
                CommandView::DisableVertexAttribArray { location },
            Command::CreateTexture { texture } => CommandView::CreateTexture { texture },
            Command::ActiveTexture { unit } => CommandView::ActiveTexture { unit },
            Command::BindTexture { texture } => CommandView::BindTexture { texture },
            Command::TexParameter { parameter, setting } => CommandView::TexParameter {
                parameter,
                setting,
            },
            Command::TexImagePixel { red, green, blue, alpha } => CommandView::TexImagePixel {
                red,
                green,
                blue,
                alpha,
            },
            Command::TexImageFetched { texture } => CommandView::TexImageFetched { texture },
            Command::GenerateMipmap => CommandView::GenerateMipmap,
            Command::FetchImage { texture, source } => CommandView::FetchImage {
                texture,
                source: source@,
            },
            Command::Uniform1i { uniform, value } => CommandView::Uniform1i { uniform, value },
            Command::UniformMatrix4 { uniform, matrix } => CommandView::UniformMatrix4 {
                uniform,
                matrix: matrix@,
            },
            Command::UniformMatrix3 { uniform, matrix } => CommandView::UniformMatrix3 {
                uniform,
                matrix: matrix@,
            },
            Command::DrawElements { count, element_type } => CommandView::DrawElements {
                count,
                element_type,
            },
            Command::ClearColor { red, green, blue, alpha } => CommandView::ClearColor {
                red,
                green,
                blue,
                alpha,
            },
            Command::Clear => CommandView::Clear,
            Command::Viewport { width, height } => CommandView::Viewport { width, height },
            Command::Enable { capability } => CommandView::Enable { capability },
            Command::Disable { capability } => CommandView::Disable { capability },
            Command::BlendFunc { source, destination } => CommandView::BlendFunc {
                source,
                destination,
            },
            Command::CullFace { face } => CommandView::CullFace { face },
        }
    }
}

/// What a list of commands asks for, command by command.
pub open spec fn views(commands: Seq<Command>) -> Seq<CommandView> {
    Seq::new(commands.len(), |i: int| commands[i]@)
}

/// The command list, and the counter that numbers created objects.
#[derive(Debug)]
pub struct Gl {
    commands: Vec<Command>,
    next_number: u32,
}

impl View for Gl {
    type V = Seq<CommandView>;

    /// The commands recorded and not yet taken, oldest first.
    closed spec fn view(&self) -> Seq<CommandView> {
        views(self.commands@)
    }
}

impl Gl {
    /// The number that the next created object gets.
    pub closed spec fn next_number(&self) -> int {
        self.next_number as int
    }

    /// How many more objects can be numbered.
    pub open spec fn numbers_left(&self) -> int {
        u32::MAX - self.next_number()
    }

    /// The next number is one that an object can bear, or one past the
    /// last such number.
    pub proof fn lemma_next_number_range(&self)
        ensures
            0 <= self.next_number() <= u32::MAX,
            0 <= self.numbers_left() <= u32::MAX,
    {
    }

    /// An empty command list that starts numbering at 0.
    pub fn new() -> (gl: Gl)
        ensures
            gl@ == Seq::<CommandView>::empty(),
            gl.next_number() == 0,
    {
        let gl = Gl { commands: Vec::new(), next_number: 0 };
        assert(gl@ =~= Seq::<CommandView>::empty());
        gl
    }

    /// How many more objects can be numbered.
    pub fn remaining_numbers(&self) -> (n: u32)
        ensures
            n == self.numbers_left(),
    {
        u32::MAX - self.next_number
    }

    /// Appends a command.
    pub fn record(&mut self, command: Command)
        ensures
            final(self)@ == old(self)@.push(command@),
            final(self).next_number() == old(self).next_number(),
    {
        self.commands.push(command);
        assert(self@ =~= old(self)@.push(command@));
    }

    /// The commands recorded and not yet taken.
    pub fn commands(&self) -> (commands: &Vec<Command>)
        ensures
            views(commands@) == self@,
    {
        &self.commands
    }

    /// Hands the recorded commands to the host and starts an empty list.
    /// Numbering goes on where it was.
    pub fn take_commands(&mut self) -> (commands: Vec<Command>)
        ensures
            views(commands@) == old(self)@,
            final(self)@ == Seq::<CommandView>::empty(),
            final(self).next_number() == old(self).next_number(),
    {
        let mut commands: Vec<Command> = Vec::new();
        core::mem::swap(&mut self.commands, &mut commands);
        assert(self@ =~= Seq::<CommandView>::empty());
        commands
    }

    /// Takes the next number.
    fn number(&mut self) -> (n: u32)
        requires
            old(self).numbers_left() >= 1,
        ensures
            n == old(self).next_number(),
            final(self).next_number() == old(self).next_number() + 1,
            final(self)@ == old(self)@,
    {
        let n = self.next_number;
        self.next_number = n + 1;
        n
    }

    /// Records the creation of a shader stage and returns its number.
    pub fn create_shader(&mut self, kind: StageKind) -> (shader: ShaderId)
        requires
            old(self).numbers_left() >= 1,
        ensures
            shader.number == old(self).next_number(),
            final(self).next_number() == old(self).next_number() + 1,
            final(self)@ == old(self)@.push(CommandView::CreateShader { shader, kind }),
    {
        let shader = ShaderId { number: self.number() };
        self.record(Command::CreateShader { shader, kind });
        shader
    }

    /// Records the creation of a program and returns its number.
    pub fn create_program(&mut self) -> (program: ProgramId)
        requires
            old(self).numbers_left() >= 1,
        ensures
            program.number == old(self).next_number(),
            final(self).next_number() == old(self).next_number() + 1,
            final(self)@ == old(self)@.push(CommandView::CreateProgram { program }),
    {
        let program = ProgramId { number: self.number() };
        self.record(Command::CreateProgram { program });
        program
    }

    /// Records the creation of a buffer and returns its number.
    pub fn create_buffer(&mut self) -> (buffer: BufferId)
        requires
            old(self).numbers_left() >= 1,
        ensures
            buffer.number == old(self).next_number(),
            final(self).next_number() == old(self).next_number() + 1,
            final(self)@ == old(self)@.push(CommandView::CreateBuffer { buffer }),
    {
        let buffer = BufferId { number: self.number() };
        self.record(Command::CreateBuffer { buffer });
        buffer
    }

    /// Records the creation of a vertex array object and returns its number.
    pub fn create_vertex_array(&mut self) -> (vertex_array: VertexArrayId)
        requires
            old(self).numbers_left() >= 1,
        ensures
            vertex_array.number == old(self).next_number(),
            final(self).next_number() == old(self).next_number() + 1,
            final(self)@ == old(self)@.push(CommandView::CreateVertexArray { vertex_array }),
    {
        let vertex_array = VertexArrayId { number: self.number() };
        self.record(Command::CreateVertexArray { vertex_array });
        vertex_array
    }

    /// Records the creation of a texture and returns its number.
    pub fn create_texture(&mut self) -> (texture: TextureId)
        requires
            old(self).numbers_left() >= 1,
        ensures
            texture.number == old(self).next_number(),
            final(self).next_number() == old(self).next_number() + 1,
            final(self)@ == old(self)@.push(CommandView::CreateTexture { texture }),
    {
        let texture = TextureId { number: self.number() };
        self.record(Command::CreateTexture { texture });
        texture
    }
}

} // verus!
