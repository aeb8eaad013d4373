//! Textures that can be drawn at once and receive their image later.

use crate::gl::Command;
use crate::gl::CommandView;
use crate::gl::Gl;
use crate::gl::TextureId;
use crate::gl::TextureParameter;
use crate::gl::TextureSetting;
use crate::state::lemma_after_all_in_order;
use crate::state::DriverState;
use vstd::prelude::*;

verus! {

/// Red channel of the placeholder pixel.
pub const PLACEHOLDER_RED: u8 = 0;

/// Green channel of the placeholder pixel.
pub const PLACEHOLDER_GREEN: u8 = 255;

/// Blue channel of the placeholder pixel.
pub const PLACEHOLDER_BLUE: u8 = 0;

/// Alpha channel of the placeholder pixel: opaque.
pub const PLACEHOLDER_ALPHA: u8 = 255;

/// What a texture holds on the driver's side.
#[derive(Clone, Copy, Debug, PartialEq, Eq, Structural)]
pub enum LoadState {
    /// One pixel of the placeholder color; no image has been asked for.
    Placeholder,
    /// Still the placeholder pixel; the image has been asked for.
    Loading,
    /// The image, with all its smaller levels.
    Ready,
}

/// A texture of the driver and what it holds.
#[derive(Clone, Copy, Debug, PartialEq, Eq, Structural)]
pub struct Texture {
    texture: TextureId,
    state: LoadState,
}

/// The commands that create a texture, set its filtering and wrapping and
/// fill it with the placeholder pixel.
pub open spec fn placeholder_commands(texture: TextureId) -> Seq<CommandView> {
    seq![
        CommandView::CreateTexture { texture },
        CommandView::BindTexture { texture: Some(texture) },
        CommandView::TexParameter {
            parameter: TextureParameter::MinFilter,
            setting: TextureSetting::Linear,
        },
        CommandView::TexParameter {
            parameter: TextureParameter::MagFilter,
            setting: TextureSetting::Linear,
        },
        CommandView::TexParameter {
            parameter: TextureParameter::WrapS,
            setting: TextureSetting::ClampToEdge,
        },
        CommandView::TexParameter {
            parameter: TextureParameter::WrapT,
            setting: TextureSetting::ClampToEdge,
        },
        CommandView::TexImagePixel {
            red: PLACEHOLDER_RED,
            green: PLACEHOLDER_GREEN,
            blue: PLACEHOLDER_BLUE,
            alpha: PLACEHOLDER_ALPHA,
        },
        CommandView::BindTexture { texture: None },
    ]
}

/// The commands that give a new texture its placeholder and then ask for
/// its image.
pub open spec fn creation_commands(texture: TextureId, source: Seq<char>) -> Seq<CommandView> {
    placeholder_commands(texture).push(CommandView::FetchImage { texture, source })
}

/// The commands that put the fetched image into a texture.
pub open spec fn upload_commands(texture: TextureId) -> Seq<CommandView> {
    seq![
        CommandView::BindTexture { texture: Some(texture) },
        CommandView::TexImageFetched { texture },
        CommandView::GenerateMipmap,
        CommandView::BindTexture { texture: None },
    ]
}

/// What a texture holds after its image has arrived: the image if it was
/// waiting for it, else what it held before.
pub open spec fn after_arrival(state: LoadState) -> LoadState {
    if state == LoadState::Loading {
        LoadState::Ready
    } else {
        state
    }
}

impl Texture {
    /// The driver's texture.
    pub closed spec fn id(&self) -> TextureId {
        self.texture
    }

    /// What the texture holds.
    pub closed spec fn load_state(&self) -> LoadState {
        self.state
    }

    /// The texture with the given number that holds what `state` says.
    pub closed spec fn holding(texture: TextureId, state: LoadState) -> Texture {
        Texture { texture, state }
    }

    /// The texture once its image has arrived.
    pub open spec fn loaded(&self) -> Texture {
        Texture::holding(self.id(), after_arrival(self.load_state()))
    }

    /// The commands recorded when the image of this texture arrives: the
    /// upload if the texture was waiting for it, else none.
    pub open spec fn arrival_commands(&self) -> Seq<CommandView> {
        if self.load_state() == LoadState::Loading {
            upload_commands(self.id())
        } else {
            Seq::<CommandView>::empty()
        }
    }

    /// Creates a texture that can be drawn at once, and asks for its image.
    ///
    /// The placeholder pixel is in place before the image is asked for, so
    /// the texture has something to show however long the image takes, and
    /// also if it never arrives.
    pub fn new(gl: &mut Gl, src: &str) -> (texture: Texture)
        requires
            old(gl).numbers_left() >= 1,
        ensures
            texture == Texture::holding(
                TextureId { number: old(gl).next_number() as u32 },
                LoadState::Loading,
            ),
            texture.id().number == old(gl).next_number(),
            texture.load_state() == LoadState::Loading,
            final(gl).next_number() == old(gl).next_number() + 1,
            final(gl)@ == old(gl)@ + creation_commands(texture.id(), src@),
    {
        let mut texture = Texture::placeholder(gl);
        texture.fetch(gl, src);
        assert(gl@ =~= old(gl)@ + creation_commands(texture.id(), src@));
        texture
    }

    /// Creates a texture that holds the placeholder pixel.
    fn placeholder(gl: &mut Gl) -> (texture: Texture)
        requires
            old(gl).numbers_left() >= 1,
        ensures
            texture.id().number == old(gl).next_number(),
            texture.load_state() == LoadState::Placeholder,
            final(gl).next_number() == old(gl).next_number() + 1,
            final(gl)@ == old(gl)@ + placeholder_commands(texture.id()),
    {
        let texture = gl.create_texture();
        gl.record(Command::BindTexture { texture: Some(texture) });
        gl.record(
            Command::TexParameter {
                parameter: TextureParameter::MinFilter,
                setting: TextureSetting::Linear,
            },
        );
        gl.record(
            Command::TexParameter {
                parameter: TextureParameter::MagFilter,
                setting: TextureSetting::Linear,
            },
        );
        gl.record(
            Command::TexParameter {
                parameter: TextureParameter::WrapS,
                setting: TextureSetting::ClampToEdge,
            },
        );
        gl.record(
            Command::TexParameter {
                parameter: TextureParameter::WrapT,
                setting: TextureSetting::ClampToEdge,
            },
        );
        gl.record(
            Command::TexImagePixel {
                red: PLACEHOLDER_RED,
                green: PLACEHOLDER_GREEN,
                blue: PLACEHOLDER_BLUE,
                alpha: PLACEHOLDER_ALPHA,
            },
        );
        gl.record(Command::BindTexture { texture: None });
        assert(gl@ =~= old(gl)@ + placeholder_commands(texture));
        Texture { texture, state: LoadState::Placeholder }
    }

    /// Asks the host to fetch the image, without waiting for it.
    fn fetch(&mut self, gl: &mut Gl, src: &str)
        requires
            old(self).load_state() == LoadState::Placeholder,
        ensures
            final(self).id() == old(self).id(),
            final(self).load_state() == LoadState::Loading,
            final(gl).next_number() == old(gl).next_number(),
            final(gl)@ == old(gl)@.push(
                CommandView::FetchImage { texture: old(self).id(), source: src@ },
            ),
    {
        gl.record(Command::FetchImage { texture: self.texture, source: src.to_owned() });
        self.state = LoadState::Loading;
    }

    /// The driver's texture.
    pub fn get_texture(&self) -> (texture: TextureId)
        ensures
            texture == self.id(),
    {
        self.texture
    }

    /// What the texture holds.
    pub fn state(&self) -> (state: LoadState)
        ensures
            state == self.load_state(),
    {
        self.state
    }

    /// Takes the news that the image has arrived. A texture that was
    /// waiting for it has the image uploaded and its smaller levels made,
    /// and is ready from then on. Any other texture is left alone, so the
    /// upload happens once however often the news comes.
    pub fn image_loaded(&mut self, gl: &mut Gl)
        ensures
            *final(self) == old(self).loaded(),
            final(self).id() == old(self).id(),
            final(self).load_state() == after_arrival(old(self).load_state()),
            final(gl).next_number() == old(gl).next_number(),
            final(gl)@ == old(gl)@ + old(self).arrival_commands(),
    {
        if self.state == LoadState::Loading {
            gl.record(Command::BindTexture { texture: Some(self.texture) });
            gl.record(Command::TexImageFetched { texture: self.texture });
            gl.record(Command::GenerateMipmap);
            gl.record(Command::BindTexture { texture: None });
            self.state = LoadState::Ready;
            assert(gl@ =~= old(gl)@ + upload_commands(self.texture));
        } else {
            assert(gl@ =~= old(gl)@ + Seq::<CommandView>::empty());
        }
    }
}

/// A state that differs from `before` at most in that the active unit has
/// no texture bound.
pub open spec fn active_unit_emptied(before: DriverState, after: DriverState) -> bool {
    &&& after.program == before.program
    &&& after.vertex_array == before.vertex_array
    &&& after.attribute_arrays == before.attribute_arrays
    &&& after.active_unit == before.active_unit
    &&& after.capabilities == before.capabilities
    &&& after.textured_units == before.textured_units.remove(before.active_unit)
}

/// Creating a texture and uploading its image touch the active texture unit
/// alone, and leave it without a texture. Where nothing was bound before
/// these commands, nothing is bound after them.
pub proof fn lemma_texture_commands_unbind(
    state: DriverState,
    texture: TextureId,
    source: Seq<char>,
)
    ensures
        active_unit_emptied(state, state.after_all(creation_commands(texture, source))),
        active_unit_emptied(state, state.after_all(upload_commands(texture))),
        state.idle() ==> state.after_all(creation_commands(texture, source)).idle(),
        state.idle() ==> state.after_all(upload_commands(texture)).idle(),
{
    reveal_with_fuel(DriverState::after_first, 10);
    lemma_after_all_in_order(state, creation_commands(texture, source));
    lemma_after_all_in_order(state, upload_commands(texture));
    assert(state.textured_units.insert(state.active_unit).remove(state.active_unit)
        =~= state.textured_units.remove(state.active_unit));
    if state.idle() {
        assert(state.textured_units.remove(state.active_unit) =~= Set::<u32>::empty());
    }
}

/// A texture is known by its number and what it holds.
pub proof fn lemma_holding(texture: TextureId, state: LoadState)
    ensures
        Texture::holding(texture, state).id() == texture,
        Texture::holding(texture, state).load_state() == state,
{
}

/// The image of a texture is uploaded at most once: after its arrival has
/// been taken, taking it again changes nothing and records nothing.
pub proof fn lemma_uploaded_once(texture: Texture)
    ensures
        texture.loaded().id() == texture.id(),
        texture.loaded().load_state() == after_arrival(texture.load_state()),
        texture.loaded().loaded() == texture.loaded(),
        texture.loaded().arrival_commands() == Seq::<CommandView>::empty(),
{
}

} // verus!
