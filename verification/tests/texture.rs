use webgl_globe::gl::Command;
use webgl_globe::gl::Gl;
use webgl_globe::gl::TextureId;
use webgl_globe::gl::TextureParameter;
use webgl_globe::gl::TextureSetting;
use webgl_globe::texture::LoadState;
use webgl_globe::texture::Texture;

fn placeholder_upload(texture: TextureId) -> Vec<Command> {
    vec![
        Command::CreateTexture { texture },
        Command::BindTexture { texture: Some(texture) },
        Command::TexParameter {
            parameter: TextureParameter::MinFilter,
            setting: TextureSetting::Linear,
        },
        Command::TexParameter {
            parameter: TextureParameter::MagFilter,
            setting: TextureSetting::Linear,
        },
        Command::TexParameter {
            parameter: TextureParameter::WrapS,
            setting: TextureSetting::ClampToEdge,
        },
        Command::TexParameter {
            parameter: TextureParameter::WrapT,
            setting: TextureSetting::ClampToEdge,
        },
        Command::TexImagePixel { red: 0, green: 255, blue: 0, alpha: 255 },
        Command::BindTexture { texture: None },
    ]
}

#[test]
fn a_new_texture_holds_the_placeholder_before_its_image_is_asked_for() {
    let mut gl = Gl::new();
    let texture = Texture::new(&mut gl, "/data/world.jpg");
    let id = TextureId { number: 0 };
    assert_eq!(texture.get_texture(), id);
    assert_eq!(texture.state(), LoadState::Loading);
    let mut expected = placeholder_upload(id);
    expected.push(Command::FetchImage { texture: id, source: "/data/world.jpg".to_string() });
    assert_eq!(gl.take_commands(), expected);
}

#[test]
fn a_new_texture_can_be_drawn_before_any_image_arrives() {
    let mut gl = Gl::new();
    let texture = Texture::new(&mut gl, "slow.png");
    let commands = gl.take_commands();
    let created = commands
        .iter()
        .position(|c| *c == Command::CreateTexture { texture: texture.get_texture() })
        .unwrap();
    let pixel = commands
        .iter()
        .position(|c| matches!(c, Command::TexImagePixel { .. }))
        .unwrap();
    let fetch = commands
        .iter()
        .position(|c| matches!(c, Command::FetchImage { .. }))
        .unwrap();
    assert!(created < pixel);
    assert!(pixel < fetch);
    assert!(!commands.iter().any(|c| matches!(c, Command::TexImageFetched { .. })));
    assert_ne!(texture.state(), LoadState::Ready);
}

#[test]
fn the_image_is_uploaded_when_it_arrives() {
    let mut gl = Gl::new();
    let mut texture = Texture::new(&mut gl, "a.jpg");
    gl.take_commands();
    texture.image_loaded(&mut gl);
    let id = texture.get_texture();
    assert_eq!(texture.state(), LoadState::Ready);
    assert_eq!(
        gl.take_commands(),
        vec![
            Command::BindTexture { texture: Some(id) },
            Command::TexImageFetched { texture: id },
            Command::GenerateMipmap,
            Command::BindTexture { texture: None },
        ]
    );
}

#[test]
fn the_image_is_uploaded_once() {
    let mut gl = Gl::new();
    let mut texture = Texture::new(&mut gl, "a.jpg");
    texture.image_loaded(&mut gl);
    gl.take_commands();
    texture.image_loaded(&mut gl);
    texture.image_loaded(&mut gl);
    assert!(gl.commands().is_empty());
    assert_eq!(texture.state(), LoadState::Ready);
    assert_eq!(texture.get_texture(), TextureId { number: 0 });
}

#[test]
fn textures_are_numbered_as_they_are_created() {
    let mut gl = Gl::new();
    let first = Texture::new(&mut gl, "a.jpg");
    let second = Texture::new(&mut gl, "b.jpg");
    assert_eq!(first.get_texture(), TextureId { number: 0 });
    assert_eq!(second.get_texture(), TextureId { number: 1 });
    assert_eq!(gl.commands().len(), 18);
    assert_eq!(
        gl.commands()[17],
        Command::FetchImage { texture: TextureId { number: 1 }, source: "b.jpg".to_string() }
    );
}
