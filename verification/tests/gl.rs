use webgl_globe::codes::data_type;
use webgl_globe::codes::texture_unit;
use webgl_globe::geometry::GridVertex;
use webgl_globe::geometry::PoleOffset;
use webgl_globe::gl::ArrayData;
use webgl_globe::gl::BufferId;
use webgl_globe::gl::Command;
use webgl_globe::gl::ElementType;
use webgl_globe::gl::Gl;
use webgl_globe::gl::ProgramId;
use webgl_globe::gl::ShaderId;
use webgl_globe::gl::StageKind;
use webgl_globe::gl::TextureId;
use webgl_globe::gl::VertexArrayId;
use webgl_globe::gl::VertexChannel;
use webgl_globe::names::NameTable;
use webgl_globe::scalar::Scalar;

#[test]
fn element_types_have_the_codes_of_the_driver() {
    assert_eq!(data_type(ElementType::Float), 0x1406);
    assert_eq!(data_type(ElementType::UnsignedByte), 0x1401);
    assert_eq!(data_type(ElementType::UnsignedShort), 0x1403);
    assert_eq!(data_type(ElementType::UnsignedInt), 0x1405);
}

#[test]
fn texture_units_are_counted_from_the_first() {
    assert_eq!(texture_unit(0), Some(0x84C0));
    assert_eq!(texture_unit(1), Some(0x84C1));
    assert_eq!(texture_unit(31), Some(0x84DF));
    assert_eq!(texture_unit(u32::MAX - 0x84C0), Some(u32::MAX));
    assert_eq!(texture_unit(u32::MAX - 0x84C0 + 1), None);
    assert_eq!(texture_unit(u32::MAX), None);
}

#[test]
fn created_objects_are_numbered_in_turn() {
    let mut gl = Gl::new();
    assert_eq!(gl.remaining_numbers(), u32::MAX);
    assert_eq!(gl.create_shader(StageKind::Fragment), ShaderId { number: 0 });
    assert_eq!(gl.create_program(), ProgramId { number: 1 });
    assert_eq!(gl.create_buffer(), BufferId { number: 2 });
    assert_eq!(gl.create_vertex_array(), VertexArrayId { number: 3 });
    assert_eq!(gl.create_texture(), TextureId { number: 4 });
    assert_eq!(gl.remaining_numbers(), u32::MAX - 5);
    assert_eq!(
        gl.commands(),
        &vec![
            Command::CreateShader { shader: ShaderId { number: 0 }, kind: StageKind::Fragment },
            Command::CreateProgram { program: ProgramId { number: 1 } },
            Command::CreateBuffer { buffer: BufferId { number: 2 } },
            Command::CreateVertexArray { vertex_array: VertexArrayId { number: 3 } },
            Command::CreateTexture { texture: TextureId { number: 4 } },
        ]
    );
}

#[test]
fn taking_the_commands_empties_the_list_and_keeps_the_count() {
    let mut gl = Gl::new();
    gl.create_buffer();
    gl.record(Command::GenerateMipmap);
    let taken = gl.take_commands();
    assert_eq!(
        taken,
        vec![Command::CreateBuffer { buffer: BufferId { number: 0 } }, Command::GenerateMipmap]
    );
    assert!(gl.commands().is_empty());
    assert!(gl.take_commands().is_empty());
    assert_eq!(gl.create_buffer(), BufferId { number: 1 });
}

#[test]
fn arrays_know_their_type_and_length() {
    let vertex = GridVertex { column: 0, row: 0, pole_offset: PoleOffset::Forward };
    let sphere = |channel: VertexChannel| ArrayData::Sphere {
        channel,
        radius: Scalar::from_bits(0),
        width_segments: 3,
        height_segments: 2,
        vertices: vec![vertex; 12],
    };
    assert_eq!(sphere(VertexChannel::Position).len(), Some(36));
    assert_eq!(sphere(VertexChannel::Normal).len(), Some(36));
    assert_eq!(sphere(VertexChannel::TexCoord).len(), Some(24));
    assert_eq!(sphere(VertexChannel::TexCoord).element_type(), ElementType::Float);
    let floats = ArrayData::Floats { values: vec![Scalar::from_bits(0); 5] };
    assert_eq!(floats.len(), Some(5));
    assert_eq!(floats.element_type(), ElementType::Float);
    let bytes = ArrayData::Bytes { values: vec![1, 2, 3] };
    assert_eq!(bytes.len(), Some(3));
    assert_eq!(bytes.element_type(), ElementType::UnsignedByte);
    let shorts = ArrayData::Shorts { values: vec![] };
    assert_eq!(shorts.len(), Some(0));
    assert_eq!(shorts.element_type(), ElementType::UnsignedShort);
    let ints = ArrayData::Ints { values: vec![9; 7] };
    assert_eq!(ints.len(), Some(7));
    assert_eq!(ints.element_type(), ElementType::UnsignedInt);
}

#[test]
fn a_table_keeps_names_in_the_order_of_arrival() {
    let mut table: NameTable<u32> = NameTable::new();
    assert_eq!(table.len(), 0);
    table.insert("b".to_string(), 1);
    table.insert("a".to_string(), 2);
    table.insert("c".to_string(), 3);
    assert_eq!(table.len(), 3);
    assert_eq!(table.name(0), "b");
    assert_eq!(table.name(1), "a");
    assert_eq!(table.name(2), "c");
    assert_eq!(table.find(&"a".to_string()), Some(1));
    assert_eq!(table.find(&"d".to_string()), None);
    table.insert("b".to_string(), 9);
    assert_eq!(table.len(), 3);
    assert_eq!(table.name(0), "b");
    assert_eq!(*table.value(0), 9);
    table.replace(2, 30);
    assert_eq!(*table.value(2), 30);
    assert_eq!(*table.value(1), 2);
}
