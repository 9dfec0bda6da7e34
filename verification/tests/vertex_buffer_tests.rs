use glitter::buffer::{Buffer, STATIC_DRAW};
use glitter::command::GlCommand;
use glitter::context::Context;
use glitter::program::ProgramAttrib;
use glitter::types::{DataType, GLObject, TRIANGLES};
use glitter::vertex_buffer::{
    AttribAddError, AttribBinder, ContextVertexBufferExt, IndexBufferContext, VertexBindError,
    VertexBufferContext,
};
use glitter::vertex_data::{VertexAttribute, VertexAttributeType, VertexBytes, VertexData, VertexDatum};

/// Laid out in 8 bytes: two `i16`, three `u8` and one byte of padding.
#[derive(Clone, Copy)]
struct Vertex {
    position: [i16; 2],
    color: [u8; 3],
}

impl VertexData for Vertex {
    fn attributes() -> Vec<VertexAttribute> {
        vec![
            VertexAttribute {
                ty: <[i16; 2] as VertexDatum>::attrib_type(),
                name: "position".to_string(),
                offset: 0,
                stride: 8,
            },
            VertexAttribute {
                ty: <[u8; 3] as VertexDatum>::attrib_type(),
                name: "color".to_string(),
                offset: 4,
                stride: 8,
            },
        ]
    }

    fn data_bytes(&self) -> Vec<u8> {
        let mut v = Vec::new();
        v.extend_from_slice(&self.position[0].to_ne_bytes());
        v.extend_from_slice(&self.position[1].to_ne_bytes());
        v.extend_from_slice(&self.color);
        v.push(0);
        v
    }
}

fn attrib(i: u32) -> ProgramAttrib {
    ProgramAttrib { gl_index: i }
}

#[test]
fn attrib_binder_add_rejects_duplicates() {
    let mut binder = AttribBinder::new();
    assert!(binder.add("position", attrib(0)).is_ok());
    assert!(binder.add("color", attrib(1)).is_ok());
    match binder.add("position", attrib(5)) {
        Err(AttribAddError::DuplicateAttrib(name)) => assert_eq!(name, "position"),
        Ok(()) => panic!("duplicate accepted"),
    }
}

#[test]
fn attrib_binder_duplicate_add_replaces_location() {
    let mut binder = AttribBinder::new();
    binder.add("position", attrib(0)).unwrap();
    binder.add("color", attrib(1)).unwrap();
    assert!(binder.add("position", attrib(5)).is_err());
    let gl = Context::current_context();
    let cmds = binder.bind::<Vertex, _>(&gl).unwrap();
    assert_eq!(
        cmds[0],
        GlCommand::VertexAttribPointer { index: 5, size: 2, ty: 0x1402, normalized: 0, stride: 8, offset: 0 }
    );
}

#[test]
fn attrib_binder_enable_and_bind_commands() {
    let mut binder = AttribBinder::new();
    binder.add("color", attrib(1)).unwrap();
    binder.add("position", attrib(0)).unwrap();
    let mut gl = Context::current_context();
    let enabled = binder.enable::<Vertex, _>(&mut gl).unwrap();
    assert_eq!(
        enabled,
        vec![
            GlCommand::EnableVertexAttribArray { index: 0 },
            GlCommand::EnableVertexAttribArray { index: 1 },
        ]
    );
    let pointers = binder.bind::<Vertex, _>(&gl).unwrap();
    assert_eq!(
        pointers,
        vec![
            GlCommand::VertexAttribPointer { index: 0, size: 2, ty: 0x1402, normalized: 0, stride: 8, offset: 0 },
            GlCommand::VertexAttribPointer { index: 1, size: 3, ty: 0x1401, normalized: 0, stride: 8, offset: 4 },
        ]
    );
}

#[test]
fn attrib_binder_reports_missing_and_unknown() {
    let mut binder = AttribBinder::new();
    binder.add("position", attrib(0)).unwrap();
    binder.add("normal", attrib(2)).unwrap();
    let gl = Context::current_context();
    let err = binder.bind::<Vertex, _>(&gl).unwrap_err();
    let text = format!("{:?}", err);
    assert_eq!(text, "AttribError { missing_attribs: [\"color\"], unknown_attribs: [\"normal\"] }");
    let mut gl = gl;
    assert!(binder.enable::<Vertex, _>(&mut gl).is_err());
}

#[test]
fn attrib_binder_empty_reports_all_missing() {
    let binder = AttribBinder::new();
    let gl = Context::current_context();
    let err = binder.bind::<Vertex, _>(&gl).unwrap_err();
    assert_eq!(
        format!("{:?}", err),
        "AttribError { missing_attribs: [\"position\", \"color\"], unknown_attribs: [] }"
    );
}

#[test]
fn vertex_bind_error_from_attrib_error() {
    let binder = AttribBinder::new();
    let gl = Context::current_context();
    let err = binder.bind::<Vertex, _>(&gl).unwrap_err();
    match VertexBindError::from(err) {
        VertexBindError::BindingError(_) => {},
        VertexBindError::NoAttributeBindings => panic!("wrong variant"),
    }
}

#[test]
fn vertex_buffer_round_trip() {
    let gl = Context::current_context();
    let mut vbo = gl.new_vertex_buffer::<Vertex>(Buffer::from_raw(4));
    let mut binder = AttribBinder::new();
    binder.add("position", attrib(0)).unwrap();
    binder.add("color", attrib(1)).unwrap();
    vbo.bind_attrib_pointers(binder);
    assert_eq!(vbo.buffer().id(), 4);

    let (mut gl_vbo, gl, cmds) = gl.bind_vertex_buffer(&mut vbo);
    assert_eq!(cmds.len(), 5);
    assert_eq!(cmds[0], GlCommand::BindBuffer { target: 0x8892, buffer: 4 });
    assert_eq!(cmds[1], GlCommand::EnableVertexAttribArray { index: 0 });
    assert_eq!(cmds[2], GlCommand::EnableVertexAttribArray { index: 1 });

    let vertices = [
        Vertex { position: [1, 2], color: [3, 4, 5] },
        Vertex { position: [6, 7], color: [8, 9, 10] },
    ];
    let upload = gl.buffer_vertices(&mut gl_vbo, &vertices, STATIC_DRAW);
    let mut expected = vertices[0].data_bytes();
    expected.extend(vertices[1].data_bytes());
    assert_eq!(std::mem::size_of::<Vertex>(), 8);
    assert_eq!(expected.len(), 16);
    assert_eq!(&expected[4..8], &[3, 4, 5, 0]);
    assert_eq!(&expected[12..16], &[8, 9, 10, 0]);
    assert_eq!(upload, GlCommand::BufferData { target: 0x8892, data: expected, usage: 0x88E4 });
    assert_eq!(gl.draw_arrays_vbo(&gl_vbo, TRIANGLES), GlCommand::DrawArrays { mode: 4, first: 0, count: 2 });
    assert_eq!(
        gl.draw_arrays_range_vbo(&gl_vbo, TRIANGLES, 1, 1),
        GlCommand::DrawArrays { mode: 4, first: 1, count: 1 }
    );
}

#[test]
fn vertex_buffer_count_persists_across_bindings() {
    let gl = Context::current_context();
    let mut vbo = gl.new_vertex_buffer::<Vertex>(Buffer::from_raw(4));
    let mut binder = AttribBinder::new();
    binder.add("position", attrib(0)).unwrap();
    binder.add("color", attrib(1)).unwrap();
    vbo.bind_attrib_pointers(binder);
    {
        let (mut gl_vbo, gl, _) = gl.bind_vertex_buffer(&mut vbo);
        let vertices = [Vertex { position: [0, 0], color: [0, 0, 0] }; 3];
        gl.buffer_vertices(&mut gl_vbo, &vertices, STATIC_DRAW);
    }
    let gl = Context::current_context();
    let (gl_vbo, gl, _) = gl.bind_vertex_buffer(&mut vbo);
    assert_eq!(gl.draw_arrays_vbo(&gl_vbo, TRIANGLES), GlCommand::DrawArrays { mode: 4, first: 0, count: 3 });
}

#[test]
fn draw_with_vertex_and_index_buffers() {
    let gl = Context::current_context();
    let mut vbo = gl.new_vertex_buffer::<Vertex>(Buffer::from_raw(4));
    let mut ibo = gl.new_index_buffer::<u8>(Buffer::from_raw(5));
    let mut binder = AttribBinder::new();
    binder.add("position", attrib(0)).unwrap();
    binder.add("color", attrib(1)).unwrap();
    vbo.bind_attrib_pointers(binder);
    let (gl_vbo, gl, _) = gl.bind_vertex_buffer(&mut vbo);
    let (mut gl_ibo, gl, _) = gl.bind_index_buffer(&mut ibo);
    gl.buffer_indices(&mut gl_ibo, &[0u8, 1, 2, 2, 1, 0], STATIC_DRAW);
    assert_eq!(
        gl.draw_elements_buffered_vbo(&gl_vbo, &gl_ibo, TRIANGLES),
        GlCommand::DrawElements { mode: 4, count: 6, ty: 0x1401, indices: None }
    );
    assert_eq!(
        gl.draw_n_elements_buffered_vbo(&gl_vbo, &gl_ibo, TRIANGLES, 3),
        GlCommand::DrawElements { mode: 4, count: 3, ty: 0x1401, indices: None }
    );
    assert_eq!(
        gl.draw_n_elements_vbo(&gl_vbo, TRIANGLES, 2, &[7u16, 8, 9]),
        GlCommand::DrawElements {
            mode: 4,
            count: 2,
            ty: 0x1403,
            indices: Some([7u16.to_ne_bytes(), 8u16.to_ne_bytes(), 9u16.to_ne_bytes()].concat()),
        }
    );
    let mut gl = gl;
    assert_eq!(
        gl.draw_elements_vbo(&gl_vbo, TRIANGLES, &[1u8, 2]),
        GlCommand::DrawElements { mode: 4, count: 2, ty: 0x1401, indices: Some(vec![1, 2]) }
    );
}

#[test]
fn index_buffer_commands() {
    let gl = Context::current_context();
    let mut ibo = gl.new_index_buffer::<u16>(Buffer::from_raw(9));
    let (mut gl_ibo, gl, bind) = gl.bind_index_buffer(&mut ibo);
    assert_eq!(bind, GlCommand::BindBuffer { target: 0x8893, buffer: 9 });
    let indices: [u16; 3] = [0, 1, 0x0203];
    let upload = gl.buffer_indices(&mut gl_ibo, &indices, STATIC_DRAW);
    let mut expected = Vec::new();
    for i in indices.iter() {
        expected.extend_from_slice(&i.to_ne_bytes());
    }
    assert_eq!(upload, GlCommand::BufferData { target: 0x8893, data: expected, usage: 0x88E4 });
}

#[test]
fn vertex_attribute_types() {
    assert_eq!(
        <[i16; 2] as VertexDatum>::attrib_type(),
        VertexAttributeType { data: DataType::Short, components: 2, normalize: false }
    );
    assert_eq!(
        <u8 as VertexDatum>::attrib_type(),
        VertexAttributeType { data: DataType::UnsignedByte, components: 1, normalize: false }
    );
}

#[test]
fn vertex_bytes_concatenate_each_vertex() {
    let a = Vertex { position: [1, -1], color: [7, 8, 9] };
    let b = Vertex { position: [0x0102, 3], color: [4, 5, 6] };
    assert_eq!(a.vertex_bytes(), a.data_bytes());
    assert_eq!(a.vertex_bytes().len(), std::mem::size_of::<Vertex>());
    let both = [a, b];
    let bytes = both[..].vertex_bytes();
    assert_eq!(bytes.len(), 2 * std::mem::size_of::<Vertex>());
    assert_eq!(&bytes[..8], &a.data_bytes()[..]);
    assert_eq!(&bytes[8..], &b.data_bytes()[..]);
    assert_eq!(&bytes[8..10], &0x0102i16.to_ne_bytes()[..]);
    let none: [Vertex; 0] = [];
    assert!(none[..].vertex_bytes().is_empty());
}
