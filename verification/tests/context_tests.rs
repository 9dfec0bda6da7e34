use glitter::command::GlCommand;
use glitter::context::{Context, ContextExt};
use glitter::context::buffer_context::{ArrayBufferContext, ContextBufferExt, ElementArrayBufferContext};
use glitter::buffer::{Buffer, BufferDataUsage, DYNAMIC_DRAW, STREAM_DRAW};
use glitter::program::ProgramAttrib;
use glitter::types::{DataType, GLObject, Viewport, BLEND, LINES, TRIANGLES};

#[test]
fn enable_disable_viewport_commands() {
    let mut gl = Context::current_context();
    assert_eq!(gl.enable(BLEND), GlCommand::Enable { cap: 0x0BE2 });
    assert_eq!(gl.disable(BLEND), GlCommand::Disable { cap: 0x0BE2 });
    assert_eq!(
        gl.enable_vertex_attrib_array(ProgramAttrib { gl_index: 3 }),
        GlCommand::EnableVertexAttribArray { index: 3 }
    );
    assert_eq!(
        gl.viewport(Viewport::new(0, 0, 800, 600)),
        GlCommand::Viewport { x: 0, y: 0, width: 800, height: 600 }
    );
}

#[test]
fn buffer_binding_and_data_commands() {
    let gl = Context::current_context();
    let mut buffer = Buffer::from_raw(12);
    let (mut gl_buffer, gl, bind) = gl.bind_array_buffer(&mut buffer);
    assert_eq!(bind, GlCommand::BindBuffer { target: 0x8892, buffer: 12 });
    assert_eq!(
        gl.buffer_bytes(&mut gl_buffer, &[1, 2, 3], STREAM_DRAW),
        GlCommand::BufferData { target: 0x8892, data: vec![1, 2, 3], usage: 0x88E0 }
    );
    assert_eq!(
        gl.vertex_attrib_pointer(ProgramAttrib { gl_index: 1 }, 3, DataType::Float, true, 12, 4),
        GlCommand::VertexAttribPointer { index: 1, size: 3, ty: 0x1406, normalized: 1, stride: 12, offset: 4 }
    );
    assert_eq!(
        gl.draw_arrays_range(&gl_buffer, LINES, 2, 6),
        GlCommand::DrawArrays { mode: 1, first: 2, count: 6 }
    );
    assert_eq!(
        gl.draw_elements(&gl_buffer, TRIANGLES, &[0u8, 1, 2]),
        GlCommand::DrawElements { mode: 4, count: 3, ty: 0x1401, indices: Some(vec![0, 1, 2]) }
    );
    let mut ebuffer = Buffer::from_raw(13);
    let (mut gl_ebuffer, gl, ebind) = gl.bind_element_array_buffer(&mut ebuffer);
    assert_eq!(ebind, GlCommand::BindBuffer { target: 0x8893, buffer: 13 });
    assert_eq!(
        gl.buffer_bytes(&mut gl_ebuffer, &[], DYNAMIC_DRAW),
        GlCommand::BufferData { target: 0x8893, data: vec![], usage: 0x88E8 }
    );
}

#[test]
fn buffer_usage_values() {
    assert_eq!(BufferDataUsage::from_gl(0x88E4), Ok(BufferDataUsage::StaticDraw));
    assert_eq!(BufferDataUsage::from_gl(0x88E5), Err(()));
    assert_eq!(Buffer::from_raw(5).delete(), GlCommand::DeleteBuffer { buffer: 5 });
}

#[test]
fn context_swap_restores() {
    let gl = Context::current_context();
    let (buffers, gl) = gl.swap_buffers(());
    let (unit, gl) = gl.swap_tex_units(());
    let (_, gl) = gl.swap_buffers(buffers);
    let (_, gl): ((), Context) = gl.swap_tex_units(unit);
    let mut gl = gl;
    assert_eq!(gl.enable(BLEND), GlCommand::Enable { cap: 0x0BE2 });
}

#[test]
fn borrowed_context_binds_and_stays_usable() {
    let mut gl = Context::current_context();
    let mut buffer = Buffer::from_raw(21);
    {
        let (mut gl_buffer, rest, bind) = (&mut gl).bind_array_buffer(&mut buffer);
        assert_eq!(bind, GlCommand::BindBuffer { target: 0x8892, buffer: 21 });
        assert_eq!(
            rest.buffer_bytes(&mut gl_buffer, &[9], STREAM_DRAW),
            GlCommand::BufferData { target: 0x8892, data: vec![9], usage: 0x88E0 }
        );
    }
    let mut ebuffer = Buffer::from_raw(22);
    let (_gl_ebuffer, _rest, ebind) = (&mut gl).bind_element_array_buffer(&mut ebuffer);
    assert_eq!(ebind, GlCommand::BindBuffer { target: 0x8893, buffer: 22 });
    assert_eq!(gl.enable(BLEND), GlCommand::Enable { cap: 0x0BE2 });
}

#[test]
fn borrowed_helpers_keep_state() {
    let mut gl = Context::current_context();
    {
        let shared = gl.borrowed();
        assert_eq!(shared.viewport(Viewport::new(1, 1, 2, 2)), GlCommand::Viewport { x: 1, y: 1, width: 2, height: 2 });
    }
    let mut borrowed = gl.borrowed_mut();
    assert_eq!(borrowed.disable(BLEND), GlCommand::Disable { cap: 0x0BE2 });
}
