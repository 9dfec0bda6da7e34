use glitter::command::GlCommand;
use glitter::context::Context;
use glitter::shader::{ShaderType, FRAGMENT_SHADER, VERTEX_SHADER};
use glitter::types::GLError;

#[test]
fn shader_type_values() {
    assert_eq!(VERTEX_SHADER.gl_enum(), 0x8B31);
    assert_eq!(FRAGMENT_SHADER.gl_enum(), 0x8B30);
    assert_eq!(ShaderType::from_gl(0x8B30), Ok(ShaderType::FragmentShader));
    assert_eq!(ShaderType::from_gl(0x8B32), Err(()));
}

#[test]
fn create_shader_fails_on_zero_id() {
    let gl = Context::current_context();
    assert!(gl.create_shader(VERTEX_SHADER, 0).is_err());
    let s = gl.create_shader(VERTEX_SHADER, 7).unwrap();
    assert_eq!(s.gl_id(), 7);
    assert_eq!(s.delete(), GlCommand::DeleteShader { shader: 7 });
}

#[test]
fn shader_source_and_compile_commands() {
    let gl = Context::current_context();
    let mut s = gl.create_shader(FRAGMENT_SHADER, 3).unwrap();
    assert_eq!(
        gl.shader_source(&mut s, "void main() {}"),
        GlCommand::ShaderSource { shader: 3, source: "void main() {}".to_string() }
    );
    assert_eq!(gl.compile_shader_command(&s), GlCommand::CompileShader { shader: 3 });
}

#[test]
fn compile_shader_outcome() {
    let gl = Context::current_context();
    let mut s = gl.create_shader(FRAGMENT_SHADER, 3).unwrap();
    assert!(gl.compile_shader(&mut s, 1, None).is_ok());
    match gl.compile_shader(&mut s, 0, Some("syntax error".to_string())) {
        Err(GLError::Message(m)) => assert_eq!(m, "syntax error"),
        _ => panic!("expected a message"),
    }
    match gl.compile_shader(&mut s, 0, None) {
        Err(GLError::Message(m)) => assert_eq!(m, "[Unknown shader error]"),
        _ => panic!("expected a message"),
    }
}

#[test]
fn shader_info_log_drops_the_null_byte() {
    let gl = Context::current_context();
    let s = gl.create_shader(VERTEX_SHADER, 5).unwrap();
    let log = b"error: x\0".to_vec();
    assert_eq!(gl.get_shader_info_log(&s, 9, log), Some("error: x".to_string()));
    assert_eq!(gl.get_shader_info_log(&s, 0, Vec::new()), None);
    assert_eq!(gl.get_shader_info_log(&s, -1, b"abc".to_vec()), None);
    assert_eq!(gl.get_shader_info_log(&s, 1, b"\0".to_vec()), Some(String::new()));
}

#[test]
fn shader_info_log_rejects_invalid_utf8() {
    let gl = Context::current_context();
    let s = gl.create_shader(VERTEX_SHADER, 5).unwrap();
    assert_eq!(gl.get_shader_info_log(&s, 3, vec![0xFF, 0xFE, 0]), None);
    assert_eq!(gl.get_shader_info_log(&s, 4, "é!\0".as_bytes().to_vec()), Some("é!".to_string()));
}
