use wme_core::shader::{
    info_log, Shader, ShaderError, Stage, UniformInt, FRAGMENT_SHADER, LOG_CAPACITY,
    VERTEX_SHADER,
};

#[test]
fn shader_kinds_are_those_of_the_graphics_interface() {
    assert_eq!(VERTEX_SHADER, gl::VERTEX_SHADER);
    assert_eq!(FRAGMENT_SHADER, gl::FRAGMENT_SHADER);
    assert_eq!(Stage::Vertex.kind(), gl::VERTEX_SHADER);
    assert_eq!(Stage::Fragment.kind(), gl::FRAGMENT_SHADER);
    assert_eq!(LOG_CAPACITY, 1024);
}

#[test]
fn set_bool_sends_one_for_true() {
    let shader = Shader { id: 12 };
    assert_eq!(
        shader.set_bool("useTexture", true),
        UniformInt { program: 12, name: "useTexture".to_string(), value: 1 }
    );
}

#[test]
fn set_bool_sends_zero_for_false() {
    let shader = Shader { id: 12 };
    assert_eq!(
        shader.set_bool("useTexture", false),
        UniformInt { program: 12, name: "useTexture".to_string(), value: 0 }
    );
}

#[test]
fn set_bool_is_set_int_of_the_cast() {
    let shader = Shader { id: 5 };
    for value in [false, true] {
        assert_eq!(shader.set_bool("flag", value), shader.set_int("flag", value as i32));
    }
}

#[test]
fn set_int_keeps_program_name_and_value() {
    let shader = Shader { id: 3 };
    assert_eq!(
        shader.set_int("texture1", -7),
        UniformInt { program: 3, name: "texture1".to_string(), value: -7 }
    );
}

#[test]
fn sources_are_the_first_two_paths() {
    let paths = vec!["basic.vert", "basic.frag", "unused.geom"];
    assert_eq!(Shader::sources(&paths), ("basic.vert", "basic.frag"));
    assert_eq!(Shader::sources(&vec!["a", "b"]), ("a", "b"));
}

#[test]
fn source_length_is_the_length() {
    assert_eq!(Shader::source_length(0), 0);
    assert_eq!(Shader::source_length(4096), 4096);
    assert_eq!(Shader::source_length(i32::MAX as usize), i32::MAX);
}

#[test]
fn info_log_is_the_written_part() {
    let buffer = b"0:1: error".to_vec();
    assert_eq!(info_log(&buffer, 3), b"0:1".to_vec());
    assert_eq!(info_log(&buffer, 10), buffer);
    assert_eq!(info_log(&buffer, 0), Vec::<u8>::new());
    assert_eq!(info_log(&buffer, -1), Vec::<u8>::new());
    assert_eq!(info_log(&buffer, i32::MIN), Vec::<u8>::new());
    assert_eq!(info_log(&buffer, 11), buffer);
    assert_eq!(info_log(&buffer, i32::MAX), buffer);
    assert_eq!(info_log(&Vec::new(), 5), Vec::<u8>::new());
}

#[test]
fn a_compiled_shader_stands() {
    let buffer = vec![0u8; 8];
    assert_eq!(Shader::create_shader(Stage::Vertex, 4, 1, &buffer, 0), Ok(4));
    assert_eq!(Shader::create_shader(Stage::Fragment, 9, -1, &buffer, 8), Ok(9));
}

#[test]
fn a_failed_compilation_carries_its_log() {
    let buffer = b"syntax error....".to_vec();
    assert_eq!(
        Shader::create_shader(Stage::Fragment, 4, 0, &buffer, 12),
        Err(ShaderError::Compile { stage: Stage::Fragment, log: b"syntax error".to_vec() })
    );
    assert_eq!(
        Shader::create_shader(Stage::Vertex, 4, 0, &buffer, 0),
        Err(ShaderError::Compile { stage: Stage::Vertex, log: Vec::new() })
    );
}

#[test]
fn a_linked_program_stands() {
    assert_eq!(Shader::create_program(21, 1, &Vec::new(), 0), Ok(Shader { id: 21 }));
}

#[test]
fn a_failed_link_carries_its_log() {
    let buffer = b"undefined main..".to_vec();
    assert_eq!(
        Shader::create_program(21, 0, &buffer, 14),
        Err(ShaderError::Link { log: b"undefined main".to_vec() })
    );
}
