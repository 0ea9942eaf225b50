use render_core::gpu::GpuCommand;
use render_core::gpu::Mat4Bits;
use render_core::gpu::UniformValue;
use render_core::scalar::Vec3Bits;
use render_core::shader::contains_nul;
use render_core::shader::BuildRequest;
use render_core::shader::BuildStep;
use render_core::shader::Outcome;
use render_core::shader::Shader;
use render_core::shader::ShaderBuild;
use render_core::shader::ShaderError;
use render_core::shader::Stage;

const VERTEX: &str = "#version 330 core\nvoid main() { gl_Position = vec4(0.0); }\n";
const FRAGMENT: &str = "#version 330 core\nout vec4 c;\nvoid main() { c = vec4(1.0); }\n";

fn ok(object: u32) -> Outcome {
    Outcome { object, success: true, log: String::new() }
}

fn failed(object: u32, log: &str) -> Outcome {
    Outcome { object, success: false, log: log.to_string() }
}

fn proceed(step: BuildStep) -> (ShaderBuild, BuildRequest) {
    match step {
        BuildStep::Continue { build, request } => (build, request),
        BuildStep::End { .. } => panic!("the build ended early"),
    }
}

fn shader(program: u32) -> Shader {
    let (build, _) = proceed(Shader::new(VERTEX, FRAGMENT));
    let (build, _) = proceed(build.step(ok(1)));
    let (build, _) = proceed(build.step(ok(2)));
    match build.step(ok(program)) {
        BuildStep::End { result, .. } => result.unwrap(),
        BuildStep::Continue { .. } => panic!("the build did not end"),
    }
}

#[test]
fn build_compiles_vertex_then_fragment_then_links() {
    let (build, request) = proceed(Shader::new(VERTEX, FRAGMENT));
    assert_eq!(request, BuildRequest::Compile { stage: Stage::Vertex });
    assert_eq!(build, ShaderBuild::AwaitVertex { fragment_valid: true });
    let (build, request) = proceed(build.step(ok(10)));
    assert_eq!(request, BuildRequest::Compile { stage: Stage::Fragment });
    let (build, request) = proceed(build.step(ok(11)));
    assert_eq!(request, BuildRequest::Link { vertex: 10, fragment: 11 });
    match build.step(ok(12)) {
        BuildStep::End { result, release_shaders, release_program } => {
            assert_eq!(result.unwrap().program(), 12);
            assert_eq!(release_shaders, vec![10, 11]);
            assert_eq!(release_program, None);
        }
        BuildStep::Continue { .. } => panic!("the build did not end"),
    }
}

#[test]
fn vertex_compile_failure_carries_the_log_and_the_stage() {
    let (build, _) = proceed(Shader::new(VERTEX, FRAGMENT));
    assert_eq!(
        build.step(failed(10, "0:1: syntax error")),
        BuildStep::End {
            result: Err(ShaderError::Compile {
                stage: Stage::Vertex,
                log: "0:1: syntax error".to_string()
            }),
            release_shaders: vec![10],
            release_program: None,
        }
    );
}

#[test]
fn fragment_compile_failure_releases_both_stages() {
    let (build, _) = proceed(Shader::new(VERTEX, FRAGMENT));
    let (build, _) = proceed(build.step(ok(10)));
    assert_eq!(
        build.step(failed(11, "undeclared identifier")),
        BuildStep::End {
            result: Err(ShaderError::Compile {
                stage: Stage::Fragment,
                log: "undeclared identifier".to_string()
            }),
            release_shaders: vec![10, 11],
            release_program: None,
        }
    );
}

#[test]
fn link_failure_is_its_own_error_and_releases_the_program() {
    let (build, _) = proceed(Shader::new(VERTEX, FRAGMENT));
    let (build, _) = proceed(build.step(ok(10)));
    let (build, _) = proceed(build.step(ok(11)));
    assert_eq!(
        build.step(failed(12, "varying mismatch")),
        BuildStep::End {
            result: Err(ShaderError::Link { log: "varying mismatch".to_string() }),
            release_shaders: vec![10, 11],
            release_program: Some(12),
        }
    );
}

#[test]
fn vertex_source_with_a_zero_byte_ends_the_build_at_once() {
    assert_eq!(
        Shader::new("void main() {\0}", FRAGMENT),
        BuildStep::End {
            result: Err(ShaderError::InvalidSource { stage: Stage::Vertex }),
            release_shaders: Vec::new(),
            release_program: None,
        }
    );
}

#[test]
fn fragment_source_with_a_zero_byte_ends_the_build_after_the_vertex_stage() {
    let (build, request) = proceed(Shader::new(VERTEX, "\0"));
    assert_eq!(request, BuildRequest::Compile { stage: Stage::Vertex });
    assert_eq!(
        build.step(ok(10)),
        BuildStep::End {
            result: Err(ShaderError::InvalidSource { stage: Stage::Fragment }),
            release_shaders: vec![10],
            release_program: None,
        }
    );
}

#[test]
fn vertex_failure_comes_before_the_fragment_source_is_judged() {
    let (build, _) = proceed(Shader::new(VERTEX, "\0"));
    assert_eq!(
        build.step(failed(10, "bad")),
        BuildStep::End {
            result: Err(ShaderError::Compile { stage: Stage::Vertex, log: "bad".to_string() }),
            release_shaders: vec![10],
            release_program: None,
        }
    );
}

#[test]
fn contains_nul_finds_a_zero_byte_anywhere() {
    assert!(!contains_nul(""));
    assert!(!contains_nul("projection"));
    assert!(!contains_nul("light.position \u{e9}\u{4e16}"));
    assert!(contains_nul("\0"));
    assert!(contains_nul("view\0"));
    assert!(contains_nul("\0view"));
    assert!(contains_nul("vi\0ew"));
}

#[test]
fn use_shader_names_the_program() {
    assert_eq!(shader(5).use_shader(), GpuCommand::UseProgram { program: 5 });
    assert_eq!(shader(5).program(), 5);
}

#[test]
fn setters_name_program_uniform_and_value() {
    let shader = shader(9);
    let name = |n: &str| n.to_string();
    assert_eq!(
        shader.set_i32("material.diffuse_tex", -3),
        GpuCommand::SetUniform { program: 9, name: name("material.diffuse_tex"), value: UniformValue::Int(-3) }
    );
    assert_eq!(
        shader.set_f32("material.shininess", 32.0f32.to_bits()),
        GpuCommand::SetUniform {
            program: 9,
            name: name("material.shininess"),
            value: UniformValue::Scalar(0x4200_0000)
        }
    );
    let v = Vec3Bits { x: 1.0f32.to_bits(), y: 2.0f32.to_bits(), z: 3.0f32.to_bits() };
    assert_eq!(
        shader.set_vec3v("light.position", &v),
        GpuCommand::SetUniform { program: 9, name: name("light.position"), value: UniformValue::Vec3(v) }
    );
    assert_eq!(
        shader.set_vec3("view_pos", v.x, v.y, v.z),
        GpuCommand::SetUniform { program: 9, name: name("view_pos"), value: UniformValue::Vec3(v) }
    );
    let mut cols = [0u32; 16];
    for (i, col) in cols.iter_mut().enumerate() {
        *col = (i as f32).to_bits();
    }
    let mat = Mat4Bits { cols };
    assert_eq!(
        shader.set_mat4v("projection", &mat),
        GpuCommand::SetUniform { program: 9, name: name("projection"), value: UniformValue::Mat4(mat) }
    );
    assert_eq!(
        shader.set_uniform("model", UniformValue::Int(1)),
        GpuCommand::SetUniform { program: 9, name: name("model"), value: UniformValue::Int(1) }
    );
}
