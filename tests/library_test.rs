use wgsl_tool::{
    bytes_to_words, compile_shader, compile_shader_wasm, disassemble_spirv, get_supported_formats,
    words_to_bytes, OutputData, OutputFormat, SPIRV_MAGIC,
};

const TWO_STAGES: &str = r#"
@vertex
fn vs_main(@builtin(vertex_index) vertex_index: u32) -> @builtin(position) vec4<f32> {
    let pos = array<vec2<f32>, 3>(
        vec2<f32>(-1.0, -1.0),
        vec2<f32>( 1.0, -1.0),
        vec2<f32>( 0.0,  1.0)
    );
    return vec4<f32>(pos[vertex_index], 0.0, 1.0);
}

@fragment
fn fs_main() -> @location(0) vec4<f32> {
    return vec4<f32>(1.0, 0.0, 0.0, 1.0);
}
"#;

const NO_ENTRY_POINT: &str = r#"
fn helper(x: f32) -> f32 {
    return x * 2.0;
}
"#;

const VERTEX_WITHOUT_POSITION: &str = r#"
@vertex
fn vs_main() -> @location(0) vec4<f32> {
    return vec4<f32>(0.0, 0.0, 0.0, 1.0);
}
"#;

const ALL_FORMATS: [OutputFormat; 6] = [
    OutputFormat::Wgsl,
    OutputFormat::Spirv,
    OutputFormat::SpirvAsm,
    OutputFormat::Glsl,
    OutputFormat::Hlsl,
    OutputFormat::Metal,
];

fn text_of(out: OutputData) -> String {
    match out {
        OutputData::Text(text) => text,
        OutputData::Binary(_) => panic!("expected text"),
    }
}

#[test]
fn words_frame_little_endian() {
    let bytes = words_to_bytes(&[0x0723_0203, 0x0102_0304]);
    assert_eq!(bytes, vec![0x03, 0x02, 0x23, 0x07, 0x04, 0x03, 0x02, 0x01]);
}

#[test]
fn words_frame_empty() {
    assert!(words_to_bytes(&[]).is_empty());
    assert!(bytes_to_words(&[]).is_empty());
}

#[test]
fn bytes_read_back_as_words() {
    let words = vec![SPIRV_MAGIC, 0x0001_0000, 28, 0xffff_ffff, 0];
    assert_eq!(bytes_to_words(&words_to_bytes(&words)), words);
}

#[test]
fn trailing_bytes_are_not_read() {
    assert_eq!(bytes_to_words(&[0x03, 0x02, 0x23, 0x07, 0xaa, 0xbb]), vec![SPIRV_MAGIC]);
}

#[test]
fn misaligned_binary_is_rejected() {
    let err = disassemble_spirv(&[0x03, 0x02, 0x23]).unwrap_err();
    assert_eq!(err, "SPIR-V binary length must be divisible by 4");
}

#[test]
fn malformed_binary_is_rejected() {
    let err = disassemble_spirv(&[0xde, 0xad, 0xbe, 0xef, 0, 0, 0, 0]).unwrap_err();
    assert!(err.starts_with("Failed to parse SPIR-V: "));
}

#[test]
fn generated_binary_disassembles() {
    let bytes = match compile_shader(TWO_STAGES, &OutputFormat::Spirv).unwrap() {
        OutputData::Binary(bytes) => bytes,
        OutputData::Text(_) => panic!("expected bytes"),
    };
    let text = disassemble_spirv(&bytes).unwrap();
    assert!(text.contains("OpCapability"));
    assert!(text.contains("OpMemoryModel"));
    assert_eq!(text.matches("OpEntryPoint").count(), 2);
}

#[test]
fn binary_artifact_is_framed() {
    match compile_shader(TWO_STAGES, &OutputFormat::Spirv).unwrap() {
        OutputData::Binary(bytes) => {
            assert_eq!(bytes.len() % 4, 0);
            assert!(bytes.len() >= 20);
            assert_eq!(&bytes[0..4], &[0x03, 0x02, 0x23, 0x07]);
        }
        OutputData::Text(_) => panic!("expected bytes"),
    }
}

#[test]
fn every_format_compiles_two_stages() {
    for format in ALL_FORMATS.iter() {
        let out = compile_shader(TWO_STAGES, format).unwrap();
        match (format, out) {
            (OutputFormat::Spirv, OutputData::Binary(bytes)) => {
                assert!(!bytes.is_empty());
                assert_eq!(&bytes[0..4], &[0x03, 0x02, 0x23, 0x07]);
            }
            (OutputFormat::Spirv, OutputData::Text(_)) => panic!("expected bytes"),
            (OutputFormat::SpirvAsm, OutputData::Text(text)) => {
                assert!(text.contains("\"vs_main\""));
                assert!(text.contains("\"fs_main\""));
            }
            (OutputFormat::Glsl, OutputData::Text(text)) => {
                assert!(text.contains("void main()"));
                assert!(text.contains("gl_Position"));
            }
            (_, OutputData::Text(text)) => {
                assert!(text.contains("vs_main"));
                assert!(text.contains("fs_main"));
            }
            (_, OutputData::Binary(_)) => panic!("expected text"),
        }
    }
}

#[test]
fn wgsl_output_compiles_again() {
    let first = text_of(compile_shader(TWO_STAGES, &OutputFormat::Wgsl).unwrap());
    let second = text_of(compile_shader(&first, &OutputFormat::Wgsl).unwrap());
    assert!(second.contains("vs_main"));
    assert!(second.contains("fs_main"));
    let third = text_of(compile_shader(&second, &OutputFormat::Wgsl).unwrap());
    assert_eq!(second, third);
}

#[test]
fn glsl_without_entry_point_fails() {
    let err = compile_shader(NO_ENTRY_POINT, &OutputFormat::Glsl).unwrap_err();
    assert_eq!(err, "No entry points found in module");
}

#[test]
fn glsl_writes_one_main() {
    let text = text_of(compile_shader(TWO_STAGES, &OutputFormat::Glsl).unwrap());
    assert_eq!(text.matches("void main()").count(), 1);
    assert!(text.starts_with("#version 330"));
}

#[test]
fn module_without_entry_point_compiles_elsewhere() {
    assert!(compile_shader(NO_ENTRY_POINT, &OutputFormat::Wgsl).is_ok());
    assert!(compile_shader(NO_ENTRY_POINT, &OutputFormat::Hlsl).is_ok());
}

#[test]
fn prose_is_a_parse_error_for_every_format() {
    for format in ALL_FORMATS.iter() {
        let err = compile_shader("Hello, this is just an ordinary sentence.", format).unwrap_err();
        assert!(err.starts_with("Failed to parse WGSL: "));
    }
}

#[test]
fn invalid_module_is_a_validation_error() {
    let err = compile_shader(VERTEX_WITHOUT_POSITION, &OutputFormat::Wgsl).unwrap_err();
    assert!(err.starts_with("Validation failed: "));
}

#[test]
fn format_names_ignore_case() {
    assert_eq!(OutputFormat::from("GLSL"), OutputFormat::Glsl);
    assert_eq!(OutputFormat::from("Spv-Asm"), OutputFormat::SpirvAsm);
    assert_eq!(OutputFormat::from("MeTaL"), OutputFormat::Metal);
    assert_eq!(OutputFormat::from("Hlsl"), OutputFormat::Hlsl);
}

#[test]
fn unknown_names_select_wgsl() {
    assert_eq!(OutputFormat::from("unknown-string"), OutputFormat::from("wgsl"));
    assert_eq!(OutputFormat::from(""), OutputFormat::Wgsl);
    assert_eq!(OutputFormat::from("spv"), OutputFormat::Wgsl);
    assert_eq!(OutputFormat::from_lowercase("SPIRV"), OutputFormat::Wgsl);
    assert_eq!(OutputFormat::from_lowercase("spirv"), OutputFormat::Spirv);
}

#[test]
fn supported_formats_are_listed() {
    let names = get_supported_formats();
    assert_eq!(names, vec!["wgsl", "spirv", "spirv-asm", "glsl", "hlsl", "metal"]);
    for (name, format) in names.iter().zip(ALL_FORMATS.iter()) {
        assert_eq!(&OutputFormat::from(name.as_str()), format);
    }
}

#[test]
fn text_bytes_are_utf8() {
    let data = OutputData::Text("é!".to_string());
    assert_eq!(data.as_bytes(), vec![0xc3, 0xa9, 0x21]);
}

#[test]
fn invalid_utf8_is_not_text() {
    let err = OutputData::Binary(vec![0xff, 0xfe]).as_string().unwrap_err();
    assert!(err.starts_with("Binary data cannot be converted to string: "));
    assert!(err.len() > "Binary data cannot be converted to string: ".len());
}

#[test]
fn boundary_text_of_spirv_is_base64() {
    let text = compile_shader_wasm(TWO_STAGES, "SPIRV").unwrap();
    assert!(text.starts_with("AwIjBw"));
    assert_eq!(text.len() % 4, 0);
}

#[test]
fn boundary_text_of_text_formats_is_verbatim() {
    let direct = text_of(compile_shader(TWO_STAGES, &OutputFormat::Hlsl).unwrap());
    assert_eq!(compile_shader_wasm(TWO_STAGES, "hlsl").unwrap(), direct);
}

#[test]
fn boundary_reports_parse_errors() {
    let err = compile_shader_wasm("not a shader", "glsl").unwrap_err();
    assert!(err.starts_with("Failed to parse WGSL: "));
}

#[test]
fn output_path_defaults_to_stem_and_extension() {
    let path = wgsl_tool::get_output_path("shaders/triangle.wgsl", &None, &OutputFormat::Spirv);
    assert_eq!(path.unwrap(), "triangle.spv");
    let path = wgsl_tool::get_output_path("a.b.wgsl", &None, &OutputFormat::SpirvAsm);
    assert_eq!(path.unwrap(), "a.b.spvasm");
}

#[test]
fn output_path_given_is_kept() {
    let given = Some("out/x.metal".to_string());
    let path = wgsl_tool::get_output_path("triangle.wgsl", &given, &OutputFormat::Glsl);
    assert_eq!(path.unwrap(), "out/x.metal");
}

#[test]
fn output_path_needs_a_file_name() {
    assert!(wgsl_tool::get_output_path("", &None, &OutputFormat::Wgsl).is_err());
}

#[test]
fn glsl_needs_an_entry_point_to_specialise_to() {
    let module = naga::front::wgsl::parse_str(NO_ENTRY_POINT).unwrap();
    let valid = wgsl_tool::validate(module).unwrap();
    let err = wgsl_tool::generate_glsl_for(&valid, &[]).unwrap_err();
    assert_eq!(err, "No entry points found in module");
}

#[test]
fn glsl_specialises_to_the_first_entry_point() {
    let module = naga::front::wgsl::parse_str(TWO_STAGES).unwrap();
    let valid = wgsl_tool::validate(module).unwrap();
    let entry_points = vec![wgsl_tool::EntryPointInfo {
        name: "fs_main".to_string(),
        stage: wgsl_tool::Stage::Fragment,
    }];
    let text = wgsl_tool::generate_glsl_for(&valid, &entry_points).unwrap();
    assert!(!text.contains("gl_Position"));
    let text = wgsl_tool::generate_glsl(&valid).unwrap();
    assert!(text.contains("gl_Position"));
}

#[test]
fn binary_output_crosses_as_base64() {
    let out = OutputData::Binary(vec![1, 2, 3, 4]);
    let text = wgsl_tool::encode_output(&out, &OutputFormat::Spirv).unwrap();
    assert_eq!(text, "AQIDBA==");
    let text = wgsl_tool::encode_output(&OutputData::Text("x".to_string()), &OutputFormat::Glsl);
    assert_eq!(text.unwrap(), "x");
}

#[test]
fn constant_of_undeclared_type_is_refused() {
    let words = [SPIRV_MAGIC, 0x0001_0000, 0, 3, 0, 0x0004_002B, 1, 2, 0];
    let err = disassemble_spirv(&words_to_bytes(&words)).unwrap_err();
    assert!(err.starts_with("Failed to parse SPIR-V: "));
}

#[test]
fn constant_of_declared_type_disassembles() {
    let words = [
        SPIRV_MAGIC, 0x0001_0000, 0, 4, 0,
        0x0004_0015, 1, 32, 0,
        0x0004_002B, 1, 2, 7,
    ];
    let text = disassemble_spirv(&words_to_bytes(&words)).unwrap();
    assert!(text.contains("OpConstant"));
}

#[test]
fn stream_without_header_is_refused() {
    let err = disassemble_spirv(&[0, 0, 0, 0]).unwrap_err();
    assert!(err.starts_with("Failed to parse SPIR-V: "));
}

#[test]
fn invalid_module_fails_validation_directly() {
    let module = naga::front::wgsl::parse_str(VERTEX_WITHOUT_POSITION).unwrap();
    let err = wgsl_tool::validate(module).err().unwrap();
    assert!(err.starts_with("Validation failed: "));
}

#[test]
fn same_module_gives_same_spirv() {
    let a = compile_shader(TWO_STAGES, &OutputFormat::Spirv).unwrap().as_bytes();
    let b = compile_shader(TWO_STAGES, &OutputFormat::Spirv).unwrap().as_bytes();
    assert_eq!(a, b);
}

#[test]
fn boundary_passes_errors_on() {
    let direct = compile_shader(NO_ENTRY_POINT, &OutputFormat::Glsl).unwrap_err();
    assert_eq!(compile_shader_wasm(NO_ENTRY_POINT, "GLSL").unwrap_err(), direct);
}

const RAY_QUERY: &str = r#"
@group(0) @binding(0) var acc: acceleration_structure;

@compute @workgroup_size(1)
fn main() {
    var rq: ray_query;
    rayQueryInitialize(&rq, acc, RayDesc(0u, 0xFFu, 0.1, 100.0, vec3<f32>(0.0), vec3<f32>(0.0, 0.0, 1.0)));
}
"#;

#[test]
fn ray_queries_are_refused_by_the_wgsl_backend() {
    let err = compile_shader(RAY_QUERY, &OutputFormat::Wgsl).unwrap_err();
    assert!(err.starts_with("Failed to generate WGSL: "));
}

#[test]
fn string_past_the_end_is_refused() {
    let words = [SPIRV_MAGIC, 0x0001_0000, 0, 1, 0, 0x0003_0007, 1];
    let err = disassemble_spirv(&words_to_bytes(&words)).unwrap_err();
    assert!(err.starts_with("Failed to parse SPIR-V: "));
}

#[test]
fn spirv_header_words() {
    let bytes = compile_shader(TWO_STAGES, &OutputFormat::Spirv).unwrap().as_bytes();
    let words = bytes_to_words(&bytes);
    assert_eq!(words[0], SPIRV_MAGIC);
    assert_eq!(words[1], 0x0001_0000);
    assert_eq!(words[2], 28);
    assert!(words[3] > 0);
    assert_eq!(words[4], 0);
}

#[test]
fn compile_errors_cross_the_boundary_unchanged() {
    let text = wgsl_tool::encode_compiled(Err("boom".to_string()), &OutputFormat::Spirv);
    assert_eq!(text.unwrap_err(), "boom");
    let out = OutputData::Binary(vec![0xff]);
    let text = wgsl_tool::encode_compiled(Ok(out), &OutputFormat::Spirv).unwrap();
    assert_eq!(text, "/w==");
}

#[test]
fn ray_query_kinds_are_found() {
    let kinds = [wgsl_tool::TypeKind::Other, wgsl_tool::TypeKind::RayQuery { vertex_return: false }];
    assert_eq!(wgsl_tool::ray_query_use(&kinds), (true, false));
    let kinds = [wgsl_tool::TypeKind::RayQuery { vertex_return: true }];
    assert_eq!(wgsl_tool::ray_query_use(&kinds), (true, true));
    assert_eq!(wgsl_tool::ray_query_use(&[wgsl_tool::TypeKind::Other]), (false, false));
}
