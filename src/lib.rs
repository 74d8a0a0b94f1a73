//! A shader cross-compiler: WGSL source is parsed and validated with naga and
//! lowered to WGSL, SPIR-V (binary or disassembled), GLSL, HLSL or Metal.
//! The dispatch, the binary framing, the entry-point choice and the error
//! reporting are verified here; the compiler stages themselves are called
//! through the trusted items of `trusted`.
pub mod format;
pub mod output;
pub mod paths;
pub mod pipeline;
pub mod report;
pub mod scan;
pub mod trusted;
pub mod words;

pub use output::OutputData;
pub use paths::get_output_path;
pub use pipeline::{
    compile_module, compile_shader, encode_compiled, ray_query_use, TypeKind, compile_shader_wasm, disassemble_spirv, encode_output, generate,
    generate_glsl, generate_glsl_for, generate_hlsl, generate_metal, generate_spirv, generate_wgsl,
    EntryPointInfo, Stage, ValidModule, WriterError, validate,
};
pub use format::{get_supported_formats, OutputFormat};
pub use words::{bytes_to_words, words_to_bytes, SPIRV_MAGIC};
