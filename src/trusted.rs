//! The calls into outside code, each with the contract that the library
//! believes of it. Verus does not read these bodies: every item here is an
//! assumption, and each doc comment names what it relies on.
use vstd::prelude::*;
use vstd::utf8::{decode_utf8, valid_utf8};
use base64::Engine;
use naga::back::{glsl, hlsl, msl, spv, wgsl};
use naga::valid::{Capabilities, ValidationFlags, Validator};
use naga::ShaderStage;
use rspirv::binary::Disassemble;
use crate::pipeline::{
    has_ray_query, has_vertex_return_query, EntryPointInfo, Stage, TypeKind, ValidModule, WriterError,
};
use crate::scan::{constants_typed, instructions_fit};
use crate::words::{has_spirv_header, words_of_bytes, SPIRV_MAGIC};

verus! {

/// naga's IR module, as `naga::front::wgsl::parse_str` builds it; opaque here.
#[verifier::external_type_specification]
#[verifier::external_body]
pub struct ExModule(naga::Module);

/// naga's validator output; opaque here.
#[verifier::external_type_specification]
#[verifier::external_body]
pub struct ExModuleInfo(naga::valid::ModuleInfo);

/// What `str::to_lowercase` returns for a string.
pub uninterp spec fn lower_of(s: Seq<char>) -> Seq<char>;

/// The standard, padded base64 text of a byte string.
pub uninterp spec fn base64_of(b: Seq<u8>) -> Seq<char>;

/// The module that naga's WGSL front end builds from a source text, or
/// `None` where it rejects the text.
pub uninterp spec fn parsed_wgsl(s: Seq<char>) -> Option<naga::Module>;

/// Whether naga's validator, run with every validation class and every
/// capability, accepts a module.
pub uninterp spec fn module_validates(m: naga::Module) -> bool;

/// The name and stage of each entry point of a module, in declaration order.
pub uninterp spec fn entry_points_named(m: naga::Module) -> Seq<(Seq<char>, Stage)>;

/// naga's WGSL text of a validated module, or `None` where the writer fails.
pub uninterp spec fn wgsl_text_of(m: naga::Module) -> Option<Seq<char>>;

/// naga's SPIR-V `major.minor` words of a validated module, or `None` where
/// the writer fails.
pub uninterp spec fn spirv_words_of(m: naga::Module, major: u8, minor: u8) -> Option<Seq<u32>>;

/// naga's desktop GLSL `version` text of a validated module, specialised to
/// the entry point of that name and stage, or `None` where the writer fails.
pub uninterp spec fn glsl_text_of(m: naga::Module, version: u16, entry: Seq<char>, stage: Stage) -> Option<Seq<char>>;

/// naga's HLSL text of a validated module, or `None` where the writer fails.
pub uninterp spec fn hlsl_text_of(m: naga::Module) -> Option<Seq<char>>;

/// naga's MSL `major.minor` text of a validated module, or `None` where the
/// writer fails.
pub uninterp spec fn msl_text_of(m: naga::Module, major: u8, minor: u8) -> Option<Seq<char>>;

/// rspirv's listing of a SPIR-V binary given as little-endian bytes, or
/// `None` where its parser rejects it.
pub uninterp spec fn spirv_listing(bs: Seq<u8>) -> Option<Seq<char>>;

/// The kind of each type of a module's type arena, in arena order.
pub uninterp spec fn type_kinds_of(m: naga::Module) -> Seq<TypeKind>;

/// What `Path::file_stem` gives for a path: its file name without the last
/// extension, or `None` where the path has no file name.
pub uninterp spec fn stem_of(path: Seq<char>) -> Option<Seq<char>>;

/// Relies on `std::path::Path::file_stem`, a function of the path text
/// alone; a stem cut from a `str` is itself valid UTF-8, so `to_str`
/// always succeeds on it.
#[verifier::external_body]
pub(crate) fn file_stem(path: &str) -> (r: Option<String>)
    ensures
        r is Some <==> stem_of(path@) is Some,
        r is Some ==> r->Some_0@ == stem_of(path@)->Some_0,
{
    std::path::Path::new(path).file_stem().map(|s| s.to_string_lossy().into_owned())
}

/// Relies on `str::to_lowercase`: the result depends on the characters alone.
#[verifier::external_body]
pub(crate) fn lowercase(s: &str) -> (r: String)
    ensures
        r@ == lower_of(s@),
{
    s.to_lowercase()
}

/// Relies on `String::from_utf8`: it succeeds exactly on valid UTF-8, and then
/// holds the characters that the bytes encode; the error comes back as its
/// `Display` text.
#[verifier::external_body]
pub(crate) fn string_from_utf8(b: Vec<u8>) -> (r: Result<String, String>)
    ensures
        r is Ok <==> valid_utf8(b@),
        r is Ok ==> r->Ok_0@ == decode_utf8(b@),
{
    String::from_utf8(b).map_err(|e| e.to_string())
}

/// Relies on base64's `engine::general_purpose::STANDARD` engine and its
/// `Engine::encode`: standard alphabet, padded.
#[verifier::external_body]
pub(crate) fn encode_base64(b: &[u8]) -> (r: String)
    ensures
        r@ == base64_of(b@),
{
    base64::engine::general_purpose::STANDARD.encode(b)
}

/// Relies on `naga::front::wgsl::parse_str`, a function of the source text
/// alone, with a limit on nesting depth; the error comes back as its
/// `Display` text.
#[verifier::external_body]
pub(crate) fn parse_wgsl(source: &str) -> (r: Result<naga::Module, String>)
    ensures
        r is Ok <==> parsed_wgsl(source@) is Some,
        r is Ok ==> r->Ok_0 == parsed_wgsl(source@)->Some_0,
{
    naga::front::wgsl::parse_str(source).map_err(|e| e.to_string())
}

/// Relies on `naga::valid::Validator::validate`, run with every validation
/// class and every capability; the module is kept with the info that
/// validating it gave. The error comes back as its `Display` text. Handles
/// are checked first, and the later checks rely on that.
#[verifier::external_body]
pub(crate) fn validate_module(module: naga::Module) -> (r: Result<ValidModule, String>)
    ensures
        r is Ok <==> module_validates(module),
        r is Ok ==> r->Ok_0.module() == module,
{
    let mut validator = Validator::new(ValidationFlags::all(), Capabilities::all());
    let info = validator.validate(&module).map_err(|e| e.to_string())?;
    Ok(ValidModule { module, info })
}

/// Relies on the `entry_points` field of `naga::Module`: the name and stage
/// of each entry point, in declaration order, each `naga::ShaderStage`
/// variant mapped to the `Stage` variant of the same name.
#[verifier::external_body]
pub(crate) fn entry_points_of(valid: &ValidModule) -> (r: Vec<EntryPointInfo>)
    ensures
        r@.len() == entry_points_named(valid.module()).len(),
        forall|i: int|
            0 <= i < r@.len() ==> (#[trigger] r@[i]).name@ == entry_points_named(valid.module())[i].0
                && r@[i].stage == entry_points_named(valid.module())[i].1,
{
    valid.module.entry_points.iter().map(|ep| EntryPointInfo {
        name: ep.name.clone(),
        stage: match ep.stage {
            ShaderStage::Vertex => Stage::Vertex,
            ShaderStage::Fragment => Stage::Fragment,
            ShaderStage::Compute => Stage::Compute,
            ShaderStage::Task => Stage::Task,
            ShaderStage::Mesh => Stage::Mesh,
        },
    }).collect()
}

/// Relies on the `types` arena of `naga::Module`: each type's `TypeInner`,
/// told apart as a ray query (with its `vertex_return` flag) or another kind.
#[verifier::external_body]
pub(crate) fn type_kinds(valid: &ValidModule) -> (r: Vec<TypeKind>)
    ensures
        r@ == type_kinds_of(valid.module()),
{
    valid.module.types.iter().map(|(_, ty)| match ty.inner {
        naga::TypeInner::RayQuery { vertex_return } => TypeKind::RayQuery { vertex_return },
        _ => TypeKind::Other,
    }).collect()
}

/// Relies on naga's WGSL writer (`wgsl::Writer::write`), without writer
/// flags; the error comes back as its `Display` text. The writer has no arm
/// for ray-query statements and expressions (`unreachable!`), which act on a
/// value of a ray-query type, so modules holding such a type are left out.
/// Beyond that, freedom from panics rests on naga's validator having
/// accepted the module.
#[verifier::external_body]
pub(crate) fn write_wgsl(valid: &ValidModule) -> (r: Result<String, String>)
    requires
        !has_ray_query(type_kinds_of(valid.module())),
    ensures
        r is Ok <==> wgsl_text_of(valid.module()) is Some,
        r is Ok ==> r->Ok_0@ == wgsl_text_of(valid.module())->Some_0,
{
    let mut out = String::new();
    wgsl::Writer::new(&mut out, wgsl::WriterFlags::empty()).write(&valid.module, &valid.info).map_err(|e| e.to_string())?;
    Ok(out)
}

/// Relies on naga's SPIR-V writer (`spv::Writer::new`, then `write` into an
/// empty vector), for SPIR-V `major.minor`, without writer flags, with native
/// workgroup zeroing. On success `write` has put the five header words first
/// (`PhysicalLayout::in_words`): the magic number, the version word
/// `major << 16 | minor << 8` (`Writer::new`), generator 28, the id bound
/// and a zero schema word. Freedom from panics rests on naga's validator.
#[verifier::external_body]
pub(crate) fn write_spirv(valid: &ValidModule, major: u8, minor: u8) -> (r: Result<Vec<u32>, WriterError>)
    ensures
        r is Ok <==> spirv_words_of(valid.module(), major, minor) is Some,
        r is Ok ==> r->Ok_0@ == spirv_words_of(valid.module(), major, minor)->Some_0,
        r is Ok ==> r->Ok_0@.len() >= 5 && r->Ok_0@[0] == SPIRV_MAGIC,
        r is Ok ==> r->Ok_0@[1] == ((major as u32) << 16u32) | ((minor as u32) << 8u32),
        r is Ok ==> r->Ok_0@[2] == 28 && r->Ok_0@[4] == 0,
{
    let options = spv::Options {
        lang_version: (major, minor),
        flags: spv::WriterFlags::empty(),
        zero_initialize_workgroup_memory: spv::ZeroInitializeWorkgroupMemoryMode::Native,
        ..Default::default()
    };
    let mut writer = spv::Writer::new(&options).map_err(|e| WriterError::Setup(e.to_string()))?;
    let mut words = Vec::new();
    writer.write(&valid.module, &valid.info, None, &None, &mut words).map_err(|e| WriterError::Output(e.to_string()))?;
    Ok(words)
}

/// Relies on naga's GLSL writer (`glsl::Writer::new`, then `write`) for
/// desktop GLSL `version`, specialised to one entry point, without writer
/// flags and with workgroup memory zeroed; the `Stage` is handed on as the
/// `naga::ShaderStage` variant of the same name. Ray-query types are refused with
/// an error before writing; freedom from panics rests on naga's validator.
#[verifier::external_body]
pub(crate) fn write_glsl(valid: &ValidModule, version: u16, entry: &EntryPointInfo) -> (r: Result<String, WriterError>)
    ensures
        r is Ok <==> glsl_text_of(valid.module(), version, entry.name@, entry.stage) is Some,
        r is Ok ==> r->Ok_0@ == glsl_text_of(valid.module(), version, entry.name@, entry.stage)->Some_0,
{
    let options = glsl::Options { version: glsl::Version::Desktop(version), writer_flags: glsl::WriterFlags::empty(), ..Default::default() };
    let shader_stage = match entry.stage {
        Stage::Vertex => ShaderStage::Vertex,
        Stage::Fragment => ShaderStage::Fragment,
        Stage::Compute => ShaderStage::Compute,
        Stage::Task => ShaderStage::Task,
        Stage::Mesh => ShaderStage::Mesh,
    };
    let pipeline = glsl::PipelineOptions { shader_stage, entry_point: entry.name.clone(), multiview: None };
    let mut out = String::new();
    glsl::Writer::new(&mut out, &valid.module, &valid.info, &options, &pipeline, Default::default())
        .map_err(|e| WriterError::Setup(e.to_string()))?
        .write()
        .map_err(|e| WriterError::Output(e.to_string()))?;
    Ok(out)
}

/// Relies on naga's HLSL writer (`hlsl::Writer::write`) with its default
/// options; the error comes back as its `Display` text. The writer has no
/// arm for the vertex positions of a ray query (`unreachable!`), which need
/// a ray-query type with `vertex_return`, so modules holding one are left
/// out. Beyond that, freedom from panics rests on naga's validator.
#[verifier::external_body]
pub(crate) fn write_hlsl(valid: &ValidModule) -> (r: Result<String, String>)
    requires
        !has_vertex_return_query(type_kinds_of(valid.module())),
    ensures
        r is Ok <==> hlsl_text_of(valid.module()) is Some,
        r is Ok ==> r->Ok_0@ == hlsl_text_of(valid.module())->Some_0,
{
    let mut out = String::new();
    let options = hlsl::Options::default();
    hlsl::Writer::new(&mut out, &options).write(&valid.module, &valid.info, None).map_err(|e| e.to_string())?;
    Ok(out)
}

/// Relies on naga's Metal writer (`msl::Writer::write`) for MSL
/// `major.minor`, without fake bindings, other options at their defaults.
/// From MSL 2.4 on the writer reaches `unimplemented!` on vertex-returning
/// ray queries; below it, it refuses them with an error first, so only
/// versions below 2.4 are admitted. Beyond that, freedom from panics rests
/// on naga's validator.
#[verifier::external_body]
pub(crate) fn write_msl(valid: &ValidModule, major: u8, minor: u8) -> (r: Result<String, String>)
    requires
        major < 2 || (major == 2 && minor < 4),
    ensures
        r is Ok <==> msl_text_of(valid.module(), major, minor) is Some,
        r is Ok ==> r->Ok_0@ == msl_text_of(valid.module(), major, minor)->Some_0,
{
    let options = msl::Options { lang_version: (major, minor), fake_missing_bindings: false, ..Default::default() };
    let mut out = String::new();
    msl::Writer::new(&mut out).write(&valid.module, &valid.info, &options, &msl::PipelineOptions::default()).map_err(|e| e.to_string())?;
    Ok(out)
}

/// Relies on rspirv: `binary::parse_bytes` into a `dr::Loader`, then
/// `Disassemble::disassemble` of the loaded module; both depend on the bytes
/// alone, which the decoder reads as little-endian words. The parser refuses
/// a stream whose first word is not the magic number
/// (`Parser::parse_header`). Left out: streams that are not whole
/// instructions ending at the end (`Decoder::string` slices up to the word
/// count an instruction claims), and streams with an `OpConstant` of an
/// undeclared integer or float type (`disas_constant` unwraps that type).
#[verifier::external_body]
pub(crate) fn disassemble_bytes(bytes: &[u8]) -> (r: Result<String, String>)
    requires
        bytes@.len() % 4 == 0,
        instructions_fit(words_of_bytes(bytes@)),
        constants_typed(words_of_bytes(bytes@)),
    ensures
        r is Ok <==> spirv_listing(bytes@) is Some,
        r is Ok ==> r->Ok_0@ == spirv_listing(bytes@)->Some_0,
        !has_spirv_header(words_of_bytes(bytes@)) ==> r is Err,
{
    let mut loader = rspirv::dr::Loader::new();
    rspirv::binary::parse_bytes(bytes, &mut loader).map_err(|e| e.to_string())?;
    Ok(loader.module().disassemble())
}

} // verus!
