//! The compilation pipeline: parse, validate, then the backend of the chosen
//! format; and the disassembler that turns SPIR-V words back into text.
use vstd::prelude::*;
use crate::format::{format_named, OutputFormat};
use crate::output::OutputData;
use crate::report::{lemma_prefixes_clash, starts_with, with_prefix};
use crate::scan::{check_constants_typed, check_instructions_fit, constants_typed, instructions_fit};
use crate::trusted::{
    base64_of, disassemble_bytes, encode_base64, entry_points_named, entry_points_of, glsl_text_of,
    hlsl_text_of, lower_of, module_validates, msl_text_of, parse_wgsl, parsed_wgsl,
    spirv_listing, spirv_words_of, type_kinds, type_kinds_of, validate_module, wgsl_text_of, write_glsl, write_hlsl,
    write_msl, write_spirv, write_wgsl,
};
use crate::words::{
    bytes_of_words, bytes_to_words, has_spirv_header, is_spirv_framed, lemma_magic_framing,
    lemma_words_bytes_round_trip, words_of_bytes, words_to_bytes,
};

verus! {

/// The pipeline stage that an entry point runs in.
#[derive(Debug, Clone, Copy, PartialEq, Eq, Structural)]
pub enum Stage {
    Vertex,
    Fragment,
    Compute,
    Task,
    Mesh,
}

/// The name and pipeline stage of one entry point of a module.
pub struct EntryPointInfo {
    pub name: String,
    pub stage: Stage,
}

/// Where an outside code writer failed: while being set up for the module,
/// or while writing its output.
pub enum WriterError {
    Setup(String),
    Output(String),
}

/// A module that passed validation, kept with the analysis that validating
/// it produced. Only validation builds one, so the backends always get a
/// module together with its own analysis.
pub struct ValidModule {
    pub(crate) module: naga::Module,
    pub(crate) info: naga::valid::ModuleInfo,
}

/// The kind of one type of a module, as far as the backends care: a ray
/// query, with whether it returns vertex positions, or any other type.
pub enum TypeKind {
    RayQuery { vertex_return: bool },
    Other,
}

/// Whether some type in `kinds` is a ray query.
pub open spec fn has_ray_query(kinds: Seq<TypeKind>) -> bool {
    exists|i: int| 0 <= i < kinds.len() && kinds[i] is RayQuery
}

/// Whether some type in `kinds` is a ray query that returns vertex
/// positions.
pub open spec fn has_vertex_return_query(kinds: Seq<TypeKind>) -> bool {
    exists|i: int|
        0 <= i < kinds.len() && kinds[i] is RayQuery && kinds[i]->RayQuery_vertex_return
}

/// Whether `kinds` holds a ray query (first) and a vertex-returning ray
/// query (second).
pub fn ray_query_use(kinds: &[TypeKind]) -> (r: (bool, bool))
    ensures
        r.0 == has_ray_query(kinds@),
        r.1 == has_vertex_return_query(kinds@),
{
    let mut any = false;
    let mut vertex = false;
    let mut i: usize = 0;
    while i < kinds.len()
        invariant
            i <= kinds@.len(),
            any == exists|j: int| 0 <= j < i && kinds@[j] is RayQuery,
            vertex == exists|j: int|
                0 <= j < i && kinds@[j] is RayQuery && kinds@[j]->RayQuery_vertex_return,
        decreases kinds@.len() - i,
    {
        match &kinds[i] {
            TypeKind::RayQuery { vertex_return } => {
                any = true;
                if *vertex_return {
                    vertex = true;
                }
            },
            TypeKind::Other => {},
        }
        i += 1;
    }
    (any, vertex)
}

impl ValidModule {
    /// The validated module.
    pub closed spec fn module(self) -> naga::Module {
        self.module
    }
}

/// The GLSL version that the GLSL backend targets (desktop GLSL 3.30).
pub const GLSL_VERSION: u16 = 330;

/// The message of a source text that does not parse begins with this.
pub open spec fn parse_failure_prefix() -> Seq<char> {
    "Failed to parse WGSL: "@
}

/// The message of a module that does not validate begins with this.
pub open spec fn validation_failure_prefix() -> Seq<char> {
    "Validation failed: "@
}

/// The message of the GLSL backend for a module without entry points.
pub open spec fn no_entry_point_message() -> Seq<char> {
    "No entry points found in module"@
}

/// The message of the disassembler for a byte count that is not a whole
/// number of words.
pub open spec fn misaligned_message() -> Seq<char> {
    "SPIR-V binary length must be divisible by 4"@
}

/// Whether `msg` is one that the backend of `format` gives when it fails.
pub open spec fn backend_failure(format: OutputFormat, msg: Seq<char>) -> bool {
    match format {
        OutputFormat::Wgsl => starts_with(msg, "Failed to generate WGSL: "@),
        OutputFormat::Spirv => spirv_failure(msg),
        OutputFormat::SpirvAsm => spirv_failure(msg) || starts_with(msg, "Failed to parse SPIR-V: "@),
        OutputFormat::Glsl => {
            ||| msg == no_entry_point_message()
            ||| starts_with(msg, "Failed to create GLSL writer: "@)
            ||| starts_with(msg, "Failed to generate GLSL: "@)
        },
        OutputFormat::Hlsl => starts_with(msg, "Failed to generate HLSL: "@),
        OutputFormat::Metal => starts_with(msg, "Failed to generate Metal: "@),
    }
}

/// The messages of the SPIR-V writer.
pub open spec fn spirv_failure(msg: Seq<char>) -> bool {
    ||| starts_with(msg, "Failed to create SPIR-V writer: "@)
    ||| starts_with(msg, "Failed to generate SPIR-V: "@)
}

/// The bytes of a SPIR-V word stream with its header, each word
/// little-endian.
pub open spec fn is_spirv_binary(bs: Seq<u8>) -> bool {
    &&& is_spirv_framed(bs)
    &&& exists|ws: Seq<u32>| has_spirv_header(ws) && bs == bytes_of_words(ws)
}

/// rspirv's listing of a SPIR-V word stream with its header.
pub open spec fn is_spirv_listing(text: Seq<char>) -> bool {
    exists|ws: Seq<u32>| has_spirv_header(ws) && spirv_listing(bytes_of_words(ws)) == Some(text)
}

/// Whether `out` has the kind that `format` produces: SPIR-V bytes for
/// binary SPIR-V, the listing of a SPIR-V word stream for its disassembly,
/// text for every other format.
pub open spec fn output_fits(out: OutputData, format: OutputFormat) -> bool {
    match format {
        OutputFormat::Spirv => out is Binary && is_spirv_binary(out->Binary_0@),
        OutputFormat::SpirvAsm => out is Text && is_spirv_listing(out->Text_0@),
        _ => out is Text,
    }
}

/// The GLSL text of a validated module: specialised to its first entry
/// point; `None` without entry points or where the writer fails.
pub open spec fn glsl_output(m: naga::Module) -> Option<Seq<char>> {
    let eps = entry_points_named(m);
    if eps.len() == 0 {
        None
    } else {
        glsl_text_of(m, GLSL_VERSION, eps[0].0, eps[0].1)
    }
}

/// The WGSL text of a validated module; `None` for ray queries, which the
/// writer does not support, or where it fails.
pub open spec fn wgsl_output(m: naga::Module) -> Option<Seq<char>> {
    if has_ray_query(type_kinds_of(m)) {
        None
    } else {
        wgsl_text_of(m)
    }
}

/// The HLSL text of a validated module; `None` for vertex-returning ray
/// queries, which the writer does not support, or where it fails.
pub open spec fn hlsl_output(m: naga::Module) -> Option<Seq<char>> {
    if has_vertex_return_query(type_kinds_of(m)) {
        None
    } else {
        hlsl_text_of(m)
    }
}

/// The listing of the SPIR-V 1.0 words of a validated module.
pub open spec fn disassembled_output(m: naga::Module) -> Option<Seq<char>> {
    match spirv_words_of(m, 1, 0) {
        Some(ws) => if instructions_fit(ws) && constants_typed(ws) {
            spirv_listing(bytes_of_words(ws))
        } else {
            None
        },
        None => None,
    }
}

/// The text that the backend of a textual `format` writes for a validated
/// module, or `None` where it fails.
pub open spec fn backend_text(m: naga::Module, format: OutputFormat) -> Option<Seq<char>> {
    match format {
        OutputFormat::Wgsl => wgsl_output(m),
        OutputFormat::Spirv => None,
        OutputFormat::SpirvAsm => disassembled_output(m),
        OutputFormat::Glsl => glsl_output(m),
        OutputFormat::Hlsl => hlsl_output(m),
        OutputFormat::Metal => msl_text_of(m, 2, 0),
    }
}

/// Whether the backend of `format` succeeds on a validated module.
pub open spec fn backend_succeeds(m: naga::Module, format: OutputFormat) -> bool {
    if format.is_binary() {
        spirv_words_of(m, 1, 0) is Some
    } else {
        backend_text(m, format) is Some
    }
}

/// Whether `out` is what the backend of `format` writes for a validated
/// module: the bytes of its SPIR-V 1.0 words, or its text.
pub open spec fn is_backend_output(m: naga::Module, format: OutputFormat, out: OutputData) -> bool {
    if format.is_binary() {
        out is Binary && out->Binary_0@ == bytes_of_words(spirv_words_of(m, 1, 0)->Some_0)
    } else {
        out is Text && out->Text_0@ == backend_text(m, format)->Some_0
    }
}

/// Whether compiling a module to `format` succeeds: it validates, and the
/// backend succeeds on it.
pub open spec fn compiles(m: naga::Module, format: OutputFormat) -> bool {
    module_validates(m) && backend_succeeds(m, format)
}

/// The text that carries the artifact of a module compiled to `format`
/// across a text-only boundary: base64 of the bytes for binary SPIR-V, the
/// text itself otherwise.
pub open spec fn boundary_text(m: naga::Module, format: OutputFormat) -> Seq<char> {
    if format.is_binary() {
        base64_of(bytes_of_words(spirv_words_of(m, 1, 0)->Some_0))
    } else {
        backend_text(m, format)->Some_0
    }
}

/// Whether `msg` is the message of a failed parse, validation, or backend
/// of `format`.
pub open spec fn compile_failure(format: OutputFormat, msg: Seq<char>) -> bool {
    ||| starts_with(msg, parse_failure_prefix())
    ||| starts_with(msg, validation_failure_prefix())
    ||| backend_failure(format, msg)
}

/// No message of a backend reads as a parse or validation failure, and no
/// validation message as a parse failure.
proof fn lemma_failures_distinct(format: OutputFormat, msg: Seq<char>)
    ensures
        backend_failure(format, msg) ==> !starts_with(msg, parse_failure_prefix())
            && !starts_with(msg, validation_failure_prefix()),
        starts_with(msg, validation_failure_prefix()) ==> !starts_with(msg, parse_failure_prefix()),
{
    let p = parse_failure_prefix();
    let v = validation_failure_prefix();
    reveal_strlit("Failed to parse WGSL: ");
    reveal_strlit("Validation failed: ");
    reveal_strlit("Failed to generate WGSL: ");
    reveal_strlit("Failed to create SPIR-V writer: ");
    reveal_strlit("Failed to generate SPIR-V: ");
    reveal_strlit("Failed to parse SPIR-V: ");
    reveal_strlit("No entry points found in module");
    reveal_strlit("Failed to create GLSL writer: ");
    reveal_strlit("Failed to generate GLSL: ");
    reveal_strlit("Failed to generate HLSL: ");
    reveal_strlit("Failed to generate Metal: ");
    lemma_prefixes_clash(msg, p, v, 0);
    lemma_prefixes_clash(msg, p, "Failed to generate WGSL: "@, 10);
    lemma_prefixes_clash(msg, p, "Failed to create SPIR-V writer: "@, 10);
    lemma_prefixes_clash(msg, p, "Failed to generate SPIR-V: "@, 10);
    lemma_prefixes_clash(msg, p, "Failed to parse SPIR-V: "@, 16);
    lemma_prefixes_clash(msg, p, "Failed to create GLSL writer: "@, 10);
    lemma_prefixes_clash(msg, p, "Failed to generate GLSL: "@, 10);
    lemma_prefixes_clash(msg, p, "Failed to generate HLSL: "@, 10);
    lemma_prefixes_clash(msg, p, "Failed to generate Metal: "@, 10);
    lemma_prefixes_clash(msg, v, "Failed to generate WGSL: "@, 0);
    lemma_prefixes_clash(msg, v, "Failed to create SPIR-V writer: "@, 0);
    lemma_prefixes_clash(msg, v, "Failed to generate SPIR-V: "@, 0);
    lemma_prefixes_clash(msg, v, "Failed to parse SPIR-V: "@, 0);
    lemma_prefixes_clash(msg, v, "Failed to create GLSL writer: "@, 0);
    lemma_prefixes_clash(msg, v, "Failed to generate GLSL: "@, 0);
    lemma_prefixes_clash(msg, v, "Failed to generate HLSL: "@, 0);
    lemma_prefixes_clash(msg, v, "Failed to generate Metal: "@, 0);
    if msg == no_entry_point_message() {
        assert(msg[0] != p[0] && msg[0] != v[0]);
    }
}

/// Validates a parsed module, with every validation class and every
/// capability.
pub fn validate(module: naga::Module) -> (r: Result<ValidModule, String>)
    ensures
        r is Ok <==> module_validates(module),
        r is Ok ==> r->Ok_0.module() == module,
        r is Err ==> starts_with(r->Err_0@, validation_failure_prefix()),
{
    match validate_module(module) {
        Ok(valid) => Ok(valid),
        Err(e) => Err(with_prefix("Validation failed: ", e.as_str())),
    }
}

/// Writes the module back as WGSL.
pub fn generate_wgsl(valid: &ValidModule) -> (r: Result<String, String>)
    ensures
        r is Ok <==> wgsl_output(valid.module()) is Some,
        r is Ok ==> r->Ok_0@ == wgsl_output(valid.module())->Some_0,
        r is Err ==> backend_failure(OutputFormat::Wgsl, r->Err_0@),
{
    let kinds = type_kinds(valid);
    if ray_query_use(kinds.as_slice()).0 {
        return Err(with_prefix("Failed to generate WGSL: ", "ray queries are not supported"));
    }
    match write_wgsl(valid) {
        Ok(text) => Ok(text),
        Err(e) => Err(with_prefix("Failed to generate WGSL: ", e.as_str())),
    }
}

/// Writes the module as a SPIR-V 1.0 binary, each word as four
/// little-endian bytes.
pub fn generate_spirv(valid: &ValidModule) -> (r: Result<Vec<u8>, String>)
    ensures
        r is Ok <==> spirv_words_of(valid.module(), 1, 0) is Some,
        r is Ok ==> r->Ok_0@ == bytes_of_words(spirv_words_of(valid.module(), 1, 0)->Some_0),
        r is Ok ==> is_spirv_binary(r->Ok_0@),
        r is Err ==> spirv_failure(r->Err_0@),
{
    match write_spirv(valid, 1, 0) {
        Ok(words) => {
            let bytes = words_to_bytes(words.as_slice());
            proof {
                lemma_magic_framing(words@);
                assert(has_spirv_header(words@));
            }
            Ok(bytes)
        },
        Err(WriterError::Setup(e)) => Err(with_prefix("Failed to create SPIR-V writer: ", e.as_str())),
        Err(WriterError::Output(e)) => Err(with_prefix("Failed to generate SPIR-V: ", e.as_str())),
    }
}

/// Renders a SPIR-V binary as a listing, one instruction per line. The bytes
/// must be a whole number of little-endian words: the SPIR-V header, then
/// whole instructions up to the end, every `OpConstant` with a declared
/// integer or float type.
pub fn disassemble_spirv(bytes: &[u8]) -> (r: Result<String, String>)
    ensures
        bytes@.len() % 4 != 0 ==> r is Err && r->Err_0@ == misaligned_message(),
        bytes@.len() % 4 == 0 ==> {
            let ws = words_of_bytes(bytes@);
            &&& (r is Ok <==> instructions_fit(ws) && constants_typed(ws) && spirv_listing(
                bytes@,
            ) is Some)
            &&& (r is Ok ==> r->Ok_0@ == spirv_listing(bytes@)->Some_0)
            &&& (!has_spirv_header(ws) ==> r is Err)
            &&& (r is Err ==> starts_with(r->Err_0@, "Failed to parse SPIR-V: "@))
        },
{
    if bytes.len() % 4 != 0 {
        return Err("SPIR-V binary length must be divisible by 4".to_owned());
    }
    let words = bytes_to_words(bytes);
    if !check_instructions_fit(words.as_slice()) {
        return Err(
            with_prefix("Failed to parse SPIR-V: ", "the instructions do not fill the stream"),
        );
    }
    if !check_constants_typed(words.as_slice()) {
        return Err(
            with_prefix("Failed to parse SPIR-V: ", "a constant has no declared numeric type"),
        );
    }
    match disassemble_bytes(bytes) {
        Ok(text) => Ok(text),
        Err(e) => Err(with_prefix("Failed to parse SPIR-V: ", e.as_str())),
    }
}

/// Writes the module as desktop GLSL 3.30, specialised to the first of
/// `entry_points`; without entry points there is nothing to specialise to.
pub fn generate_glsl_for(valid: &ValidModule, entry_points: &[EntryPointInfo]) -> (r: Result<String, String>)
    ensures
        entry_points@.len() == 0 <==> (r is Err && r->Err_0@ == no_entry_point_message()),
        entry_points@.len() > 0 ==> {
            let text = glsl_text_of(
                valid.module(),
                GLSL_VERSION,
                entry_points@[0].name@,
                entry_points@[0].stage,
            );
            &&& (r is Ok <==> text is Some)
            &&& (r is Ok ==> r->Ok_0@ == text->Some_0)
        },
        r is Err ==> backend_failure(OutputFormat::Glsl, r->Err_0@),
{
    if entry_points.len() == 0 {
        return Err("No entry points found in module".to_owned());
    }
    let result = match write_glsl(valid, GLSL_VERSION, &entry_points[0]) {
        Ok(text) => Ok(text),
        Err(WriterError::Setup(e)) => Err(with_prefix("Failed to create GLSL writer: ", e.as_str())),
        Err(WriterError::Output(e)) => Err(with_prefix("Failed to generate GLSL: ", e.as_str())),
    };
    proof {
        if result is Err {
            let msg = result->Err_0@;
            reveal_strlit("No entry points found in module");
            reveal_strlit("Failed to create GLSL writer: ");
            reveal_strlit("Failed to generate GLSL: ");
            if msg == no_entry_point_message() {
                lemma_prefixes_clash(msg, msg, "Failed to create GLSL writer: "@, 0);
                lemma_prefixes_clash(msg, msg, "Failed to generate GLSL: "@, 0);
                assert(starts_with(msg, msg)) by {
                    assert(msg.subrange(0, msg.len() as int) =~= msg);
                }
            }
        }
    }
    result
}

/// Writes the module as desktop GLSL 3.30, specialised to its first entry
/// point.
pub fn generate_glsl(valid: &ValidModule) -> (r: Result<String, String>)
    ensures
        r is Ok <==> glsl_output(valid.module()) is Some,
        r is Ok ==> r->Ok_0@ == glsl_output(valid.module())->Some_0,
        entry_points_named(valid.module()).len() == 0 ==> r is Err && r->Err_0@
            == no_entry_point_message(),
        r is Err ==> backend_failure(OutputFormat::Glsl, r->Err_0@),
{
    let entry_points = entry_points_of(valid);
    generate_glsl_for(valid, entry_points.as_slice())
}

/// Writes the module as HLSL, one function per entry point.
pub fn generate_hlsl(valid: &ValidModule) -> (r: Result<String, String>)
    ensures
        r is Ok <==> hlsl_output(valid.module()) is Some,
        r is Ok ==> r->Ok_0@ == hlsl_output(valid.module())->Some_0,
        r is Err ==> backend_failure(OutputFormat::Hlsl, r->Err_0@),
{
    let kinds = type_kinds(valid);
    if ray_query_use(kinds.as_slice()).1 {
        return Err(
            with_prefix("Failed to generate HLSL: ", "ray-query vertex positions are not supported"),
        );
    }
    match write_hlsl(valid) {
        Ok(text) => Ok(text),
        Err(e) => Err(with_prefix("Failed to generate HLSL: ", e.as_str())),
    }
}

/// Writes the module as Metal Shading Language 2.0, one function per entry
/// point.
pub fn generate_metal(valid: &ValidModule) -> (r: Result<String, String>)
    ensures
        r is Ok <==> msl_text_of(valid.module(), 2, 0) is Some,
        r is Ok ==> r->Ok_0@ == msl_text_of(valid.module(), 2, 0)->Some_0,
        r is Err ==> backend_failure(OutputFormat::Metal, r->Err_0@),
{
    match write_msl(valid, 2, 0) {
        Ok(text) => Ok(text),
        Err(e) => Err(with_prefix("Failed to generate Metal: ", e.as_str())),
    }
}

/// Runs the backend of `format` on a validated module.
pub fn generate(valid: &ValidModule, format: &OutputFormat) -> (r: Result<OutputData, String>)
    ensures
        r is Ok <==> backend_succeeds(valid.module(), *format),
        r is Ok ==> is_backend_output(valid.module(), *format, r->Ok_0),
        r is Ok ==> output_fits(r->Ok_0, *format),
        r is Err ==> backend_failure(*format, r->Err_0@),
        *format == OutputFormat::Glsl && entry_points_named(valid.module()).len() == 0 ==> r is Err
            && r->Err_0@ == no_entry_point_message(),
{
    match format {
        OutputFormat::Wgsl => Ok(OutputData::Text(generate_wgsl(valid)?)),
        OutputFormat::Spirv => Ok(OutputData::Binary(generate_spirv(valid)?)),
        OutputFormat::SpirvAsm => {
            let bytes = generate_spirv(valid)?;
            let ghost ws = spirv_words_of(valid.module(), 1, 0)->Some_0;
            proof {
                lemma_words_bytes_round_trip(ws);
            }
            let text = disassemble_spirv(bytes.as_slice())?;
            proof {
                assert(has_spirv_header(ws) && spirv_listing(bytes_of_words(ws)) == Some(text@));
            }
            Ok(OutputData::Text(text))
        },
        OutputFormat::Glsl => Ok(OutputData::Text(generate_glsl(valid)?)),
        OutputFormat::Hlsl => Ok(OutputData::Text(generate_hlsl(valid)?)),
        OutputFormat::Metal => Ok(OutputData::Text(generate_metal(valid)?)),
    }
}

/// Validates a parsed module, then runs the backend of `format` on it.
pub fn compile_module(module: naga::Module, format: &OutputFormat) -> (r: Result<OutputData, String>)
    ensures
        !module_validates(module) <==> (r is Err && starts_with(
            r->Err_0@,
            validation_failure_prefix(),
        )),
        r is Ok <==> compiles(module, *format),
        r is Ok ==> is_backend_output(module, *format, r->Ok_0) && output_fits(r->Ok_0, *format),
        r is Err ==> starts_with(r->Err_0@, validation_failure_prefix()) || backend_failure(
            *format,
            r->Err_0@,
        ),
        module_validates(module) && *format == OutputFormat::Glsl && entry_points_named(module).len()
            == 0 ==> r is Err && r->Err_0@ == no_entry_point_message(),
{
    let valid = validate(module)?;
    let r = generate(&valid, format);
    proof {
        if r is Err {
            lemma_failures_distinct(*format, r->Err_0@);
        }
    }
    r
}

/// Compiles WGSL source to `format`. A source that does not parse fails with
/// a parse error, a module that does not validate with a validation error,
/// and no other failure reads as either.
pub fn compile_shader(wgsl_source: &str, format: &OutputFormat) -> (r: Result<OutputData, String>)
    ensures
        ({
            let parsed = parsed_wgsl(wgsl_source@);
            &&& parsed is None <==> (r is Err && starts_with(r->Err_0@, parse_failure_prefix()))
            &&& parsed is Some ==> (!module_validates(parsed->Some_0) <==> (r is Err
                && starts_with(r->Err_0@, validation_failure_prefix())))
            &&& r is Ok <==> parsed is Some && compiles(parsed->Some_0, *format)
            &&& r is Ok ==> is_backend_output(parsed->Some_0, *format, r->Ok_0)
            &&& r is Ok ==> output_fits(r->Ok_0, *format)
            &&& r is Err ==> compile_failure(*format, r->Err_0@)
            &&& parsed is Some && module_validates(parsed->Some_0) && *format == OutputFormat::Glsl
                && entry_points_named(parsed->Some_0).len() == 0 ==> r is Err && r->Err_0@
                == no_entry_point_message()
        }),
{
    let module = match parse_wgsl(wgsl_source) {
        Ok(module) => module,
        Err(e) => return Err(with_prefix("Failed to parse WGSL: ", e.as_str())),
    };
    let r = compile_module(module, format);
    proof {
        if r is Err {
            lemma_failures_distinct(*format, r->Err_0@);
        }
    }
    r
}

/// The text that carries an artifact of `format` across a text-only
/// boundary: base64 of the bytes for binary SPIR-V, the text itself for the
/// other formats.
pub fn encode_output(out: &OutputData, format: &OutputFormat) -> (r: Result<String, String>)
    ensures
        format.is_binary() ==> r is Ok && r->Ok_0@ == base64_of(out.bytes_of()),
        !format.is_binary() ==> out.as_string_result(r),
{
    match format {
        OutputFormat::Spirv => {
            let bytes = out.as_bytes();
            Ok(encode_base64(bytes.as_slice()))
        },
        _ => out.as_string(),
    }
}

/// The outcome of a compilation to `format` as it crosses a text-only
/// boundary: an artifact as `encode_output` gives it, an error unchanged.
pub fn encode_compiled(compiled: Result<OutputData, String>, format: &OutputFormat) -> (r: Result<String, String>)
    ensures
        compiled is Err ==> r is Err && r->Err_0@ == compiled->Err_0@,
        compiled is Ok && format.is_binary() ==> r is Ok && r->Ok_0@ == base64_of(
            compiled->Ok_0.bytes_of(),
        ),
        compiled is Ok && !format.is_binary() ==> compiled->Ok_0.as_string_result(r),
{
    match compiled {
        Ok(out) => encode_output(&out, format),
        Err(e) => Err(e),
    }
}

/// Compiles WGSL source to the format that `format_name` selects, whatever
/// its case, and returns the artifact as text: base64 for binary SPIR-V. A
/// failure of the compilation comes back as it is.
pub fn compile_shader_wasm(wgsl_source: &str, format_name: &str) -> (r: Result<String, String>)
    ensures
        ({
            let format = format_named(lower_of(format_name@));
            let parsed = parsed_wgsl(wgsl_source@);
            &&& parsed is None <==> (r is Err && starts_with(r->Err_0@, parse_failure_prefix()))
            &&& r is Ok <==> parsed is Some && compiles(parsed->Some_0, format)
            &&& r is Ok ==> r->Ok_0@ == boundary_text(parsed->Some_0, format)
            &&& r is Err ==> compile_failure(format, r->Err_0@)
        }),
{
    let format = OutputFormat::from(format_name);
    encode_compiled(compile_shader(wgsl_source, &format), &format)
}

} // verus!
