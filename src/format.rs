//! The output formats, their names and their file extensions.
use vstd::prelude::*;
use crate::trusted::{lower_of, lowercase};

verus! {

/// A target dialect of the compiler.
#[derive(Debug, Clone, Copy, PartialEq, Eq, Structural)]
pub enum OutputFormat {
    Wgsl,
    Spirv,
    SpirvAsm,
    Glsl,
    Hlsl,
    Metal,
}

/// Whether `name` is one of the lower-case names that select a format.
pub open spec fn is_format_name(name: Seq<char>) -> bool {
    ||| name == "wgsl"@
    ||| name == "spirv"@
    ||| name == "spirv-asm"@
    ||| name == "spv-asm"@
    ||| name == "glsl"@
    ||| name == "hlsl"@
    ||| name == "metal"@
}

/// The format that a lower-case name selects; any other name selects WGSL.
pub open spec fn format_named(name: Seq<char>) -> OutputFormat {
    if name == "spirv"@ {
        OutputFormat::Spirv
    } else if name == "spirv-asm"@ || name == "spv-asm"@ {
        OutputFormat::SpirvAsm
    } else if name == "glsl"@ {
        OutputFormat::Glsl
    } else if name == "hlsl"@ {
        OutputFormat::Hlsl
    } else if name == "metal"@ {
        OutputFormat::Metal
    } else {
        OutputFormat::Wgsl
    }
}

/// The names that `get_supported_formats` lists, one per format.
pub open spec fn supported_format_names() -> Seq<Seq<char>> {
    seq!["wgsl"@, "spirv"@, "spirv-asm"@, "glsl"@, "hlsl"@, "metal"@]
}

impl OutputFormat {
    /// The conventional file extension of the format.
    pub open spec fn extension_of(self) -> Seq<char> {
        match self {
            OutputFormat::Wgsl => "wgsl"@,
            OutputFormat::Spirv => "spv"@,
            OutputFormat::SpirvAsm => "spvasm"@,
            OutputFormat::Glsl => "glsl"@,
            OutputFormat::Hlsl => "hlsl"@,
            OutputFormat::Metal => "metal"@,
        }
    }

    /// Whether the format's output is bytes rather than text.
    pub open spec fn is_binary(self) -> bool {
        self == OutputFormat::Spirv
    }

    /// The conventional file extension of the format.
    pub fn extension(&self) -> (r: &'static str)
        ensures
            r@ == self.extension_of(),
    {
        match self {
            OutputFormat::Wgsl => "wgsl",
            OutputFormat::Spirv => "spv",
            OutputFormat::SpirvAsm => "spvasm",
            OutputFormat::Glsl => "glsl",
            OutputFormat::Hlsl => "hlsl",
            OutputFormat::Metal => "metal",
        }
    }

    /// The format that an already lower-cased name selects; an unknown name
    /// selects WGSL.
    pub fn from_lowercase(name: &str) -> (r: OutputFormat)
        ensures
            r == format_named(name@),
    {
        let name = name.to_owned();
        if name == "spirv".to_owned() {
            OutputFormat::Spirv
        } else if name == "spirv-asm".to_owned() || name == "spv-asm".to_owned() {
            OutputFormat::SpirvAsm
        } else if name == "glsl".to_owned() {
            OutputFormat::Glsl
        } else if name == "hlsl".to_owned() {
            OutputFormat::Hlsl
        } else if name == "metal".to_owned() {
            OutputFormat::Metal
        } else {
            OutputFormat::Wgsl
        }
    }
}

impl<'a> From<&'a str> for OutputFormat {
    /// The format that a name selects, whatever its case; an unknown name
    /// selects WGSL.
    fn from(name: &'a str) -> (r: OutputFormat)
        ensures
            r == format_named(lower_of(name@)),
    {
        let lower = lowercase(name);
        OutputFormat::from_lowercase(lower.as_str())
    }
}

impl<'a> vstd::std_specs::convert::FromSpecImpl<&'a str> for OutputFormat {
    open spec fn obeys_from_spec() -> bool {
        true
    }

    open spec fn from_spec(name: &'a str) -> OutputFormat {
        format_named(lower_of(name@))
    }
}

/// The names of the supported formats, one per format, in declaration order.
pub fn get_supported_formats() -> (r: Vec<String>)
    ensures
        r@.len() == supported_format_names().len(),
        forall|i: int| 0 <= i < r@.len() ==> #[trigger] r@[i]@ == supported_format_names()[i],
{
    let mut r: Vec<String> = Vec::new();
    r.push("wgsl".to_owned());
    r.push("spirv".to_owned());
    r.push("spirv-asm".to_owned());
    r.push("glsl".to_owned());
    r.push("hlsl".to_owned());
    r.push("metal".to_owned());
    r
}

/// A name is read without regard to case: two names with the same
/// lower-case form select the same format.
pub proof fn lemma_format_ignores_case(a: &str, b: &str)
    requires
        lower_of(a@) == lower_of(b@),
    ensures
        <OutputFormat as vstd::std_specs::convert::FromSpec<&str>>::from_spec(a)
            == <OutputFormat as vstd::std_specs::convert::FromSpec<&str>>::from_spec(b),
{
}

/// A name whose lower-case form is none of the format names selects WGSL,
/// the same format as the name "wgsl" itself.
pub proof fn lemma_unknown_name_selects_wgsl(name: &str)
    requires
        !is_format_name(lower_of(name@)),
    ensures
        <OutputFormat as vstd::std_specs::convert::FromSpec<&str>>::from_spec(name)
            == OutputFormat::Wgsl,
        format_named("wgsl"@) == OutputFormat::Wgsl,
{
    reveal_strlit("wgsl");
    reveal_strlit("spirv");
    reveal_strlit("spirv-asm");
    reveal_strlit("spv-asm");
    reveal_strlit("glsl");
    reveal_strlit("hlsl");
    reveal_strlit("metal");
    let w = "wgsl"@;
    assert(w.len() != "spirv"@.len() && w.len() != "spirv-asm"@.len());
    assert(w.len() != "spv-asm"@.len() && w.len() != "metal"@.len());
    assert(w[0] != "glsl"@[0] && w[0] != "hlsl"@[0]);
}

} // verus!
