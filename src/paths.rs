//! Where a compiled artifact is written.
use vstd::prelude::*;
use crate::format::OutputFormat;
use crate::trusted::{file_stem, stem_of};

verus! {

/// The path that an artifact of `format` compiled from `input` is written
/// to: `output` where one is given, else the input's stem with the format's
/// extension; `None` where neither exists.
pub open spec fn output_path_of(input: Seq<char>, output: Option<Seq<char>>, format: OutputFormat) -> Option<Seq<char>> {
    match output {
        Some(o) => Some(o),
        None => match stem_of(input) {
            Some(stem) => Some(stem + "."@ + format.extension_of()),
            None => None,
        },
    }
}

/// The path to write the artifact to: the given output path, or else the
/// input's file stem followed by the format's extension. An input without a
/// file name and no output path give an error.
pub fn get_output_path(input: &str, output: &Option<String>, format: &OutputFormat) -> (r: Result<String, String>)
    ensures
        ({
            let given = match *output {
                Some(o) => Some(o@),
                None => None,
            };
            match output_path_of(input@, given, *format) {
                Some(path) => r is Ok && r->Ok_0@ == path,
                None => r is Err,
            }
        }),
{
    match output {
        Some(o) => Ok(o.clone()),
        None => match file_stem(input) {
            Some(stem) => {
                let mut path = stem;
                path.append(".");
                path.append(format.extension());
                Ok(path)
            },
            None => Err("Input path has no file name".to_owned()),
        },
    }
}

} // verus!
