//! The artifact of one compilation: text, or bytes.
use vstd::prelude::*;
use vstd::utf8::{decode_utf8, encode_utf8, valid_utf8};
use crate::report::{starts_with, with_prefix};
use crate::trusted::string_from_utf8;

verus! {

/// What a compilation produces: text for the textual dialects, bytes for
/// binary SPIR-V.
#[derive(Debug)]
pub enum OutputData {
    Text(String),
    Binary(Vec<u8>),
}

impl OutputData {
    /// The artifact as bytes: the UTF-8 encoding of a text, or the bytes
    /// themselves.
    pub open spec fn bytes_of(self) -> Seq<u8> {
        match self {
            OutputData::Text(s) => encode_utf8(s@),
            OutputData::Binary(b) => b@,
        }
    }

    /// What `as_string` gives back: a text as it is; bytes decoded as UTF-8
    /// where they are valid UTF-8, and otherwise an error that says so.
    pub open spec fn as_string_result(self, r: Result<String, String>) -> bool {
        match self {
            OutputData::Text(s) => r is Ok && r->Ok_0@ == s@,
            OutputData::Binary(b) => {
                &&& (r is Ok <==> valid_utf8(b@))
                &&& (r is Ok ==> r->Ok_0@ == decode_utf8(b@))
                &&& (r is Err ==> starts_with(
                    r->Err_0@,
                    "Binary data cannot be converted to string: "@,
                ))
            },
        }
    }

    /// The artifact as bytes.
    pub fn as_bytes(&self) -> (r: Vec<u8>)
        ensures
            r@ == self.bytes_of(),
    {
        match self {
            OutputData::Text(s) => s.as_str().as_bytes_vec(),
            OutputData::Binary(b) => {
                let copy = b.clone();
                assert(copy@ =~= b@);
                copy
            },
        }
    }

    /// The artifact as text; bytes that are not valid UTF-8 give an error.
    pub fn as_string(&self) -> (r: Result<String, String>)
        ensures
            self.as_string_result(r),
    {
        match self {
            OutputData::Text(s) => Ok(s.clone()),
            OutputData::Binary(b) => {
                let copy = b.clone();
                assert(copy@ =~= b@);
                match string_from_utf8(copy) {
                    Ok(s) => Ok(s),
                    Err(e) => Err(
                        with_prefix("Binary data cannot be converted to string: ", e.as_str()),
                    ),
                }
            },
        }
    }
}

} // verus!
