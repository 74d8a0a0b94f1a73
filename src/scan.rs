//! A walk over the instruction stream of a SPIR-V module, checking that
//! every `OpConstant` has a declared integer or float type.
use vstd::prelude::*;

verus! {

/// Number of header words before the first instruction.
pub const HEADER_WORDS: usize = 5;

/// Opcode of `OpTypeInt`.
pub const OP_TYPE_INT: u32 = 21;

/// Opcode of `OpTypeFloat`.
pub const OP_TYPE_FLOAT: u32 = 22;

/// Opcode of `OpConstant`.
pub const OP_CONSTANT: u32 = 43;

/// The word count of the instruction whose first word is `w`.
pub open spec fn word_count(w: u32) -> int {
    (w >> 16u32) as int
}

/// The opcode of the instruction whose first word is `w`.
pub open spec fn opcode(w: u32) -> u32 {
    w & 0xffff
}

/// The result ids of the `OpTypeInt` and `OpTypeFloat` instructions met when
/// walking `ws` instruction by instruction from `pos`; the walk stops at the
/// end or at a word count of zero.
pub open spec fn numeric_type_ids(ws: Seq<u32>, pos: int) -> Set<u32>
    decreases ws.len() - pos,
{
    if pos < 0 || pos >= ws.len() || word_count(ws[pos]) <= 0 {
        Set::empty()
    } else {
        let next = pos + word_count(ws[pos]);
        let rest = if next < ws.len() {
            numeric_type_ids(ws, next)
        } else {
            Set::empty()
        };
        let op = opcode(ws[pos]);
        if (op == OP_TYPE_INT || op == OP_TYPE_FLOAT) && pos + 1 < ws.len() {
            rest.insert(ws[pos + 1])
        } else {
            rest
        }
    }
}

/// Whether each `OpConstant` met when walking `ws` from `pos` has a result
/// type in `types`.
pub open spec fn constants_typed_from(ws: Seq<u32>, pos: int, types: Set<u32>) -> bool
    decreases ws.len() - pos,
{
    if pos < 0 || pos >= ws.len() || word_count(ws[pos]) <= 0 {
        true
    } else {
        &&& (opcode(ws[pos]) == OP_CONSTANT && pos + 1 < ws.len() ==> types.contains(ws[pos + 1]))
        &&& pos + word_count(ws[pos]) < ws.len() ==> constants_typed_from(
            ws,
            pos + word_count(ws[pos]),
            types,
        )
    }
}

/// Whether every `OpConstant` of the module's instruction stream has a
/// result type declared by an `OpTypeInt` or `OpTypeFloat` of the stream.
pub open spec fn constants_typed(ws: Seq<u32>) -> bool {
    constants_typed_from(ws, HEADER_WORDS as int, numeric_type_ids(ws, HEADER_WORDS as int))
}

/// Whether the instructions from `pos` on fill `ws` exactly: each has a
/// non-zero word count and the last ends at the end of `ws`.
pub open spec fn fits_from(ws: Seq<u32>, pos: int) -> bool
    decreases ws.len() - pos,
{
    if pos < 0 || pos > ws.len() {
        false
    } else if pos == ws.len() {
        true
    } else if word_count(ws[pos]) <= 0 || pos + word_count(ws[pos]) > ws.len() {
        false
    } else {
        fits_from(ws, pos + word_count(ws[pos]))
    }
}

/// Whether `ws` holds the five header words followed by whole instructions
/// that end exactly at its end.
pub open spec fn instructions_fit(ws: Seq<u32>) -> bool {
    ws.len() >= HEADER_WORDS && fits_from(ws, HEADER_WORDS as int)
}

/// Whether `ws` holds the header and whole instructions that end exactly at
/// its end.
pub fn check_instructions_fit(ws: &[u32]) -> (r: bool)
    ensures
        r == instructions_fit(ws@),
{
    let len = ws.len();
    if len < HEADER_WORDS {
        return false;
    }
    let mut pos: usize = HEADER_WORDS;
    while pos < len
        invariant
            len == ws@.len(),
            HEADER_WORDS <= pos <= len,
            instructions_fit(ws@) == fits_from(ws@, pos as int),
        decreases len - pos,
    {
        let count = (ws[pos] >> 16u32) as usize;
        if count == 0 || count > len - pos {
            return false;
        }
        pos = pos + count;
    }
    true
}

fn contains(v: &Vec<u32>, x: u32) -> (r: bool)
    ensures
        r == v@.contains(x),
{
    let mut i: usize = 0;
    while i < v.len()
        invariant
            i <= v@.len(),
            forall|j: int| 0 <= j < i ==> v@[j] != x,
        decreases v@.len() - i,
    {
        if v[i] == x {
            return true;
        }
        i += 1;
    }
    false
}

/// The position of the instruction after the one at `pos`, or the length of
/// `ws` where the walk ends there.
fn next_instruction(ws: &[u32], pos: usize) -> (r: usize)
    requires
        pos < ws@.len(),
    ensures
        word_count(ws@[pos as int]) == 0 || pos + word_count(ws@[pos as int]) >= ws@.len() ==> r
            == ws@.len(),
        word_count(ws@[pos as int]) != 0 && pos + word_count(ws@[pos as int]) < ws@.len() ==> r
            == pos + word_count(ws@[pos as int]),
{
    let count = (ws[pos] >> 16u32) as usize;
    if count == 0 || count >= ws.len() - pos {
        ws.len()
    } else {
        pos + count
    }
}

/// Whether every `OpConstant` of the module's instruction stream has a
/// declared integer or float result type.
pub fn check_constants_typed(ws: &[u32]) -> (r: bool)
    ensures
        r == constants_typed(ws@),
{
    let len = ws.len();
    let ghost start = HEADER_WORDS as int;
    let mut types: Vec<u32> = Vec::new();
    let mut pos: usize = HEADER_WORDS;
    while pos < len
        invariant
            len == ws@.len(),
            HEADER_WORDS <= pos,
            numeric_type_ids(ws@, start) == types@.to_set() + numeric_type_ids(ws@, pos as int),
        decreases len - pos,
    {
        let w = ws[pos];
        let op = w & 0xffff;
        let next = next_instruction(ws, pos);
        if (op == OP_TYPE_INT || op == OP_TYPE_FLOAT) && pos + 1 < len && word_count_nonzero(w) {
            let ghost old_types = types@;
            types.push(ws[pos + 1]);
            proof {
                old_types.lemma_push_to_set_commute(ws@[pos + 1]);
                assert(types@ == old_types.push(ws@[pos + 1]));
            }
        }
        proof {
            if word_count(w) == 0 {
                assert(numeric_type_ids(ws@, pos as int) == Set::<u32>::empty());
                assert(numeric_type_ids(ws@, next as int) == Set::<u32>::empty());
            }
        }
        assert(numeric_type_ids(ws@, start) =~= types@.to_set() + numeric_type_ids(ws@, next as int));
        pos = next;
    }
    assert(numeric_type_ids(ws@, start) =~= types@.to_set());
    let mut pos: usize = HEADER_WORDS;
    while pos < len
        invariant
            len == ws@.len(),
            HEADER_WORDS <= pos,
            numeric_type_ids(ws@, start) == types@.to_set(),
            constants_typed(ws@) == constants_typed_from(ws@, pos as int, types@.to_set()),
        decreases len - pos,
    {
        let w = ws[pos];
        let next = next_instruction(ws, pos);
        if word_count_nonzero(w) && w & 0xffff == OP_CONSTANT && pos + 1 < len {
            if !contains(&types, ws[pos + 1]) {
                return false;
            }
        }
        pos = next;
    }
    true
}

fn word_count_nonzero(w: u32) -> (r: bool)
    ensures
        r == (word_count(w) != 0),
{
    (w >> 16u32) != 0
}

} // verus!
