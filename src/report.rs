//! Error messages: a fixed prefix that names the failing step, followed by
//! the detail that the step gave.
use vstd::prelude::*;

verus! {

/// Whether `msg` begins with `prefix`.
pub open spec fn starts_with(msg: Seq<char>, prefix: Seq<char>) -> bool {
    prefix.len() <= msg.len() && msg.subrange(0, prefix.len() as int) == prefix
}

/// `prefix` followed by `detail`.
pub fn with_prefix(prefix: &str, detail: &str) -> (r: String)
    ensures
        r@ == prefix@ + detail@,
        starts_with(r@, prefix@),
{
    let mut msg = prefix.to_owned();
    msg.append(detail);
    assert(msg@.subrange(0, prefix@.len() as int) =~= prefix@);
    msg
}

/// Two prefixes that differ at a position that both reach cannot both
/// begin one message.
pub proof fn lemma_prefixes_clash(msg: Seq<char>, p: Seq<char>, q: Seq<char>, i: int)
    requires
        0 <= i < p.len(),
        i < q.len(),
        p[i] != q[i],
    ensures
        !(starts_with(msg, p) && starts_with(msg, q)),
{
    if starts_with(msg, p) && starts_with(msg, q) {
        assert(msg.subrange(0, p.len() as int)[i] == msg.subrange(0, q.len() as int)[i]);
    }
}

} // verus!
