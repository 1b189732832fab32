//! The final artifact: its bytes and its permission bits.

use vstd::prelude::*;
use vstd::string::*;
use crate::script::text_bytes;

verus! {

/// The line that makes an executable artifact run itself through the processor.
pub open spec fn shebang_text() -> Seq<char> {
    "#!/usr/bin/env dubna\n"@
}

/// The artifact made from the processor's result: an object library as it
/// is, an executable after the self-invocation line.
pub open spec fn artifact_bytes(stop_at_object: bool, result: Seq<u8>) -> Seq<u8> {
    if stop_at_object {
        result
    } else {
        text_bytes(shebang_text()) + result
    }
}

/// The execute bits for owner, group and others.
pub const EXECUTE_BITS: u32 = 0o111;

/// Builds the artifact from the processor's result.
pub fn render_artifact(stop_at_object: bool, result: &Vec<u8>) -> (r: Vec<u8>)
    ensures
        r@ == artifact_bytes(stop_at_object, result@),
{
    let mut out: Vec<u8> = if stop_at_object {
        Vec::new()
    } else {
        "#!/usr/bin/env dubna\n".as_bytes_vec()
    };
    let ghost start = out@;
    let mut i: usize = 0;
    while i < result.len()
        invariant
            i <= result.len(),
            out@ == start + result@.take(i as int),
        decreases result.len() - i,
    {
        out.push(result[i]);
        assert(result@.take(i + 1) =~= result@.take(i as int).push(result@[i as int]));
        i += 1;
    }
    assert(result@.take(i as int) =~= result@);
    assert(start =~= if stop_at_object { Seq::<u8>::empty() } else { text_bytes(shebang_text()) });
    out
}

/// A file mode with the execute bits set for owner, group and others; no
/// other bit changes.
pub fn executable_mode(mode: u32) -> (r: u32)
    ensures
        r == mode | EXECUTE_BITS,
        r & EXECUTE_BITS == EXECUTE_BITS,
        r & !EXECUTE_BITS == mode & !EXECUTE_BITS,
{
    let r = mode | EXECUTE_BITS;
    assert(r & 0o111u32 == 0o111u32 && r & !0o111u32 == mode & !0o111u32) by (bit_vector)
        requires
            r == mode | 0o111u32,
    ;
    r
}

} // verus!
