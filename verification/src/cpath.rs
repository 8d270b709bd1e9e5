use vstd::prelude::*;

use vstd::string::StringSliceAdditionalSpecFns;

use crate::error::RenderError;

verus! {

/// Whether some byte of the sequence is NUL. A path whose UTF-8 form
/// contains one cannot be handed to the engines, which take
/// NUL-terminated C strings.
pub open spec fn has_nul(bytes: Seq<u8>) -> bool {
    exists|i: int| 0 <= i < bytes.len() && bytes[i] == 0
}

/// Encodes a path into the NUL-terminated byte form the native engines
/// expect: the path's UTF-8 bytes followed by one terminating NUL.
/// A path with an embedded NUL byte cannot be represented that way and
/// is rejected as invalid input before any engine is called.
pub fn nul_terminated(path: &str) -> (r: Result<Vec<u8>, RenderError>)
    ensures
        !has_nul(path.spec_bytes()) ==> (r matches Ok(b) && b@ == path.spec_bytes() + seq![0u8]),
        has_nul(path.spec_bytes()) ==> r == Err::<Vec<u8>, RenderError>(RenderError::InvalidInput),
{
    let bytes = path.as_bytes();
    let n = bytes.len();
    let mut out: Vec<u8> = Vec::new();
    let mut i: usize = 0;
    while i < n
        invariant
            i <= n,
            n == path.spec_bytes().len(),
            bytes@ == path.spec_bytes(),
            out@ == path.spec_bytes().subrange(0, i as int),
            forall|j: int| 0 <= j < i ==> path.spec_bytes()[j] != 0,
        decreases n - i,
    {
        let b = bytes[i];
        if b == 0 {
            return Err(RenderError::InvalidInput);
        }
        out.push(b);
        assert(out@ == path.spec_bytes().subrange(0, i + 1));
        i = i + 1;
    }
    assert(out@ == path.spec_bytes().subrange(0, n as int));
    assert(path.spec_bytes().subrange(0, n as int) == path.spec_bytes());
    out.push(0);
    Ok(out)
}

} // verus!
