//! Verifying an encode: what was decoded from the output must be, byte for
//! byte, what went in.

use vstd::prelude::*;
use crate::job::VerifyFailure;

verus! {

/// What comparing the decoded output with what went in comes to: success
/// where the two are the same bytes, else the mismatch of the kind of
/// encode that was made.
pub open spec fn verdict(input: Seq<u8>, output: Seq<u8>, is_transcoded: bool) -> Result<
    (),
    VerifyFailure,
> {
    if input == output {
        Ok(())
    } else if is_transcoded {
        Err(VerifyFailure::JpegMismatch)
    } else {
        Err(VerifyFailure::PixelMismatch)
    }
}

/// Whether two buffers hold the same bytes.
pub fn same_bytes(a: &[u8], b: &[u8]) -> (r: bool)
    ensures
        r == (a@ == b@),
{
    if a.len() != b.len() {
        return false;
    }
    let mut i: usize = 0;
    while i < a.len()
        invariant
            a@.len() == b@.len(),
            i <= a@.len(),
            forall|k: int| 0 <= k < i ==> a@[k] == b@[k],
        decreases a@.len() - i,
    {
        if a[i] != b[i] {
            return false;
        }
        i += 1;
    }
    assert(a@ =~= b@);
    true
}

/// Compares what was decoded from the output of an encode with what went
/// in. For a transcode `input_buffer` is the JPEG bitstream and
/// `output_buffer` the bitstream reconstructed from the output; for an
/// encode from pixels they are the pixels that were submitted and the
/// pixels decoded from the output.
pub fn verify_single(input_buffer: &[u8], output_buffer: &[u8], is_transcoded: bool) -> (r: Result<
    (),
    VerifyFailure,
>)
    ensures
        r == verdict(input_buffer@, output_buffer@, is_transcoded),
{
    if same_bytes(input_buffer, output_buffer) {
        Ok(())
    } else if is_transcoded {
        Err(VerifyFailure::JpegMismatch)
    } else {
        Err(VerifyFailure::PixelMismatch)
    }
}

} // verus!
