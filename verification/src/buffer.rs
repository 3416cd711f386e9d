//! Marshalling produced data into a host-provided output buffer.
//!
//! The host owns every output buffer and dictates its size. Produced
//! data is either copied whole into the buffer's front, or — when the
//! buffer is too small — refused without writing a single byte into it.

use crate::status::PSA_ERROR_BUFFER_TOO_SMALL;
use crate::status::PSA_SUCCESS;
use vstd::prelude::*;

verus! {

/// Copy produced data into the front of the host's output buffer.
///
/// Returns the number of bytes written when the data fits; the bytes
/// past the data keep their old values and the buffer keeps its length.
/// When the data does not fit, nothing at all is written and `None`
/// says so.
pub fn copy_into_buffer(data: &Vec<u8>, output: &mut Vec<u8>) -> (written: Option<usize>)
    ensures
        final(output)@.len() == old(output)@.len(),
        match written {
            Some(n) => n == data@.len() && data@.len() <= old(output)@.len() && final(output)@
                =~= data@ + old(output)@.skip(data@.len() as int),
            None => data@.len() > old(output)@.len() && final(output)@ == old(output)@,
        },
{
    if data.len() > output.len() {
        return None;
    }
    let ghost orig = output@;
    let mut i: usize = 0;
    while i < data.len()
        invariant
            i <= data@.len(),
            data@.len() <= orig.len(),
            output@.len() == orig.len(),
            forall|j: int| 0 <= j < i ==> output@[j] == data@[j],
            forall|j: int| i <= j < orig.len() ==> output@[j] == orig[j],
        decreases data@.len() - i,
    {
        let b: u8 = data[i];
        output.set(i, b);
        i = i + 1;
    }
    proof {
        assert(output@ =~= data@ + orig.skip(data@.len() as int));
    }
    Some(data.len())
}

/// Deliver produced data into the host's output buffer, with the status
/// the host must see.
///
/// The data fits — success, its length, the copy done at the buffer's
/// front with the bytes past it untouched — or it does not, and the
/// host gets exactly the buffer-too-small status with a zero length and
/// not a single byte written.
pub fn deliver_into_buffer(data: &Vec<u8>, output: &mut Vec<u8>) -> (r: (i32, usize))
    ensures
        final(output)@.len() == old(output)@.len(),
        data@.len() <= old(output)@.len() ==> r.0 == PSA_SUCCESS && r.1 == data@.len()
            && final(output)@ =~= data@ + old(output)@.skip(data@.len() as int),
        data@.len() > old(output)@.len() ==> r.0 == PSA_ERROR_BUFFER_TOO_SMALL && r.1 == 0
            && final(output)@ == old(output)@,
{
    match copy_into_buffer(data, output) {
        Some(written) => (PSA_SUCCESS, written),
        None => (PSA_ERROR_BUFFER_TOO_SMALL, 0),
    }
}

} // verus!
