//! The single bounds-checked copy routine both engines use to turn a
//! mapped or locked platform buffer into an owned frame buffer.

use vstd::prelude::*;
use vstd::slice::slice_index_get;

verus! {

/// How many bytes one screen frame occupies: the reported row stride
/// times the height, the stride possibly exceeding width times bytes
/// per pixel.
pub open spec fn frame_len(row_pitch: nat, height: nat) -> nat {
    row_pitch * height
}

/// Copy the first `len` bytes of `data` into an owned buffer; refused
/// when `data` is declared valid for fewer than `len` bytes.
pub fn copy_prefix(data: &[u8], len: usize) -> (r: Option<Vec<u8>>)
    ensures
        len <= data@.len() ==> (r matches Some(v) && v@ == data@.subrange(0, len as int)),
        len > data@.len() ==> r is None,
{
    if len > data.len() {
        return None;
    }
    let mut out: Vec<u8> = Vec::new();
    let mut i: usize = 0;
    while i < len
        invariant
            i <= len,
            len <= data@.len(),
            out@ == data@.subrange(0, i as int),
        decreases len - i,
    {
        out.push(*slice_index_get(data, i));
        proof {
            assert(data@.subrange(0, i + 1) =~= data@.subrange(0, i as int).push(data@[i as int]));
        }
        i = i + 1;
    }
    Some(out)
}

/// Extract one screen frame from a mapped staging buffer, honoring the
/// reported row stride: exactly `row_pitch * height` contiguous
/// row-major bytes. Refused when the mapped buffer is declared valid
/// for fewer bytes than that.
pub fn extract_frame(mapped: &[u8], row_pitch: u32, height: u32) -> (r: Option<Vec<u8>>)
    ensures
        frame_len(row_pitch as nat, height as nat) <= mapped@.len() ==> (r matches Some(v) && v@
            == mapped@.subrange(0, frame_len(row_pitch as nat, height as nat) as int)),
        frame_len(row_pitch as nat, height as nat) > mapped@.len() ==> r is None,
{
    proof {
        assert((row_pitch as u64) * (height as u64) <= 0xFFFF_FFFFu64 * 0xFFFF_FFFFu64) by (nonlinear_arith)
            requires
                row_pitch as u64 <= 0xFFFF_FFFFu64,
                height as u64 <= 0xFFFF_FFFFu64,
        ;
    }
    let total: u64 = (row_pitch as u64) * (height as u64);
    if total > mapped.len() as u64 {
        return None;
    }
    copy_prefix(mapped, total as usize)
}

} // verus!
