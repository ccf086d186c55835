//! Step logic of the two directional pumps that serve one relay stream.
//! The caller owns the stream and the shared interface and performs every
//! read and write; these functions make the per-iteration decisions: what
//! a received header means, and what to send for bytes read from the
//! interface.

use vstd::prelude::*;
use crate::frame::{
    be32_value, copy_range, encode_frame, frame_tag, spec_encode, FramingError, MAX_PAYLOAD_LEN,
};

verus! {

/// The payload length an uplink pump must read next, after the declared
/// length is clamped at [`MAX_PAYLOAD_LEN`].
pub open spec fn clamped_len(declared: u32) -> int {
    if declared > MAX_PAYLOAD_LEN {
        MAX_PAYLOAD_LEN as int
    } else {
        declared as int
    }
}

/// One uplink decision: from the eight header bytes just read, either the
/// number of payload bytes to read next — the declared length, clamped at
/// [`MAX_PAYLOAD_LEN`] — or the framing error that ends the pump. The
/// payload itself then goes to the interface verbatim; clamping does not
/// drain the excess of an oversize frame, so such a frame leaves the
/// stream desynchronized.
pub fn uplink_step(hdr: &Vec<u8>) -> (r: Result<usize, FramingError>)
    requires
        hdr@.len() == 8,
    ensures
        hdr@.subrange(0, 4) == frame_tag() ==> (r matches Ok(n) && n == clamped_len(
            be32_value(hdr@.subrange(4, 8)),
        )),
        hdr@.subrange(0, 4) != frame_tag() ==> (r matches Err(e) && e == FramingError::BadTag),
{
    if hdr[0] != 84 || hdr[1] != 85 || hdr[2] != 78 || hdr[3] != 32 {
        proof {
            assert(hdr@.subrange(0, 4)[0] == hdr@[0]);
            assert(hdr@.subrange(0, 4)[1] == hdr@[1]);
            assert(hdr@.subrange(0, 4)[2] == hdr@[2]);
            assert(hdr@.subrange(0, 4)[3] == hdr@[3]);
        }
        return Err(FramingError::BadTag);
    }
    proof {
        assert(hdr@.subrange(0, 4) =~= frame_tag());
    }
    let declared: u32 = ((hdr[4] as u32) << 24) | ((hdr[5] as u32) << 16) | ((hdr[6] as u32) << 8)
        | (hdr[7] as u32);
    proof {
        assert(seq![hdr@[4], hdr@[5], hdr@[6], hdr@[7]] =~= hdr@.subrange(4, 8));
    }
    if declared as usize > MAX_PAYLOAD_LEN {
        Ok(MAX_PAYLOAD_LEN)
    } else {
        Ok(declared as usize)
    }
}

/// One downlink decision: `count` bytes were just read from the interface
/// into `buf`. An empty read forwards nothing and the pump polls again;
/// otherwise the bytes read are sent as one encoded frame.
pub fn downlink_step(buf: &Vec<u8>, count: usize) -> (r: Option<Vec<u8>>)
    requires
        count <= buf@.len(),
        buf@.len() <= u32::MAX,
    ensures
        count == 0 ==> r is None,
        count > 0 ==> (r matches Some(f) && f@ == spec_encode(buf@.subrange(0, count as int))),
{
    if count == 0 {
        return None;
    }
    let packet = copy_range(buf, 0, count);
    Some(encode_frame(&packet))
}

} // verus!
