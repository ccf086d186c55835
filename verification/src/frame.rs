//! Codec for the relay wire frame: a fixed 8-byte header (the 4-byte ASCII
//! tag `"TUN "` followed by a big-endian 32-bit payload length) and then the
//! payload bytes. The reader clamps the declared length at
//! [`MAX_PAYLOAD_LEN`] bytes.

use vstd::prelude::*;

verus! {

/// Longest payload a decoder will accept from one frame; a longer declared
/// length is clamped to this many bytes.
pub const MAX_PAYLOAD_LEN: usize = 65535;

/// Error produced by the frame decoder.
#[derive(Clone, Copy, Debug, PartialEq, Eq, Structural)]
pub enum FramingError {
    /// The first four header bytes are not the frame tag.
    BadTag,
    /// Fewer bytes were available than the header, or the (clamped) declared
    /// payload length, requires.
    Truncated,
}

/// The four tag bytes that open every frame header: ASCII `"TUN "`.
pub open spec fn frame_tag() -> Seq<u8> {
    seq![84u8, 85u8, 78u8, 32u8]
}

/// The tag bytes are exactly the UTF-8 (here: ASCII) bytes of the literal
/// `"TUN "`.
pub proof fn lemma_tag_is_tun_literal()
    ensures
        frame_tag() == vstd::utf8::encode_utf8("TUN "@),
{
    reveal_strlit("TUN ");
    assert(vstd::utf8::is_ascii_chars("TUN "@));
    vstd::utf8::is_ascii_chars_encode_utf8("TUN "@);
    assert(frame_tag() =~= vstd::utf8::encode_utf8("TUN "@));
}

/// The four big-endian bytes of a 32-bit value, most significant first.
pub open spec fn be32_bytes(n: u32) -> Seq<u8> {
    seq![
        ((n >> 24) & 0xff) as u8,
        ((n >> 16) & 0xff) as u8,
        ((n >> 8) & 0xff) as u8,
        (n & 0xff) as u8,
    ]
}

/// The 32-bit value read big-endian from four bytes.
pub open spec fn be32_value(s: Seq<u8>) -> u32
    recommends
        s.len() == 4,
{
    (((s[0] as u32) << 24) | ((s[1] as u32) << 16) | ((s[2] as u32) << 8) | (s[3] as u32)) as u32
}

/// Writing a 32-bit value big-endian and reading it back is the identity.
pub proof fn lemma_be32_round_trip(n: u32)
    ensures
        be32_value(be32_bytes(n)) == n,
{
    let b0 = ((n >> 24) & 0xff) as u8;
    let b1 = ((n >> 16) & 0xff) as u8;
    let b2 = ((n >> 8) & 0xff) as u8;
    let b3 = (n & 0xff) as u8;
    assert((((b0 as u32) << 24) | ((b1 as u32) << 16) | ((b2 as u32) << 8) | (b3 as u32)) as u32
        == n) by (bit_vector)
        requires
            b0 == ((n >> 24) & 0xff) as u8,
            b1 == ((n >> 16) & 0xff) as u8,
            b2 == ((n >> 8) & 0xff) as u8,
            b3 == (n & 0xff) as u8,
    ;
}

/// The bytes of one encoded frame: tag, big-endian payload length, payload.
pub open spec fn spec_encode(p: Seq<u8>) -> Seq<u8>
    recommends
        p.len() <= u32::MAX,
{
    frame_tag() + be32_bytes(p.len() as u32) + p
}

/// What decoding a byte sequence yields: the payload on success, or the
/// error that ends an uplink pump. A declared length over
/// [`MAX_PAYLOAD_LEN`] is clamped, not rejected; any bytes past the clamped
/// payload are left untouched.
pub open spec fn spec_decode(b: Seq<u8>) -> Result<Seq<u8>, FramingError> {
    if b.len() < 8 {
        Err(FramingError::Truncated)
    } else if b.subrange(0, 4) != frame_tag() {
        Err(FramingError::BadTag)
    } else {
        let declared = be32_value(b.subrange(4, 8)) as int;
        let take = if declared > MAX_PAYLOAD_LEN { MAX_PAYLOAD_LEN as int } else { declared };
        if b.len() < 8 + take {
            Err(FramingError::Truncated)
        } else {
            Ok(b.subrange(8, 8 + take))
        }
    }
}

/// Copies `v[from..to]` into a fresh vector.
pub fn copy_range<T: Copy>(v: &Vec<T>, from: usize, to: usize) -> (r: Vec<T>)
    requires
        from <= to <= v@.len(),
    ensures
        r@ == v@.subrange(from as int, to as int),
{
    let mut out: Vec<T> = Vec::new();
    let mut i: usize = from;
    while i < to
        invariant
            from <= i <= to <= v@.len(),
            out@ == v@.subrange(from as int, i as int),
        decreases to - i,
    {
        out.push(v[i]);
        proof {
            assert(out@ =~= v@.subrange(from as int, (i + 1) as int));
        }
        i = i + 1;
    }
    out
}

/// Reads a 32-bit value big-endian from four bytes.
fn be32_from(b0: u8, b1: u8, b2: u8, b3: u8) -> (n: u32)
    ensures
        n == be32_value(seq![b0, b1, b2, b3]),
{
    ((b0 as u32) << 24) | ((b1 as u32) << 16) | ((b2 as u32) << 8) | (b3 as u32)
}

/// Encodes one frame: the tag, the payload length as four big-endian bytes,
/// then the payload itself, as one contiguous buffer.
pub fn encode_frame(payload: &Vec<u8>) -> (r: Vec<u8>)
    requires
        payload@.len() <= u32::MAX,
    ensures
        r@ == spec_encode(payload@),
{
    let l: u32 = payload.len() as u32;
    let mut out: Vec<u8> = Vec::new();
    out.push(84);
    out.push(85);
    out.push(78);
    out.push(32);
    proof {
        assert((l >> 24) & 0xff < 256 && (l >> 16) & 0xff < 256 && (l >> 8) & 0xff < 256 && l
            & 0xff < 256) by (bit_vector);
    }
    out.push(((l >> 24) & 0xff) as u8);
    out.push(((l >> 16) & 0xff) as u8);
    out.push(((l >> 8) & 0xff) as u8);
    out.push((l & 0xff) as u8);
    proof {
        assert(out@ =~= frame_tag() + be32_bytes(l));
    }
    let mut i: usize = 0;
    while i < payload.len()
        invariant
            i <= payload@.len(),
            payload@.len() <= u32::MAX,
            l == payload@.len() as u32,
            out@ == frame_tag() + be32_bytes(l) + payload@.subrange(0, i as int),
        decreases payload@.len() - i,
    {
        out.push(payload[i]);
        proof {
            assert(out@ =~= frame_tag() + be32_bytes(l) + payload@.subrange(0, (i + 1) as int));
        }
        i = i + 1;
    }
    proof {
        assert(payload@.subrange(0, payload@.len() as int) =~= payload@);
    }
    out
}

/// Decodes one frame from the front of `buf`, exactly as [`spec_decode`]
/// describes: the tag is checked first, the declared length is clamped at
/// [`MAX_PAYLOAD_LEN`], and missing bytes are reported as truncation.
pub fn decode_frame(buf: &Vec<u8>) -> (r: Result<Vec<u8>, FramingError>)
    ensures
        match spec_decode(buf@) {
            Ok(p) => r matches Ok(v) && v@ == p,
            Err(e) => r matches Err(e2) && e2 == e,
        },
{
    if buf.len() < 8 {
        return Err(FramingError::Truncated);
    }
    if buf[0] != 84 || buf[1] != 85 || buf[2] != 78 || buf[3] != 32 {
        proof {
            assert(buf@.subrange(0, 4)[0] == buf@[0]);
            assert(buf@.subrange(0, 4)[1] == buf@[1]);
            assert(buf@.subrange(0, 4)[2] == buf@[2]);
            assert(buf@.subrange(0, 4)[3] == buf@[3]);
        }
        return Err(FramingError::BadTag);
    }
    proof {
        assert(buf@.subrange(0, 4) =~= frame_tag());
    }
    let declared: u32 = be32_from(buf[4], buf[5], buf[6], buf[7]);
    proof {
        assert(seq![buf@[4], buf@[5], buf@[6], buf@[7]] =~= buf@.subrange(4, 8));
    }
    let take: usize = if declared as usize > MAX_PAYLOAD_LEN {
        MAX_PAYLOAD_LEN
    } else {
        declared as usize
    };
    if buf.len() < 8 + take {
        return Err(FramingError::Truncated);
    }
    let payload = copy_range(buf, 8, 8 + take);
    Ok(payload)
}

/// Decoding an encoded frame returns the original payload, for every
/// payload that fits in one frame.
pub proof fn lemma_frame_round_trip(p: Seq<u8>)
    requires
        p.len() <= MAX_PAYLOAD_LEN,
    ensures
        spec_decode(spec_encode(p)) matches Ok(q) && q == p,
{
    let b = spec_encode(p);
    assert(b.len() == 8 + p.len());
    assert(b.subrange(0, 4) =~= frame_tag());
    assert(b.subrange(4, 8) =~= be32_bytes(p.len() as u32));
    lemma_be32_round_trip(p.len() as u32);
    assert(b.subrange(8, 8 + p.len() as int) =~= p);
}

/// A header whose first four bytes are not the tag is rejected with
/// [`FramingError::BadTag`], whatever length it declares.
pub proof fn lemma_bad_tag_rejected(b: Seq<u8>)
    requires
        b.len() >= 8,
        b.subrange(0, 4) != frame_tag(),
    ensures
        spec_decode(b) matches Err(e) && e == FramingError::BadTag,
{
}

} // verus!

