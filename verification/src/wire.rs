//! The frame layout: a four-byte big-endian length, then that many bytes.

use vstd::prelude::*;

verus! {

/// Number of bytes in the length prefix of a frame.
pub const PREFIX_LEN: usize = 4;

/// Largest payload a frame can announce.
pub const MAX_PAYLOAD: usize = 0xffff_ffff;

/// The four bytes of `n`, most significant first.
pub open spec fn be_bytes(n: u32) -> Seq<u8> {
    seq![
        (n / 0x100_0000) as u8,
        ((n / 0x1_0000) % 0x100) as u8,
        ((n / 0x100) % 0x100) as u8,
        (n % 0x100) as u8,
    ]
}

/// The number that the first four bytes of `s` spell, most significant first.
pub open spec fn be_value(s: Seq<u8>) -> int
    recommends
        s.len() >= 4,
{
    s[0] * 0x100_0000 + s[1] * 0x1_0000 + s[2] * 0x100 + s[3]
}

/// The frame that carries `payload`.
pub open spec fn frame_of(payload: Seq<u8>) -> Seq<u8>
    recommends
        payload.len() <= u32::MAX,
{
    be_bytes(payload.len() as u32) + payload
}

/// Whether `buf` starts with a whole frame: its prefix is there, and so are
/// all the bytes that the prefix announces.
pub open spec fn has_frame(buf: Seq<u8>) -> bool {
    buf.len() >= 4 && buf.len() >= 4 + be_value(buf)
}

/// The payload of the frame at the start of `buf`.
pub open spec fn first_payload(buf: Seq<u8>) -> Seq<u8>
    recommends
        has_frame(buf),
{
    buf.subrange(4, 4 + be_value(buf))
}

/// What is left of `buf` behind its first frame.
pub open spec fn after_frame(buf: Seq<u8>) -> Seq<u8>
    recommends
        has_frame(buf),
{
    buf.subrange(4 + be_value(buf), buf.len() as int)
}

/// Reading a big-endian prefix gives back the number that was written.
pub proof fn lemma_be_round_trip(n: u32)
    ensures
        be_bytes(n).len() == 4,
        be_value(be_bytes(n)) == n,
{
}

/// The prefix only depends on the first four bytes.
pub proof fn lemma_be_value_prefix(s: Seq<u8>, t: Seq<u8>)
    requires
        s.len() >= 4,
        t.len() >= 4,
        s.subrange(0, 4) == t.subrange(0, 4),
    ensures
        be_value(s) == be_value(t),
{
    assert forall|i: int| 0 <= i < 4 implies s[i] == t[i] by {
        assert(s[i] == s.subrange(0, 4)[i]);
        assert(t[i] == t.subrange(0, 4)[i]);
    }
}

/// Framing is reversible: a buffer that starts with the frame of `payload`
/// holds a whole frame, its payload is `payload` byte for byte, and what
/// follows the frame is untouched.
pub proof fn lemma_frame_round_trip(payload: Seq<u8>, rest: Seq<u8>)
    requires
        payload.len() <= u32::MAX,
    ensures
        has_frame(frame_of(payload) + rest),
        first_payload(frame_of(payload) + rest) == payload,
        after_frame(frame_of(payload) + rest) == rest,
{
    let n = payload.len() as u32;
    let buf = frame_of(payload) + rest;
    lemma_be_round_trip(n);
    assert(buf.subrange(0, 4) == be_bytes(n).subrange(0, 4));
    lemma_be_value_prefix(buf, be_bytes(n));
    assert(buf.subrange(4, 4 + n) == payload);
    assert(buf.subrange(4 + n, buf.len() as int) == rest);
}

/// Decoding can wait: a frame that is whole stays the same frame when more
/// bytes arrive behind it, and those bytes end up behind what was left.
pub proof fn lemma_frame_stable(buf: Seq<u8>, more: Seq<u8>)
    requires
        has_frame(buf),
    ensures
        has_frame(buf + more),
        first_payload(buf + more) == first_payload(buf),
        after_frame(buf + more) == after_frame(buf) + more,
{
    assert((buf + more).subrange(0, 4) == buf.subrange(0, 4));
    lemma_be_value_prefix(buf + more, buf);
    let end = 4 + be_value(buf);
    assert((buf + more).subrange(4, end) == buf.subrange(4, end));
    assert((buf + more).subrange(end, (buf + more).len() as int) == buf.subrange(
        end,
        buf.len() as int,
    ) + more);
}

/// No proper prefix of a frame is a whole frame, wherever it is cut.
pub proof fn lemma_partial_frame(payload: Seq<u8>, cut: int)
    requires
        payload.len() <= u32::MAX,
        0 <= cut < 4 + payload.len(),
    ensures
        !has_frame(frame_of(payload).subrange(0, cut)),
{
    let n = payload.len() as u32;
    let part = frame_of(payload).subrange(0, cut);
    if cut >= 4 {
        lemma_be_round_trip(n);
        assert(part.subrange(0, 4) == be_bytes(n).subrange(0, 4));
        lemma_be_value_prefix(part, be_bytes(n));
    }
}

} // verus!
