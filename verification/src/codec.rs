//! Frames in and out of a growable buffer.
//!
//! The encoder appends one frame per request to the end of a buffer. The
//! decoder takes one frame off the front of a buffer once all of it has
//! arrived, and leaves the buffer alone until then.

use bytes::BytesMut;
use vstd::prelude::*;

use crate::buffer::{buffer_bytes, contents, put_slice, put_u32, read_u32};
use crate::error::BridgeError;
use crate::json::{json_text, to_text};
use crate::request::{wire_value, Request, RequestView};
use crate::response::{decode_payload, Response};
use crate::wire::{after_frame, first_payload, frame_of, has_frame, MAX_PAYLOAD, PREFIX_LEN};

verus! {

/// Turns requests into frames.
pub struct RequestCodec;

/// Turns frames into responses.
pub struct ResponseCodec;

/// The payload of the frame that carries a request: the compact JSON text of
/// its wire object, as UTF-8.
pub open spec fn request_text(r: RequestView) -> Seq<u8> {
    json_text(wire_value(r))
}

/// Whether a buffer that holds `held` bytes can take a frame with `payload`
/// more bytes of payload. A buffer never grows past `isize::MAX` bytes.
pub open spec fn has_room(held: nat, payload: nat) -> bool {
    held + 4 + payload <= isize::MAX
}

/// The length prefix for a payload of `len` bytes. Fails with
/// `FrameTooLarge` exactly where `len` does not fit the four bytes of the
/// prefix.
pub fn frame_length(len: usize) -> (r: Result<u32, BridgeError>)
    ensures
        match r {
            Ok(n) => n == len,
            Err(e) => e == BridgeError::FrameTooLarge && len > u32::MAX,
        },
{
    if len > MAX_PAYLOAD {
        Err(BridgeError::FrameTooLarge)
    } else {
        Ok(len as u32)
    }
}

/// Appends the frame of `payload` to `dst`. Fails with `FrameTooLarge`
/// exactly where the payload is longer than the prefix can announce, and
/// then leaves `dst` as it was.
pub fn write_frame(payload: &[u8], dst: &mut BytesMut) -> (r: Result<(), BridgeError>)
    requires
        payload@.len() <= u32::MAX ==> has_room(buffer_bytes(*old(dst)).len(), payload@.len()),
    ensures
        match r {
            Ok(_) => payload@.len() <= u32::MAX && buffer_bytes(*final(dst)) == buffer_bytes(
                *old(dst),
            ) + frame_of(payload@),
            Err(e) => e == BridgeError::FrameTooLarge && payload@.len() > u32::MAX && buffer_bytes(
                *final(dst),
            ) == buffer_bytes(*old(dst)),
        },
{
    let len = payload.len();
    match frame_length(len) {
        Ok(prefix) => {
            dst.reserve(PREFIX_LEN + len);
            put_u32(dst, prefix);
            put_slice(dst, payload);
            assert(buffer_bytes(*dst) == buffer_bytes(*old(dst)) + frame_of(payload@));
            Ok(())
        },
        Err(e) => Err(e),
    }
}

/// Takes the first frame off `src` and returns its payload, if the whole
/// frame is there. Otherwise returns nothing and leaves `src` as it was.
pub fn take_frame(src: &mut BytesMut) -> (r: Option<BytesMut>)
    ensures
        match r {
            Some(payload) => has_frame(buffer_bytes(*old(src))) && buffer_bytes(payload)
                == first_payload(buffer_bytes(*old(src))) && buffer_bytes(*final(src))
                == after_frame(buffer_bytes(*old(src))),
            None => !has_frame(buffer_bytes(*old(src))) && buffer_bytes(*final(src))
                == buffer_bytes(*old(src)),
        },
{
    let held = src.len();
    if held < PREFIX_LEN {
        return None;
    }
    let declared = read_u32(contents(src)) as usize;
    if declared > held - PREFIX_LEN {
        return None;
    }
    let mut frame = src.split_to(PREFIX_LEN + declared);
    let payload = frame.split_off(PREFIX_LEN);
    proof {
        let all = buffer_bytes(*old(src));
        assert(all.subrange(0, 4 + declared).subrange(4, 4 + declared) == all.subrange(
            4,
            4 + declared,
        ));
    }
    Some(payload)
}

impl RequestCodec {
    /// Whether `dst` can take a frame of any admissible size, which is what
    /// [`RequestCodec::encode`] asks of it.
    pub fn can_encode_into(dst: &BytesMut) -> (ok: bool)
        ensures
            ok == has_room(buffer_bytes(*dst).len(), u32::MAX as nat),
    {
        let held = dst.len();
        let limit: usize = isize::MAX as usize;
        limit >= MAX_PAYLOAD && limit - MAX_PAYLOAD >= PREFIX_LEN && held <= limit - MAX_PAYLOAD
            - PREFIX_LEN
    }

    /// Appends the frame of `item` to `dst`: the four-byte length of its
    /// JSON text, then the text.
    ///
    /// Fails with `FrameTooLarge` exactly where the text is longer than the
    /// prefix can announce; `dst` is then left as it was. The buffer must be
    /// able to take a frame of any admissible size.
    pub fn encode(&mut self, item: Request, dst: &mut BytesMut) -> (r: Result<(), BridgeError>)
        requires
            has_room(buffer_bytes(*old(dst)).len(), u32::MAX as nat),
        ensures
            match r {
                Ok(_) => request_text(item@).len() <= u32::MAX && buffer_bytes(*final(dst))
                    == buffer_bytes(*old(dst)) + frame_of(request_text(item@)),
                Err(e) => e == BridgeError::FrameTooLarge && request_text(item@).len() > u32::MAX
                    && buffer_bytes(*final(dst)) == buffer_bytes(*old(dst)),
            },
    {
        let text = to_text(&item.to_json());
        write_frame(text.as_slice(), dst)
    }
}

impl ResponseCodec {
    /// Takes the first frame off `src`, if all of it has arrived, and parses
    /// its payload.
    ///
    /// While fewer bytes are buffered than the four of the prefix plus those
    /// it announces, the answer is `Ok(None)` and `src` is left as it was.
    /// Otherwise exactly one frame is taken off `src`, and the answer is the
    /// response with its routing address, or `MalformedFrame` where the
    /// payload is none.
    pub fn decode(&mut self, src: &mut BytesMut) -> (r: Result<
        Option<(Response, String)>,
        BridgeError,
    >)
        ensures
            match r {
                Ok(None) => !has_frame(buffer_bytes(*old(src))) && buffer_bytes(*final(src))
                    == buffer_bytes(*old(src)),
                Ok(Some((response, address))) => has_frame(buffer_bytes(*old(src)))
                    && buffer_bytes(*final(src)) == after_frame(buffer_bytes(*old(src)))
                    && decode_payload(first_payload(buffer_bytes(*old(src)))) == Some(
                    (response@, address@),
                ),
                Err(e) => e == BridgeError::MalformedFrame && has_frame(buffer_bytes(*old(src)))
                    && buffer_bytes(*final(src)) == after_frame(buffer_bytes(*old(src)))
                    && decode_payload(first_payload(buffer_bytes(*old(src)))) is None,
            },
    {
        match take_frame(src) {
            Some(payload) => match Response::from_slice(contents(&payload)) {
                Ok(found) => Ok(Some(found)),
                Err(e) => Err(e),
            },
            None => Ok(None),
        }
    }
}

} // verus!
