//! A frame given as a length and a text, and its bytes.

use bytes::{Bytes, BytesMut};
use vstd::prelude::*;
use vstd::utf8::encode_utf8;

use crate::buffer::{frozen_bytes, put_i32, put_slice};
use crate::wire::be_bytes;

verus! {

/// A length to announce and the JSON text to send after it.
///
/// The two fields are independent: nothing makes `message_length` the length
/// of `json_string`.
pub struct Protocol {
    pub message_length: i32,
    pub json_string: String,
}

impl Protocol {
    /// What [`Protocol::to_bytes`] gives: the four bytes of the length, most
    /// significant first, then the text as UTF-8.
    pub open spec fn wire_bytes(&self) -> Seq<u8> {
        be_bytes(self.message_length as u32) + encode_utf8(self.json_string@)
    }

    /// The bytes to put on the wire. The length must not be negative, and
    /// the result must be of a size that can be allocated.
    pub fn to_bytes(&self) -> (b: Bytes)
        requires
            0 <= self.message_length,
            4 + self.message_length <= isize::MAX,
            4 + encode_utf8(self.json_string@).len() <= isize::MAX,
        ensures
            frozen_bytes(b) == self.wire_bytes(),
    {
        let mut buf = BytesMut::with_capacity(4 + self.message_length as usize);
        put_i32(&mut buf, self.message_length);
        put_slice(&mut buf, self.json_string.as_str().as_bytes());
        buf.freeze()
    }
}

} // verus!
