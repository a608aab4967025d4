//! The string codec: checked movement of UTF-8 text between owned strings
//! and (pointer, length) regions of arena memory.
//!
//! Decoding validates the bytes instead of trusting the caller, and encoding
//! refuses to overrun the destination buffer's capacity.

use crate::arena::{Arena, ArenaError, lemma_write_read_round_trip, read_bytes, write_bytes};
use vstd::prelude::*;
use vstd::utf8::{
    decode_utf8, encode_utf8, encode_utf8_decode_utf8, encode_utf8_valid_utf8, valid_utf8,
};

verus! {

/// The ways a checked codec operation can fail.
#[derive(Clone, Copy, PartialEq, Eq, Structural, Debug)]
pub enum CodecError {
    /// No live allocation starts at the given pointer.
    NoSuchAllocation,
    /// A live allocation starts at the pointer, but the text does not fit
    /// inside its capacity.
    CapacityExceeded,
    /// The region's bytes are not valid UTF-8.
    InvalidUtf8,
}

/// Relies on String::from_utf8: it succeeds exactly on valid UTF-8 input,
/// and then returns the text that the bytes encode.
#[verifier::external_body]
fn utf8_to_string(bytes: Vec<u8>) -> (r: Option<String>)
    ensures
        r matches Some(s) ==> valid_utf8(bytes@) && s@ == decode_utf8(bytes@),
        r is None ==> !valid_utf8(bytes@),
{
    String::from_utf8(bytes).ok()
}

/// Interprets the `len` bytes at `ptr` as UTF-8 text and returns an owned
/// copy. Fails — instead of corrupting or guessing — when the region is not
/// backed by a live allocation or its bytes are not valid UTF-8.
pub fn decode(arena: &Arena, ptr: u32, len: u32) -> (r: Result<String, CodecError>)
    requires
        arena.wf(),
    ensures
        r is Ok <==> arena.region_live(ptr, len as nat) && valid_utf8(
            read_bytes(arena.contents(), ptr as int, len as int),
        ),
        r matches Ok(s) ==> s@ == decode_utf8(read_bytes(arena.contents(), ptr as int, len as int)),
        r == Err::<String, CodecError>(CodecError::NoSuchAllocation) <==> !arena.ptr_live(ptr),
        r == Err::<String, CodecError>(CodecError::CapacityExceeded) <==> arena.ptr_live(ptr)
            && !arena.region_live(ptr, len as nat),
        r == Err::<String, CodecError>(CodecError::InvalidUtf8) <==> arena.region_live(
            ptr,
            len as nat,
        ) && !valid_utf8(read_bytes(arena.contents(), ptr as int, len as int)),
{
    let bytes = match arena.read(ptr, len) {
        Ok(b) => b,
        Err(ArenaError::NoSuchAllocation) => {
            return Err(CodecError::NoSuchAllocation);
        },
        Err(_) => {
            return Err(CodecError::CapacityExceeded);
        },
    };
    match utf8_to_string(bytes) {
        Some(s) => Ok(s),
        None => Err(CodecError::InvalidUtf8),
    }
}

/// Writes `text`'s UTF-8 bytes at `ptr`, overwriting what was there, and
/// returns the number of bytes written. Fails — leaving memory untouched —
/// when `ptr` is not the start of a live allocation with capacity for the
/// whole text.
pub fn encode_into(arena: &mut Arena, text: &str, ptr: u32) -> (r: Result<u32, CodecError>)
    requires
        old(arena).wf(),
    ensures
        final(arena).wf(),
        final(arena).mem_size() == old(arena).mem_size(),
        final(arena).live_allocs() == old(arena).live_allocs(),
        final(arena).bump() == old(arena).bump(),
        r is Ok <==> old(arena).region_live(ptr, encode_utf8(text@).len()),
        r matches Ok(n) ==> n == encode_utf8(text@).len() && final(arena).contents() == write_bytes(
            old(arena).contents(),
            ptr as int,
            encode_utf8(text@),
        ),
        r is Err ==> final(arena).contents() == old(arena).contents(),
        r == Err::<u32, CodecError>(CodecError::NoSuchAllocation) <==> !old(arena).ptr_live(ptr),
        r == Err::<u32, CodecError>(CodecError::CapacityExceeded) <==> old(arena).ptr_live(ptr)
            && !old(arena).region_live(ptr, encode_utf8(text@).len()),
{
    let bytes: &[u8] = text.as_bytes();
    match arena.write(ptr, bytes) {
        Ok(()) => {
            proof {
                let i = choose|i: int|
                    0 <= i < old(arena).live_allocs().len() && (#[trigger] old(
                        arena,
                    ).live_allocs()[i]).ptr == ptr && encode_utf8(text@).len() <= old(
                        arena,
                    ).live_allocs()[i].size;
                assert(encode_utf8(text@).len() <= u32::MAX as nat);
            }
            Ok(bytes.len() as u32)
        },
        Err(ArenaError::NoSuchAllocation) => Err(CodecError::NoSuchAllocation),
        Err(_) => Err(CodecError::CapacityExceeded),
    }
}

/// Round trip: once a text's encoded bytes are written into memory at `ptr`,
/// that region holds valid UTF-8 and decodes to exactly the original text.
pub proof fn lemma_encode_decode_round_trip(m: Seq<u8>, ptr: int, text: Seq<char>)
    requires
        0 <= ptr,
        ptr + encode_utf8(text).len() <= m.len(),
    ensures
        valid_utf8(
            read_bytes(
                write_bytes(m, ptr, encode_utf8(text)),
                ptr,
                encode_utf8(text).len() as int,
            ),
        ),
        decode_utf8(
            read_bytes(
                write_bytes(m, ptr, encode_utf8(text)),
                ptr,
                encode_utf8(text).len() as int,
            ),
        ) == text,
{
    lemma_write_read_round_trip(m, ptr, encode_utf8(text));
    encode_utf8_valid_utf8(text);
    encode_utf8_decode_utf8(text);
}

} // verus!
