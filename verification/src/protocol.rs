//! Wire protocol: a tagged-union event serialized into a fixed-size byte
//! buffer.
//!
//! The leading byte of the buffer is the tag and uniquely determines the
//! payload layout; integer fields follow in little-endian order. Mouse
//! coordinates are 32-bit floating-point values on the host side; they
//! travel through this subsystem untouched as their IEEE-754 bit patterns
//! (`u32` fields), so the buffer round-trips them exactly.

use vstd::bytes::{
    lemma_auto_spec_u32_to_from_le_bytes, spec_u32_from_le_bytes, spec_u32_to_le_bytes,
    u32_from_le_bytes, u32_to_le_bytes,
};
use vstd::prelude::*;
use vstd::slice::slice_subrange;

verus! {

/// Total size in bytes of the fixed wire buffer: one tag byte plus the
/// largest payload (two 32-bit fields and one flag byte).
pub const MSG_SIZE: usize = 10;

pub const TAG_VIEW_CHANGED: u8 = 0;

pub const TAG_VIEW_CREATED: u8 = 1;

pub const TAG_VIEW_DESTROYED: u8 = 2;

pub const TAG_MOUSE_MOVED: u8 = 3;

pub const TAG_MOUSE_BUTTON_DOWN: u8 = 4;

pub const TAG_MOUSE_BUTTON_UP: u8 = 5;

pub const TAG_CHARACTER: u8 = 6;

pub const TAG_KEY_DOWN: u8 = 7;

pub const TAG_KEY_UP: u8 = 8;

/// One native occurrence crossing the thread boundary.
///
/// Mouse coordinates are carried as the bit patterns of the host's 32-bit
/// floating-point values; `Character` carries a raw 32-bit code point that
/// is only validated on decode.
#[derive(Clone, Copy, Debug, PartialEq, Eq, Structural)]
pub enum Event {
    ViewChanged { width: i32, height: i32 },
    ViewCreated,
    ViewDestroyed,
    MouseMoved { x_bits: u32, y_bits: u32 },
    MouseButtonDown { x_bits: u32, y_bits: u32 },
    MouseButtonUp { x_bits: u32, y_bits: u32 },
    Character { codepoint: u32, modifiers: i32, repeat: bool },
    KeyDown { keycode: i32, modifiers: i32, repeat: bool },
    KeyUp { keycode: i32, modifiers: i32 },
}

/// Why a wire buffer failed to decode.
///
/// An `UnknownTag` can only arise from protocol corruption, since this
/// subsystem is the sole producer of tags.
#[derive(Clone, Copy, Debug, PartialEq, Eq, Structural)]
pub enum DecodeError {
    UnknownTag,
    InvalidCodepoint,
}

/// A code point is a Unicode scalar value: below the surrogate range, or
/// between it and the last plane.
pub open spec fn is_valid_scalar(cp: u32) -> bool {
    cp < 0xD800 || (0xE000 <= cp && cp <= 0x10FFFF)
}

/// An event is in schema when any code point it carries is a valid scalar.
pub open spec fn event_wf(e: Event) -> bool {
    match e {
        Event::Character { codepoint, .. } => is_valid_scalar(codepoint),
        _ => true,
    }
}

/// The two's-complement bit pattern of a 32-bit signed integer.
pub open spec fn spec_i32_bits(x: i32) -> u32 {
    if x >= 0 {
        x as u32
    } else {
        (x + 0x1_0000_0000int) as u32
    }
}

/// The 32-bit signed integer whose two's-complement bit pattern is `u`.
pub open spec fn spec_i32_of_bits(u: u32) -> i32 {
    if u <= 0x7FFF_FFFFu32 {
        u as i32
    } else {
        (u - 0x1_0000_0000int) as i32
    }
}

pub proof fn lemma_i32_bits_roundtrip(x: i32)
    ensures
        spec_i32_of_bits(spec_i32_bits(x)) == x,
{
}

pub fn i32_bits(x: i32) -> (r: u32)
    ensures
        r == spec_i32_bits(x),
{
    if x >= 0 {
        x as u32
    } else {
        ((x as i64) + 0x1_0000_0000i64) as u32
    }
}

pub fn i32_of_bits(u: u32) -> (r: i32)
    ensures
        r == spec_i32_of_bits(u),
{
    if u <= 0x7FFF_FFFF {
        u as i32
    } else {
        ((u as i64) - 0x1_0000_0000i64) as i32
    }
}

pub fn valid_scalar(cp: u32) -> (r: bool)
    ensures
        r == is_valid_scalar(cp),
{
    cp < 0xD800 || (0xE000 <= cp && cp <= 0x10FFFF)
}

/// `n` zero bytes of padding.
pub open spec fn zero_bytes(n: nat) -> Seq<u8> {
    Seq::new(n, |i: int| 0u8)
}

/// The single byte that carries a flag.
pub open spec fn spec_bool_byte(b: bool) -> u8 {
    if b {
        1u8
    } else {
        0u8
    }
}

/// The exact contents of the wire buffer for an event: the tag byte, the
/// payload fields in little-endian order, and zero padding up to `MSG_SIZE`.
pub open spec fn spec_encode(e: Event) -> Seq<u8> {
    match e {
        Event::ViewChanged { width, height } => seq![TAG_VIEW_CHANGED]
            + spec_u32_to_le_bytes(spec_i32_bits(width)) + spec_u32_to_le_bytes(
            spec_i32_bits(height),
        ) + zero_bytes(1),
        Event::ViewCreated => seq![TAG_VIEW_CREATED] + zero_bytes(9),
        Event::ViewDestroyed => seq![TAG_VIEW_DESTROYED] + zero_bytes(9),
        Event::MouseMoved { x_bits, y_bits } => seq![TAG_MOUSE_MOVED] + spec_u32_to_le_bytes(x_bits)
            + spec_u32_to_le_bytes(y_bits) + zero_bytes(1),
        Event::MouseButtonDown { x_bits, y_bits } => seq![TAG_MOUSE_BUTTON_DOWN]
            + spec_u32_to_le_bytes(x_bits) + spec_u32_to_le_bytes(y_bits) + zero_bytes(1),
        Event::MouseButtonUp { x_bits, y_bits } => seq![TAG_MOUSE_BUTTON_UP]
            + spec_u32_to_le_bytes(x_bits) + spec_u32_to_le_bytes(y_bits) + zero_bytes(1),
        Event::Character { codepoint, modifiers, repeat } => seq![TAG_CHARACTER]
            + spec_u32_to_le_bytes(codepoint) + spec_u32_to_le_bytes(spec_i32_bits(modifiers))
            + seq![spec_bool_byte(repeat)],
        Event::KeyDown { keycode, modifiers, repeat } => seq![TAG_KEY_DOWN] + spec_u32_to_le_bytes(
            spec_i32_bits(keycode),
        ) + spec_u32_to_le_bytes(spec_i32_bits(modifiers)) + seq![spec_bool_byte(repeat)],
        Event::KeyUp { keycode, modifiers } => seq![TAG_KEY_UP] + spec_u32_to_le_bytes(
            spec_i32_bits(keycode),
        ) + spec_u32_to_le_bytes(spec_i32_bits(modifiers)) + zero_bytes(1),
    }
}

/// The event a wire buffer denotes, or the reason it denotes none: an
/// unrecognized tag, or a `Character` payload that is not a valid scalar.
pub open spec fn spec_decode(s: Seq<u8>) -> Result<Event, DecodeError>
    recommends
        s.len() == MSG_SIZE,
{
    if s[0] == TAG_VIEW_CHANGED {
        Ok(
            Event::ViewChanged {
                width: spec_i32_of_bits(spec_u32_from_le_bytes(s.subrange(1, 5))),
                height: spec_i32_of_bits(spec_u32_from_le_bytes(s.subrange(5, 9))),
            },
        )
    } else if s[0] == TAG_VIEW_CREATED {
        Ok(Event::ViewCreated)
    } else if s[0] == TAG_VIEW_DESTROYED {
        Ok(Event::ViewDestroyed)
    } else if s[0] == TAG_MOUSE_MOVED {
        Ok(
            Event::MouseMoved {
                x_bits: spec_u32_from_le_bytes(s.subrange(1, 5)),
                y_bits: spec_u32_from_le_bytes(s.subrange(5, 9)),
            },
        )
    } else if s[0] == TAG_MOUSE_BUTTON_DOWN {
        Ok(
            Event::MouseButtonDown {
                x_bits: spec_u32_from_le_bytes(s.subrange(1, 5)),
                y_bits: spec_u32_from_le_bytes(s.subrange(5, 9)),
            },
        )
    } else if s[0] == TAG_MOUSE_BUTTON_UP {
        Ok(
            Event::MouseButtonUp {
                x_bits: spec_u32_from_le_bytes(s.subrange(1, 5)),
                y_bits: spec_u32_from_le_bytes(s.subrange(5, 9)),
            },
        )
    } else if s[0] == TAG_CHARACTER {
        let codepoint = spec_u32_from_le_bytes(s.subrange(1, 5));
        if is_valid_scalar(codepoint) {
            Ok(
                Event::Character {
                    codepoint,
                    modifiers: spec_i32_of_bits(spec_u32_from_le_bytes(s.subrange(5, 9))),
                    repeat: s[9] != 0,
                },
            )
        } else {
            Err(DecodeError::InvalidCodepoint)
        }
    } else if s[0] == TAG_KEY_DOWN {
        Ok(
            Event::KeyDown {
                keycode: spec_i32_of_bits(spec_u32_from_le_bytes(s.subrange(1, 5))),
                modifiers: spec_i32_of_bits(spec_u32_from_le_bytes(s.subrange(5, 9))),
                repeat: s[9] != 0,
            },
        )
    } else if s[0] == TAG_KEY_UP {
        Ok(
            Event::KeyUp {
                keycode: spec_i32_of_bits(spec_u32_from_le_bytes(s.subrange(1, 5))),
                modifiers: spec_i32_of_bits(spec_u32_from_le_bytes(s.subrange(5, 9))),
            },
        )
    } else {
        Err(DecodeError::UnknownTag)
    }
}

fn push_u32(buf: &mut Vec<u8>, x: u32)
    ensures
        final(buf)@ == old(buf)@ + spec_u32_to_le_bytes(x),
{
    let mut bytes = u32_to_le_bytes(x);
    buf.append(&mut bytes);
}

fn push_i32(buf: &mut Vec<u8>, x: i32)
    ensures
        final(buf)@ == old(buf)@ + spec_u32_to_le_bytes(spec_i32_bits(x)),
{
    push_u32(buf, i32_bits(x));
}

fn pad_to_size(buf: &mut Vec<u8>)
    requires
        old(buf)@.len() <= MSG_SIZE,
    ensures
        final(buf)@ == old(buf)@ + zero_bytes((MSG_SIZE - old(buf)@.len()) as nat),
        final(buf)@.len() == MSG_SIZE,
{
    while buf.len() < MSG_SIZE
        invariant
            old(buf)@.len() <= buf@.len() <= MSG_SIZE,
            buf@ == old(buf)@ + zero_bytes((buf@.len() - old(buf)@.len()) as nat),
        decreases MSG_SIZE - buf@.len(),
    {
        buf.push(0);
        proof {
            assert(buf@ =~= old(buf)@ + zero_bytes((buf@.len() - old(buf)@.len()) as nat));
        }
    }
    proof {
        assert(buf@ =~= old(buf)@ + zero_bytes((MSG_SIZE - old(buf)@.len()) as nat));
    }
}

/// Serialize an event into the fixed-size wire buffer. Every in-schema
/// event encodes; the result is exactly `spec_encode`.
pub fn encode(e: &Event) -> (buf: Vec<u8>)
    ensures
        buf@ == spec_encode(*e),
        buf@.len() == MSG_SIZE,
{
    proof {
        lemma_auto_spec_u32_to_from_le_bytes();
    }
    let mut buf: Vec<u8> = Vec::new();
    match e {
        Event::ViewChanged { width, height } => {
            buf.push(TAG_VIEW_CHANGED);
            push_i32(&mut buf, *width);
            push_i32(&mut buf, *height);
        },
        Event::ViewCreated => {
            buf.push(TAG_VIEW_CREATED);
        },
        Event::ViewDestroyed => {
            buf.push(TAG_VIEW_DESTROYED);
        },
        Event::MouseMoved { x_bits, y_bits } => {
            buf.push(TAG_MOUSE_MOVED);
            push_u32(&mut buf, *x_bits);
            push_u32(&mut buf, *y_bits);
        },
        Event::MouseButtonDown { x_bits, y_bits } => {
            buf.push(TAG_MOUSE_BUTTON_DOWN);
            push_u32(&mut buf, *x_bits);
            push_u32(&mut buf, *y_bits);
        },
        Event::MouseButtonUp { x_bits, y_bits } => {
            buf.push(TAG_MOUSE_BUTTON_UP);
            push_u32(&mut buf, *x_bits);
            push_u32(&mut buf, *y_bits);
        },
        Event::Character { codepoint, modifiers, repeat } => {
            buf.push(TAG_CHARACTER);
            push_u32(&mut buf, *codepoint);
            push_i32(&mut buf, *modifiers);
            buf.push(if *repeat { 1 } else { 0 });
        },
        Event::KeyDown { keycode, modifiers, repeat } => {
            buf.push(TAG_KEY_DOWN);
            push_i32(&mut buf, *keycode);
            push_i32(&mut buf, *modifiers);
            buf.push(if *repeat { 1 } else { 0 });
        },
        Event::KeyUp { keycode, modifiers } => {
            buf.push(TAG_KEY_UP);
            push_i32(&mut buf, *keycode);
            push_i32(&mut buf, *modifiers);
        },
    }
    pad_to_size(&mut buf);
    proof {
        assert(buf@ =~= spec_encode(*e));
    }
    buf
}

fn read_u32(buf: &Vec<u8>, i: usize) -> (r: u32)
    requires
        i + 4 <= buf@.len(),
    ensures
        r == spec_u32_from_le_bytes(buf@.subrange(i as int, i as int + 4)),
{
    let n: usize = buf.len();
    let s = slice_subrange(buf.as_slice(), i, i + 4);
    u32_from_le_bytes(s)
}

fn read_i32(buf: &Vec<u8>, i: usize) -> (r: i32)
    requires
        i + 4 <= buf@.len(),
    ensures
        r == spec_i32_of_bits(spec_u32_from_le_bytes(buf@.subrange(i as int, i as int + 4))),
{
    i32_of_bits(read_u32(buf, i))
}

/// Deserialize a wire buffer. Fails with `UnknownTag` on an unrecognized
/// leading byte and with `InvalidCodepoint` on a `Character` payload whose
/// code point is not a Unicode scalar value; the result is exactly
/// `spec_decode`.
pub fn decode(buf: &Vec<u8>) -> (r: Result<Event, DecodeError>)
    requires
        buf@.len() == MSG_SIZE,
    ensures
        r == spec_decode(buf@),
{
    let tag = buf[0];
    if tag == TAG_VIEW_CHANGED {
        Ok(Event::ViewChanged { width: read_i32(buf, 1), height: read_i32(buf, 5) })
    } else if tag == TAG_VIEW_CREATED {
        Ok(Event::ViewCreated)
    } else if tag == TAG_VIEW_DESTROYED {
        Ok(Event::ViewDestroyed)
    } else if tag == TAG_MOUSE_MOVED {
        Ok(Event::MouseMoved { x_bits: read_u32(buf, 1), y_bits: read_u32(buf, 5) })
    } else if tag == TAG_MOUSE_BUTTON_DOWN {
        Ok(Event::MouseButtonDown { x_bits: read_u32(buf, 1), y_bits: read_u32(buf, 5) })
    } else if tag == TAG_MOUSE_BUTTON_UP {
        Ok(Event::MouseButtonUp { x_bits: read_u32(buf, 1), y_bits: read_u32(buf, 5) })
    } else if tag == TAG_CHARACTER {
        let codepoint = read_u32(buf, 1);
        if valid_scalar(codepoint) {
            Ok(
                Event::Character {
                    codepoint,
                    modifiers: read_i32(buf, 5),
                    repeat: buf[9] != 0,
                },
            )
        } else {
            Err(DecodeError::InvalidCodepoint)
        }
    } else if tag == TAG_KEY_DOWN {
        Ok(
            Event::KeyDown {
                keycode: read_i32(buf, 1),
                modifiers: read_i32(buf, 5),
                repeat: buf[9] != 0,
            },
        )
    } else if tag == TAG_KEY_UP {
        Ok(Event::KeyUp { keycode: read_i32(buf, 1), modifiers: read_i32(buf, 5) })
    } else {
        Err(DecodeError::UnknownTag)
    }
}

/// Round trip: decoding the encoding of any in-schema event yields that
/// event back, for every variant.
pub proof fn lemma_encode_decode(e: Event)
    requires
        event_wf(e),
    ensures
        spec_encode(e).len() == MSG_SIZE,
        spec_decode(spec_encode(e)) == Ok::<Event, DecodeError>(e),
{
    lemma_auto_spec_u32_to_from_le_bytes();
    let s = spec_encode(e);
    match e {
        Event::ViewChanged { width, height } => {
            assert(s.subrange(1, 5) =~= spec_u32_to_le_bytes(spec_i32_bits(width)));
            assert(s.subrange(5, 9) =~= spec_u32_to_le_bytes(spec_i32_bits(height)));
            lemma_i32_bits_roundtrip(width);
            lemma_i32_bits_roundtrip(height);
        },
        Event::ViewCreated => {
        },
        Event::ViewDestroyed => {
        },
        Event::MouseMoved { x_bits, y_bits } => {
            assert(s.subrange(1, 5) =~= spec_u32_to_le_bytes(x_bits));
            assert(s.subrange(5, 9) =~= spec_u32_to_le_bytes(y_bits));
        },
        Event::MouseButtonDown { x_bits, y_bits } => {
            assert(s.subrange(1, 5) =~= spec_u32_to_le_bytes(x_bits));
            assert(s.subrange(5, 9) =~= spec_u32_to_le_bytes(y_bits));
        },
        Event::MouseButtonUp { x_bits, y_bits } => {
            assert(s.subrange(1, 5) =~= spec_u32_to_le_bytes(x_bits));
            assert(s.subrange(5, 9) =~= spec_u32_to_le_bytes(y_bits));
        },
        Event::Character { codepoint, modifiers, repeat } => {
            assert(s.subrange(1, 5) =~= spec_u32_to_le_bytes(codepoint));
            assert(s.subrange(5, 9) =~= spec_u32_to_le_bytes(spec_i32_bits(modifiers)));
            lemma_i32_bits_roundtrip(modifiers);
            assert(s[9] == spec_bool_byte(repeat));
        },
        Event::KeyDown { keycode, modifiers, repeat } => {
            assert(s.subrange(1, 5) =~= spec_u32_to_le_bytes(spec_i32_bits(keycode)));
            assert(s.subrange(5, 9) =~= spec_u32_to_le_bytes(spec_i32_bits(modifiers)));
            lemma_i32_bits_roundtrip(keycode);
            lemma_i32_bits_roundtrip(modifiers);
            assert(s[9] == spec_bool_byte(repeat));
        },
        Event::KeyUp { keycode, modifiers } => {
            assert(s.subrange(1, 5) =~= spec_u32_to_le_bytes(spec_i32_bits(keycode)));
            assert(s.subrange(5, 9) =~= spec_u32_to_le_bytes(spec_i32_bits(modifiers)));
            lemma_i32_bits_roundtrip(keycode);
            lemma_i32_bits_roundtrip(modifiers);
        },
    }
}

/// An unrecognized tag always fails with the distinct `UnknownTag` error;
/// no buffer with such a tag decodes to an event.
pub proof fn lemma_unknown_tag_rejected(s: Seq<u8>)
    requires
        s.len() == MSG_SIZE,
        s[0] > TAG_KEY_UP,
    ensures
        spec_decode(s) == Err::<Event, DecodeError>(DecodeError::UnknownTag),
{
}

/// The numeric code of an event's variant, as carried beside the buffer by
/// the host channel primitive.
pub open spec fn spec_event_code(e: Event) -> i32 {
    match e {
        Event::ViewChanged { .. } => 0,
        Event::ViewCreated => 1,
        Event::ViewDestroyed => 2,
        Event::MouseMoved { .. } => 3,
        Event::MouseButtonDown { .. } => 4,
        Event::MouseButtonUp { .. } => 5,
        Event::Character { .. } => 6,
        Event::KeyDown { .. } => 7,
        Event::KeyUp { .. } => 8,
    }
}

pub fn event_code(e: &Event) -> (code: i32)
    ensures
        code == spec_event_code(*e),
{
    match e {
        Event::ViewChanged { .. } => 0,
        Event::ViewCreated => 1,
        Event::ViewDestroyed => 2,
        Event::MouseMoved { .. } => 3,
        Event::MouseButtonDown { .. } => 4,
        Event::MouseButtonUp { .. } => 5,
        Event::Character { .. } => 6,
        Event::KeyDown { .. } => 7,
        Event::KeyUp { .. } => 8,
    }
}

/// The placeholder event denoted by a bare variant code, with every payload
/// field zeroed (code point `0x61`, the letter `a`, for `Character`).
pub open spec fn spec_event_from_code(code: i32) -> Result<Event, DecodeError> {
    if code == 0 {
        Ok(Event::ViewChanged { width: 0, height: 0 })
    } else if code == 1 {
        Ok(Event::ViewCreated)
    } else if code == 2 {
        Ok(Event::ViewDestroyed)
    } else if code == 3 {
        Ok(Event::MouseMoved { x_bits: 0, y_bits: 0 })
    } else if code == 4 {
        Ok(Event::MouseButtonDown { x_bits: 0, y_bits: 0 })
    } else if code == 5 {
        Ok(Event::MouseButtonUp { x_bits: 0, y_bits: 0 })
    } else if code == 6 {
        Ok(Event::Character { codepoint: 0x61, modifiers: 0, repeat: false })
    } else if code == 7 {
        Ok(Event::KeyDown { keycode: 0, modifiers: 0, repeat: false })
    } else if code == 8 {
        Ok(Event::KeyUp { keycode: 0, modifiers: 0 })
    } else {
        Err(DecodeError::UnknownTag)
    }
}

/// A placeholder event for a bare variant code, or `UnknownTag` for a code
/// outside the schema.
pub fn event_from_code(code: i32) -> (r: Result<Event, DecodeError>)
    ensures
        r == spec_event_from_code(code),
{
    if code == 0 {
        Ok(Event::ViewChanged { width: 0, height: 0 })
    } else if code == 1 {
        Ok(Event::ViewCreated)
    } else if code == 2 {
        Ok(Event::ViewDestroyed)
    } else if code == 3 {
        Ok(Event::MouseMoved { x_bits: 0, y_bits: 0 })
    } else if code == 4 {
        Ok(Event::MouseButtonDown { x_bits: 0, y_bits: 0 })
    } else if code == 5 {
        Ok(Event::MouseButtonUp { x_bits: 0, y_bits: 0 })
    } else if code == 6 {
        Ok(Event::Character { codepoint: 0x61, modifiers: 0, repeat: false })
    } else if code == 7 {
        Ok(Event::KeyDown { keycode: 0, modifiers: 0, repeat: false })
    } else if code == 8 {
        Ok(Event::KeyUp { keycode: 0, modifiers: 0 })
    } else {
        Err(DecodeError::UnknownTag)
    }
}

/// The leading tag byte of an encoded event agrees with its variant code.
pub proof fn lemma_code_matches_tag(e: Event)
    ensures
        spec_encode(e)[0] == spec_event_code(e) as u8,
{
    lemma_auto_spec_u32_to_from_le_bytes();
}

} // verus!
