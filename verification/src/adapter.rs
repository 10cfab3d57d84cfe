//! Native callback adapter: one entry point per native event kind, invoked
//! synchronously by the host on its own UI thread.
//!
//! Each adapter builds an event from the raw host encodings — UTF-8 byte
//! spans for text input, raw scan codes, raw modifier bitmasks — and
//! enqueues it, nothing more: no blocking, no rendering, no application
//! logic, since the host forbids blocking inside these callbacks. Semantic
//! mapping (key tables, modifier flags) is deferred to the worker loop.
//! A send the real channel primitive would block on is reported as not
//! accepted; the queue is never reordered and nothing is dropped.

use crate::channel::Channel;
use crate::protocol::{is_valid_scalar, Event};
use vstd::prelude::*;

verus! {

/// A continuation byte of a UTF-8 sequence.
pub open spec fn is_cont(b: u8) -> bool {
    0x80 <= b && b <= 0xBF
}

/// The allowed second byte of a three-byte UTF-8 sequence: the narrowed
/// ranges after `0xE0` and `0xED` exclude overlong forms and surrogates.
pub open spec fn valid_3byte_second(b0: u8, b1: u8) -> bool {
    if b0 == 0xE0 {
        0xA0 <= b1 && b1 <= 0xBF
    } else if b0 == 0xED {
        0x80 <= b1 && b1 <= 0x9F
    } else {
        is_cont(b1)
    }
}

/// The allowed second byte of a four-byte UTF-8 sequence: the narrowed
/// ranges after `0xF0` and `0xF4` exclude overlong forms and code points
/// past the last plane.
pub open spec fn valid_4byte_second(b0: u8, b1: u8) -> bool {
    if b0 == 0xF0 {
        0x90 <= b1 && b1 <= 0xBF
    } else if b0 == 0xF4 {
        0x80 <= b1 && b1 <= 0x8F
    } else {
        is_cont(b1)
    }
}

/// The code point of the first UTF-8 scalar in a byte span, or `None`
/// when the span does not begin with a well-formed sequence.
pub open spec fn spec_first_scalar(s: Seq<u8>) -> Option<u32> {
    if s.len() >= 1 && s[0] < 0x80 {
        Some(s[0] as u32)
    } else if s.len() >= 2 && 0xC2 <= s[0] && s[0] <= 0xDF && is_cont(s[1]) {
        Some(((s[0] - 0xC0) * 0x40 + (s[1] - 0x80)) as u32)
    } else if s.len() >= 3 && 0xE0 <= s[0] && s[0] <= 0xEF && valid_3byte_second(s[0], s[1])
        && is_cont(s[2]) {
        Some(((s[0] - 0xE0) * 0x1000 + (s[1] - 0x80) * 0x40 + (s[2] - 0x80)) as u32)
    } else if s.len() >= 4 && 0xF0 <= s[0] && s[0] <= 0xF4 && valid_4byte_second(s[0], s[1])
        && is_cont(s[2]) && is_cont(s[3]) {
        Some(
            ((s[0] - 0xF0) * 0x40000 + (s[1] - 0x80) * 0x1000 + (s[2] - 0x80) * 0x40 + (s[3]
                - 0x80)) as u32,
        )
    } else {
        None
    }
}

/// A decoded first scalar is always a valid Unicode scalar value: the
/// narrowed second-byte ranges exclude surrogates and anything past the
/// last plane.
pub proof fn lemma_first_scalar_valid(s: Seq<u8>)
    ensures
        spec_first_scalar(s) matches Some(cp) ==> is_valid_scalar(cp),
{
}

fn is_cont_byte(b: u8) -> (r: bool)
    ensures
        r == is_cont(b),
{
    b >= 0x80 && b <= 0xBF
}

/// Decode the first UTF-8 scalar of a byte span, exactly as given by
/// [`spec_first_scalar`].
pub fn first_scalar(bytes: &Vec<u8>) -> (r: Option<u32>)
    ensures
        r == spec_first_scalar(bytes@),
{
    let n: usize = bytes.len();
    if n >= 1 && bytes[0] < 0x80 {
        Some(bytes[0] as u32)
    } else if n >= 2 && bytes[0] >= 0xC2 && bytes[0] <= 0xDF && is_cont_byte(bytes[1]) {
        let b0 = bytes[0] as u32;
        let b1 = bytes[1] as u32;
        Some((b0 - 0xC0) * 0x40 + (b1 - 0x80))
    } else if n >= 3 && bytes[0] >= 0xE0 && bytes[0] <= 0xEF && ({
        let b0 = bytes[0];
        let b1 = bytes[1];
        if b0 == 0xE0 {
            b1 >= 0xA0 && b1 <= 0xBF
        } else if b0 == 0xED {
            b1 >= 0x80 && b1 <= 0x9F
        } else {
            is_cont_byte(b1)
        }
    }) && is_cont_byte(bytes[2]) {
        let b0 = bytes[0] as u32;
        let b1 = bytes[1] as u32;
        let b2 = bytes[2] as u32;
        Some((b0 - 0xE0) * 0x1000 + (b1 - 0x80) * 0x40 + (b2 - 0x80))
    } else if n >= 4 && bytes[0] >= 0xF0 && bytes[0] <= 0xF4 && ({
        let b0 = bytes[0];
        let b1 = bytes[1];
        if b0 == 0xF0 {
            b1 >= 0x90 && b1 <= 0xBF
        } else if b0 == 0xF4 {
            b1 >= 0x80 && b1 <= 0x8F
        } else {
            is_cont_byte(b1)
        }
    }) && is_cont_byte(bytes[2]) && is_cont_byte(bytes[3]) {
        let b0 = bytes[0] as u32;
        let b1 = bytes[1] as u32;
        let b2 = bytes[2] as u32;
        let b3 = bytes[3] as u32;
        Some((b0 - 0xF0) * 0x40000 + (b1 - 0x80) * 0x1000 + (b2 - 0x80) * 0x40 + (b3 - 0x80))
    } else {
        None
    }
}

/// What a successful adapter call did to the channel: the event was
/// accepted at the back exactly when a slot was free, nothing else moved,
/// and the capacity is untouched.
pub open spec fn spec_sent(pre: Channel, post: Channel, accepted: bool, e: Event) -> bool {
    &&& accepted == pre.has_room()
    &&& accepted ==> post@ == pre@.push(e)
    &&& !accepted ==> post@ == pre@
    &&& post.cap() == pre.cap()
    &&& post.wf()
}

/// Enqueue one event for the worker thread. A rejected send is one the
/// real channel primitive would block the UI thread on until the worker
/// frees a slot.
pub fn send_message(chan: &mut Channel, message: &Event) -> (accepted: bool)
    requires
        old(chan).wf(),
    ensures
        spec_sent(*old(chan), *final(chan), accepted, *message),
{
    chan.send(*message)
}

/// The view became visible.
pub fn miniquad_view_created(chan: &mut Channel) -> (accepted: bool)
    requires
        old(chan).wf(),
    ensures
        spec_sent(*old(chan), *final(chan), accepted, Event::ViewCreated),
{
    send_message(chan, &Event::ViewCreated)
}

/// The view is being torn down.
pub fn miniquad_view_destroyed(chan: &mut Channel) -> (accepted: bool)
    requires
        old(chan).wf(),
    ensures
        spec_sent(*old(chan), *final(chan), accepted, Event::ViewDestroyed),
{
    send_message(chan, &Event::ViewDestroyed)
}

/// The view was resized.
pub fn miniquad_view_changed(chan: &mut Channel, width: i32, height: i32) -> (accepted: bool)
    requires
        old(chan).wf(),
    ensures
        spec_sent(*old(chan), *final(chan), accepted, Event::ViewChanged { width, height }),
{
    send_message(chan, &Event::ViewChanged { width, height })
}

/// The pointer moved; coordinates arrive as 32-bit float bit patterns.
pub fn miniquad_mouse_moved(chan: &mut Channel, x_bits: u32, y_bits: u32) -> (accepted: bool)
    requires
        old(chan).wf(),
    ensures
        spec_sent(*old(chan), *final(chan), accepted, Event::MouseMoved { x_bits, y_bits }),
{
    send_message(chan, &Event::MouseMoved { x_bits, y_bits })
}

/// A mouse button went down.
pub fn miniquad_mouse_button_down(chan: &mut Channel, x_bits: u32, y_bits: u32) -> (accepted:
    bool)
    requires
        old(chan).wf(),
    ensures
        spec_sent(*old(chan), *final(chan), accepted, Event::MouseButtonDown { x_bits, y_bits }),
{
    send_message(chan, &Event::MouseButtonDown { x_bits, y_bits })
}

/// A mouse button went up.
pub fn miniquad_mouse_button_up(chan: &mut Channel, x_bits: u32, y_bits: u32) -> (accepted: bool)
    requires
        old(chan).wf(),
    ensures
        spec_sent(*old(chan), *final(chan), accepted, Event::MouseButtonUp { x_bits, y_bits }),
{
    send_message(chan, &Event::MouseButtonUp { x_bits, y_bits })
}

/// Text input arrived as a UTF-8 byte span with the raw modifier bitmask
/// and a repeat flag. The first scalar of the span is enqueued without
/// interpreting its meaning; a span that does not begin with a
/// well-formed sequence enqueues nothing.
pub fn miniquad_char(chan: &mut Channel, bytes: &Vec<u8>, modifiers: i32, repeat: i32) -> (accepted:
    bool)
    requires
        old(chan).wf(),
    ensures
        spec_first_scalar(bytes@) matches Some(codepoint) ==> spec_sent(
            *old(chan),
            *final(chan),
            accepted,
            Event::Character { codepoint, modifiers, repeat: repeat > 0 },
        ),
        spec_first_scalar(bytes@) is None ==> !accepted && *final(chan) == *old(chan),
{
    match first_scalar(bytes) {
        Some(codepoint) => send_message(
            chan,
            &Event::Character { codepoint, modifiers, repeat: repeat > 0 },
        ),
        None => false,
    }
}

/// A key went down, reported as a raw scan code; translation to a
/// portable key is deferred to the worker loop.
pub fn miniquad_key_down(chan: &mut Channel, keycode: i32, modifiers: i32, repeat: i32) -> (accepted:
    bool)
    requires
        old(chan).wf(),
    ensures
        spec_sent(
            *old(chan),
            *final(chan),
            accepted,
            Event::KeyDown { keycode, modifiers, repeat: repeat > 0 },
        ),
{
    send_message(chan, &Event::KeyDown { keycode, modifiers, repeat: repeat > 0 })
}

/// A key went up, reported as a raw scan code.
pub fn miniquad_key_up(chan: &mut Channel, keycode: i32, modifiers: i32) -> (accepted: bool)
    requires
        old(chan).wf(),
    ensures
        spec_sent(*old(chan), *final(chan), accepted, Event::KeyUp { keycode, modifiers }),
{
    send_message(chan, &Event::KeyUp { keycode, modifiers })
}

} // verus!
