//! Packing of a gamepad snapshot into the fixed 12-byte wire frame.
//!
//! Byte layout of the frame:
//! byte 0: d-pad up/down/left/right, start, back, left thumb, right thumb
//!         at bits 0..=7; byte 1: left shoulder, right shoulder, guide at
//!         bits 0..=2, A, B, X, Y at bits 4..=7 (bit 3 unused); byte 2/3:
//!         triggers as signed bytes; bytes 4..=11: the four stick axes as
//!         little-endian signed 16-bit values.

use vstd::prelude::*;

verus! {

/// Semantic gamepad state as sampled by the input producer.
#[derive(Clone, Copy, Debug, PartialEq, Eq, Structural)]
pub struct XboxGamepad {
    pub dpad_up: bool,
    pub dpad_down: bool,
    pub dpad_left: bool,
    pub dpad_right: bool,
    pub btn_start: bool,
    pub btn_back: bool,
    pub btn_left_thumb: bool,
    pub btn_right_thumb: bool,
    pub btn_left_shoulder: bool,
    pub btn_right_shoulder: bool,
    pub btn_guide: bool,
    pub btn_a: bool,
    pub btn_b: bool,
    pub btn_x: bool,
    pub btn_y: bool,
    pub trigger_left: i8,
    pub trigger_right: i8,
    pub thumb_left_x: i16,
    pub thumb_left_y: i16,
    pub thumb_right_x: i16,
    pub thumb_right_y: i16,
}

/// Binary encoding of the controller input state: exactly 12 bytes.
#[derive(Clone, Copy, Debug, PartialEq, Eq)]
pub struct ControllerData(pub [u8; 12]);

impl View for ControllerData {
    type V = Seq<u8>;

    open spec fn view(&self) -> Seq<u8> {
        self.0@
    }
}

/// A single button rendered as its bit within a bitmask byte.
pub open spec fn button_flag(pressed: bool, bit: u8) -> u8 {
    if pressed {
        1u8 << bit
    } else {
        0u8
    }
}

/// Eight booleans packed into one byte, least significant bit first.
pub open spec fn pack_bits(
    b0: bool,
    b1: bool,
    b2: bool,
    b3: bool,
    b4: bool,
    b5: bool,
    b6: bool,
    b7: bool,
) -> u8 {
    button_flag(b0, 0) | button_flag(b1, 1) | button_flag(b2, 2) | button_flag(b3, 3)
        | button_flag(b4, 4) | button_flag(b5, 5) | button_flag(b6, 6) | button_flag(b7, 7)
}

/// Frame byte 0: d-pad and the start/back/thumb-click buttons.
pub open spec fn buttons_low(g: XboxGamepad) -> u8 {
    pack_bits(
        g.dpad_up,
        g.dpad_down,
        g.dpad_left,
        g.dpad_right,
        g.btn_start,
        g.btn_back,
        g.btn_left_thumb,
        g.btn_right_thumb,
    )
}

/// Frame byte 1: shoulders, guide and the face buttons; bit 3 stays clear.
pub open spec fn buttons_high(g: XboxGamepad) -> u8 {
    pack_bits(
        g.btn_left_shoulder,
        g.btn_right_shoulder,
        g.btn_guide,
        false,
        g.btn_a,
        g.btn_b,
        g.btn_x,
        g.btn_y,
    )
}

/// Low byte of a little-endian signed 16-bit value.
pub open spec fn le_lo(v: i16) -> u8 {
    ((v as u16) & 0xFF) as u8
}

/// High byte of a little-endian signed 16-bit value.
pub open spec fn le_hi(v: i16) -> u8 {
    ((v as u16) >> 8) as u8
}

/// The full 12-byte frame for a snapshot.
pub open spec fn encode_spec(g: XboxGamepad) -> Seq<u8> {
    seq![
        buttons_low(g),
        buttons_high(g),
        g.trigger_left as u8,
        g.trigger_right as u8,
        le_lo(g.thumb_left_x),
        le_hi(g.thumb_left_x),
        le_lo(g.thumb_left_y),
        le_hi(g.thumb_left_y),
        le_lo(g.thumb_right_x),
        le_hi(g.thumb_right_x),
        le_lo(g.thumb_right_y),
        le_hi(g.thumb_right_y),
    ]
}

/// Maps a button to its bit, as the wire format wants it.
fn map_button(pressed: bool, bit: u8) -> (r: u8)
    requires
        bit < 8,
    ensures
        r == button_flag(pressed, bit),
{
    if pressed {
        1u8 << bit
    } else {
        0u8
    }
}

/// The d-pad/start/back/thumb bitmask byte.
fn encode_buttons_low(g: &XboxGamepad) -> (r: u8)
    ensures
        r == buttons_low(*g),
{
    map_button(g.dpad_up, 0) | map_button(g.dpad_down, 1) | map_button(g.dpad_left, 2)
        | map_button(g.dpad_right, 3) | map_button(g.btn_start, 4) | map_button(g.btn_back, 5)
        | map_button(g.btn_left_thumb, 6) | map_button(g.btn_right_thumb, 7)
}

/// The shoulder/guide/face-button bitmask byte; bit 3 stays clear.
fn encode_buttons_high(g: &XboxGamepad) -> (r: u8)
    ensures
        r == buttons_high(*g),
{
    map_button(g.btn_left_shoulder, 0) | map_button(g.btn_right_shoulder, 1) | map_button(
        g.btn_guide,
        2,
    ) | map_button(false, 3) | map_button(g.btn_a, 4) | map_button(g.btn_b, 5) | map_button(
        g.btn_x,
        6,
    ) | map_button(g.btn_y, 7)
}

/// A signed 16-bit axis split into its two little-endian bytes.
fn encode_axis(v: i16) -> (r: (u8, u8))
    ensures
        r.0 == le_lo(v),
        r.1 == le_hi(v),
{
    (((v as u16) & 0xFF) as u8, ((v as u16) >> 8) as u8)
}

impl XboxGamepad {
    /// Packs the snapshot into its 12-byte wire frame. Total and pure: every
    /// snapshot has exactly one encoding.
    pub fn encode(&self) -> (r: ControllerData)
        ensures
            r@ == encode_spec(*self),
            r@.len() == 12,
    {
        let b0 = encode_buttons_low(self);
        let b1 = encode_buttons_high(self);
        let t0: u8 = self.trigger_left as u8;
        let t1: u8 = self.trigger_right as u8;
        let lx = encode_axis(self.thumb_left_x);
        let ly = encode_axis(self.thumb_left_y);
        let rx = encode_axis(self.thumb_right_x);
        let ry = encode_axis(self.thumb_right_y);
        let arr: [u8; 12] = [b0, b1, t0, t1, lx.0, lx.1, ly.0, ly.1, rx.0, rx.1, ry.0, ry.1];
        let r = ControllerData(arr);
        proof {
            assert(r@ =~= encode_spec(*self));
        }
        r
    }
}

/// Reads one button back out of a bitmask byte of the frame.
pub open spec fn frame_bit(frame: Seq<u8>, byte: int, bit: u8) -> bool {
    (frame[byte] >> bit) & 1 == 1
}

/// Reads a trigger back out of its frame byte.
pub open spec fn decode_i8(b: u8) -> i8 {
    b as i8
}

/// Reads an axis back out of its two little-endian frame bytes.
pub open spec fn decode_i16(lo: u8, hi: u8) -> i16 {
    ((lo as u16) | ((hi as u16) << 8)) as i16
}

proof fn lemma_pack_bits_recovers(
    b0: bool,
    b1: bool,
    b2: bool,
    b3: bool,
    b4: bool,
    b5: bool,
    b6: bool,
    b7: bool,
)
    by (bit_vector)
    ensures
        ((pack_bits(b0, b1, b2, b3, b4, b5, b6, b7) >> 0u8) & 1 == 1) == b0,
        ((pack_bits(b0, b1, b2, b3, b4, b5, b6, b7) >> 1u8) & 1 == 1) == b1,
        ((pack_bits(b0, b1, b2, b3, b4, b5, b6, b7) >> 2u8) & 1 == 1) == b2,
        ((pack_bits(b0, b1, b2, b3, b4, b5, b6, b7) >> 3u8) & 1 == 1) == b3,
        ((pack_bits(b0, b1, b2, b3, b4, b5, b6, b7) >> 4u8) & 1 == 1) == b4,
        ((pack_bits(b0, b1, b2, b3, b4, b5, b6, b7) >> 5u8) & 1 == 1) == b5,
        ((pack_bits(b0, b1, b2, b3, b4, b5, b6, b7) >> 6u8) & 1 == 1) == b6,
        ((pack_bits(b0, b1, b2, b3, b4, b5, b6, b7) >> 7u8) & 1 == 1) == b7,
{
}

proof fn lemma_trigger_recovers(x: i8)
    by (bit_vector)
    ensures
        decode_i8(x as u8) == x,
{
}

proof fn lemma_axis_recovers(x: i16)
    by (bit_vector)
    ensures
        decode_i16(le_lo(x), le_hi(x)) == x,
{
}

/// Law: every field of a snapshot can be read back from its bit or byte
/// position in the encoded frame, so the encoding loses nothing.
#[verifier::rlimit(60)]
pub proof fn lemma_encode_roundtrip(g: XboxGamepad)
    ensures
        encode_spec(g).len() == 12,
        frame_bit(encode_spec(g), 0, 0) == g.dpad_up,
        frame_bit(encode_spec(g), 0, 1) == g.dpad_down,
        frame_bit(encode_spec(g), 0, 2) == g.dpad_left,
        frame_bit(encode_spec(g), 0, 3) == g.dpad_right,
        frame_bit(encode_spec(g), 0, 4) == g.btn_start,
        frame_bit(encode_spec(g), 0, 5) == g.btn_back,
        frame_bit(encode_spec(g), 0, 6) == g.btn_left_thumb,
        frame_bit(encode_spec(g), 0, 7) == g.btn_right_thumb,
        frame_bit(encode_spec(g), 1, 0) == g.btn_left_shoulder,
        frame_bit(encode_spec(g), 1, 1) == g.btn_right_shoulder,
        frame_bit(encode_spec(g), 1, 2) == g.btn_guide,
        !frame_bit(encode_spec(g), 1, 3),
        frame_bit(encode_spec(g), 1, 4) == g.btn_a,
        frame_bit(encode_spec(g), 1, 5) == g.btn_b,
        frame_bit(encode_spec(g), 1, 6) == g.btn_x,
        frame_bit(encode_spec(g), 1, 7) == g.btn_y,
        decode_i8(encode_spec(g)[2]) == g.trigger_left,
        decode_i8(encode_spec(g)[3]) == g.trigger_right,
        decode_i16(encode_spec(g)[4], encode_spec(g)[5]) == g.thumb_left_x,
        decode_i16(encode_spec(g)[6], encode_spec(g)[7]) == g.thumb_left_y,
        decode_i16(encode_spec(g)[8], encode_spec(g)[9]) == g.thumb_right_x,
        decode_i16(encode_spec(g)[10], encode_spec(g)[11]) == g.thumb_right_y,
{
    lemma_pack_bits_recovers(
        g.dpad_up,
        g.dpad_down,
        g.dpad_left,
        g.dpad_right,
        g.btn_start,
        g.btn_back,
        g.btn_left_thumb,
        g.btn_right_thumb,
    );
    lemma_pack_bits_recovers(
        g.btn_left_shoulder,
        g.btn_right_shoulder,
        g.btn_guide,
        false,
        g.btn_a,
        g.btn_b,
        g.btn_x,
        g.btn_y,
    );
    lemma_trigger_recovers(g.trigger_left);
    lemma_trigger_recovers(g.trigger_right);
    lemma_axis_recovers(g.thumb_left_x);
    lemma_axis_recovers(g.thumb_left_y);
    lemma_axis_recovers(g.thumb_right_x);
    lemma_axis_recovers(g.thumb_right_y);
}

impl Default for XboxGamepad {
    /// The producer's rest position: nothing pressed, sticks centered,
    /// triggers at their maximum.
    fn default() -> (r: XboxGamepad)
        ensures
            !r.dpad_up && !r.dpad_down && !r.dpad_left && !r.dpad_right,
            !r.btn_start && !r.btn_back && !r.btn_left_thumb && !r.btn_right_thumb,
            !r.btn_left_shoulder && !r.btn_right_shoulder && !r.btn_guide,
            !r.btn_a && !r.btn_b && !r.btn_x && !r.btn_y,
            r.trigger_left == i8::MAX && r.trigger_right == i8::MAX,
            r.thumb_left_x == 0 && r.thumb_left_y == 0,
            r.thumb_right_x == 0 && r.thumb_right_y == 0,
    {
        XboxGamepad {
            dpad_up: false,
            dpad_down: false,
            dpad_left: false,
            dpad_right: false,
            btn_start: false,
            btn_back: false,
            btn_left_thumb: false,
            btn_right_thumb: false,
            btn_left_shoulder: false,
            btn_right_shoulder: false,
            btn_guide: false,
            btn_a: false,
            btn_b: false,
            btn_x: false,
            btn_y: false,
            trigger_left: i8::MAX,
            trigger_right: i8::MAX,
            thumb_left_x: 0,
            thumb_left_y: 0,
            thumb_right_x: 0,
            thumb_right_y: 0,
        }
    }
}

} // verus!
