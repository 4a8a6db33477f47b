//! Shared state between the input producer and the protocol engine.
//!
//! One single-slot frame channel — publish never blocks and always replaces
//! an unread frame, so a consumer only ever sees the latest one — and one
//! 16-bit rumble register holding two independent intensities, strong motor
//! in the low byte and weak motor in the high byte, last writer wins.
//!
//! The model here is sequential, which matches the cooperative single-core
//! scheduling the engine runs under: every operation on the channel is
//! atomic with respect to the tasks around it.

use vstd::prelude::*;

use crate::codec::ControllerData;

verus! {

/// Producer/engine shared state: the pending frame slot and the rumble
/// register.
pub struct State {
    xinput: Option<ControllerData>,
    rumble: u16,
}

/// The channel after a publish: the slot holds the new frame, whatever it
/// held before; the rumble register is untouched.
pub closed spec fn publish_spec(s: State, data: ControllerData) -> State {
    State { xinput: Some(data), ..s }
}

/// The channel after one consumption: what the slot held comes out and the
/// slot empties; the rumble register is untouched.
pub closed spec fn take_spec(s: State) -> (Option<ControllerData>, State) {
    (s.xinput, State { xinput: None, ..s })
}

/// The channel after a rumble write: both intensities replaced, the frame
/// slot untouched.
pub closed spec fn set_rumble_spec(s: State, strong: u8, weak: u8) -> State {
    State { rumble: (strong as u16) | ((weak as u16) << 8), ..s }
}

proof fn lemma_rumble_bytes(strong: u8, weak: u8)
    by (bit_vector)
    ensures
        (((strong as u16) | ((weak as u16) << 8)) & 0xFF) as u8 == strong,
        (((strong as u16) | ((weak as u16) << 8)) >> 8) as u8 == weak,
{
}

impl State {
    /// The frame waiting for the engine, if any.
    pub closed spec fn pending(&self) -> Option<ControllerData> {
        self.xinput
    }

    /// The rumble register read as its two intensities: (strong, weak).
    pub closed spec fn rumble_pair(&self) -> (u8, u8) {
        ((self.rumble & 0xFF) as u8, (self.rumble >> 8) as u8)
    }

    /// A fresh channel: no frame pending, both motors off.
    pub fn new() -> (r: State)
        ensures
            r.pending() is None,
            r.rumble_pair() == (0u8, 0u8),
    {
        let r = State { xinput: None, rumble: 0 };
        proof {
            assert((0u16 & 0xFF) as u8 == 0 && (0u16 >> 8) as u8 == 0) by (bit_vector);
        }
        r
    }

    /// Publishes a frame: overwrites whatever was pending. Never blocks and
    /// never fails; a burst of publishes keeps only the latest frame.
    pub fn send_xinput(&mut self, data: ControllerData)
        ensures
            *final(self) == publish_spec(*old(self), data),
            final(self).pending() == Some(data),
            final(self).rumble_pair() == old(self).rumble_pair(),
    {
        self.xinput = Some(data);
    }

    /// Hands the pending frame to the engine and empties the slot. This is
    /// the synchronous core of waiting for the next frame: a caller that
    /// suspends until the slot is full receives exactly what was last
    /// published.
    pub fn take_xinput(&mut self) -> (r: Option<ControllerData>)
        ensures
            (r, *final(self)) == take_spec(*old(self)),
            r == old(self).pending(),
            final(self).pending() is None,
            final(self).rumble_pair() == old(self).rumble_pair(),
    {
        self.xinput.take()
    }

    /// Returns the (strong, weak) rumble pair.
    pub fn rumble(&self) -> (r: (u8, u8))
        ensures
            r == self.rumble_pair(),
    {
        ((self.rumble & 0xFF) as u8, (self.rumble >> 8) as u8)
    }

    /// Stores a rumble pair, replacing the previous one.
    pub fn set_rumble(&mut self, strong: u8, weak: u8)
        ensures
            *final(self) == set_rumble_spec(*old(self), strong, weak),
            final(self).rumble_pair() == (strong, weak),
            final(self).pending() == old(self).pending(),
    {
        self.rumble = (strong as u16) | ((weak as u16) << 8);
        proof {
            lemma_rumble_bytes(strong, weak);
        }
    }
}

impl Default for State {
    /// Same as `State::new`.
    fn default() -> (r: State)
        ensures
            r.pending() is None,
            r.rumble_pair() == (0u8, 0u8),
    {
        State::new()
    }
}

/// Law: freshness over completeness. Publishing two frames in succession
/// before any consumption delivers only the second to the next take.
pub proof fn lemma_publish_coalesces(s: State, first: ControllerData, second: ControllerData)
    ensures
        take_spec(publish_spec(publish_spec(s, first), second)).0 == Some(second),
{
}

/// Law: the rumble register is last-writer-wins. A write followed by a read
/// returns exactly the written pair, and a second write replaces the first.
pub proof fn lemma_rumble_last_writer_wins(s: State, strong1: u8, weak1: u8, strong2: u8, weak2: u8)
    ensures
        set_rumble_spec(s, strong1, weak1).rumble_pair() == (strong1, weak1),
        set_rumble_spec(set_rumble_spec(s, strong1, weak1), strong2, weak2).rumble_pair() == (
            strong2,
            weak2,
        ),
{
    lemma_rumble_bytes(strong1, weak1);
    lemma_rumble_bytes(strong2, weak2);
}

} // verus!
