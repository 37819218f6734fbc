//! The scrolling-animation state machine.
//!
//! [`ScrollMessage`] expands a message into the ordered concatenation of
//! every character's eight converted frames, stores them in a buffer whose
//! capacity is fixed by the type parameter, and plays them back one frame
//! per [`Animate::next`] call, under an externally supplied clock.

use vstd::prelude::*;
use vstd::string::StringSliceAdditionalSpecFns;

use crate::font;
use crate::font::Image;

verus! {

/// Returned by construction when a message's expansion (eight frames per
/// character) does not fit the animator's fixed frame capacity.
#[derive(Clone, Copy, PartialEq, Eq, Debug)]
pub struct CapacityError;

/// The full scroll sequence of a message: each byte's eight converted
/// frames, concatenated in message order.
pub open spec fn frames_of_message(message: Seq<u8>) -> Seq<Seq<Seq<bool>>>
    decreases message.len(),
{
    if message.len() == 0 {
        Seq::empty()
    } else {
        font::frames_of_char(message[0]) + frames_of_message(message.drop_first())
    }
}

/// The pixel grids of a frame buffer, in buffer order.
pub open spec fn grids_of(states: Seq<Image>) -> Seq<Seq<Seq<bool>>> {
    Seq::new(states.len(), |i: int| states[i]@)
}

/// A scroll sequence holds exactly eight frames per message byte.
pub proof fn lemma_frames_of_message_len(message: Seq<u8>)
    ensures
        frames_of_message(message).len() == 8 * message.len(),
    decreases message.len(),
{
    if message.len() > 0 {
        lemma_frames_of_message_len(message.drop_first());
    }
}

/// Extending a message by one byte appends that byte's eight frames to the
/// scroll sequence.
pub proof fn lemma_frames_of_message_push(message: Seq<u8>, code: u8)
    ensures
        frames_of_message(message.push(code)) == frames_of_message(message)
            + font::frames_of_char(code),
    decreases message.len(),
{
    if message.len() == 0 {
        assert(message.push(code).drop_first() =~= Seq::<u8>::empty());
        assert(frames_of_message(message.push(code)) == font::frames_of_char(code)
            + frames_of_message(Seq::<u8>::empty()));
        assert(font::frames_of_char(code) + Seq::<Seq<Seq<bool>>>::empty() =~= font::frames_of_char(
            code,
        ));
    } else {
        lemma_frames_of_message_push(message.drop_first(), code);
        assert(message.push(code).drop_first() =~= message.drop_first().push(code));
        assert(frames_of_message(message.push(code)) == font::frames_of_char(message[0]) + (
        frames_of_message(message.drop_first()) + font::frames_of_char(code)));
        assert(font::frames_of_char(message[0]) + (frames_of_message(message.drop_first())
            + font::frames_of_char(code)) =~= (font::frames_of_char(message[0])
            + frames_of_message(message.drop_first())) + font::frames_of_char(code));
    }
}

/// A pull-based, resettable scrolling animation over a fixed sequence of
/// frames, externally clocked: the caller decides when to pull the next
/// frame and is expected to check [`Animate::is_finished`] first.
pub trait Animate: Sized {
    /// The frame type handed to the renderer; its view is a 5x5 pixel grid.
    type Subimage: View<V = Seq<Seq<bool>>>;

    /// The full scroll sequence, as pixel grids, in playback order.
    spec fn frames(&self) -> Seq<Seq<Seq<bool>>>;

    /// The playback position: how many frames have been pulled since the
    /// last reset.
    spec fn cursor(&self) -> int;

    /// The structural invariant that construction establishes and every
    /// operation preserves.
    spec fn inv(&self) -> bool;

    /// Whether a message's expansion fits this implementation's capacity.
    spec fn fits(message: Seq<u8>) -> bool;

    /// The scroll sequence that a message expands to.
    spec fn message_frames(message: Seq<u8>) -> Seq<Seq<Seq<bool>>>;

    /// Builds the animation for a message, rewound to its first frame.
    /// Fails exactly when the expanded frame sequence exceeds the capacity;
    /// the message is never truncated.
    fn new(message: &str) -> (result: Result<Self, CapacityError>)
        ensures
            result is Ok <==> Self::fits(message.spec_bytes()),
            result matches Ok(animation) ==> animation.inv() && animation.cursor() == 0
                && animation.frames() == Self::message_frames(message.spec_bytes()),
    ;

    /// True exactly when every frame has been pulled since the last reset.
    fn is_finished(&mut self) -> (done: bool)
        requires
            old(self).inv(),
        ensures
            *final(self) == *old(self),
            done <==> old(self).cursor() == old(self).frames().len(),
    ;

    /// Rewinds playback to the first frame; the frames themselves are kept.
    fn reset(&mut self)
        requires
            old(self).inv(),
        ensures
            final(self).inv(),
            final(self).cursor() == 0,
            final(self).frames() == old(self).frames(),
    ;

    /// Pulls the frame at the current position and advances the position by
    /// one. Callers must not pull past the end: they check
    /// [`Animate::is_finished`] first.
    fn next(&mut self) -> (frame: &Self::Subimage)
        requires
            old(self).inv(),
            old(self).cursor() < old(self).frames().len(),
        ensures
            final(self).inv(),
            final(self).frames() == old(self).frames(),
            final(self).cursor() == old(self).cursor() + 1,
            frame@ == old(self).frames()[old(self).cursor()],
    ;
}

/// A scrolling animation over a buffer of at most `N` converted frames.
/// A message of `L` bytes expands to exactly `8 * L` frames, so messages
/// of up to `N / 8` bytes fit.
pub struct ScrollMessage<const N: usize> {
    states: Vec<Image>,
    tick: usize,
    scroll_len: usize,
}

impl<const N: usize> Animate for ScrollMessage<N> {
    type Subimage = Image;

    closed spec fn frames(&self) -> Seq<Seq<Seq<bool>>> {
        grids_of(self.states@)
    }

    closed spec fn cursor(&self) -> int {
        self.tick as int
    }

    closed spec fn inv(&self) -> bool {
        &&& self.scroll_len == self.states@.len()
        &&& self.scroll_len <= N
        &&& self.tick <= self.scroll_len
    }

    open spec fn fits(message: Seq<u8>) -> bool {
        8 * message.len() <= N
    }

    open spec fn message_frames(message: Seq<u8>) -> Seq<Seq<Seq<bool>>> {
        frames_of_message(message)
    }

    #[verifier::loop_isolation(false)]
    fn new(message: &str) -> (result: Result<Self, CapacityError>) {
        let bytes: &[u8] = message.as_bytes();
        let n_bytes: usize = bytes.len();
        if n_bytes > N / 8 {
            proof {
                vstd::arithmetic::div_mod::lemma_fundamental_div_mod(N as int, 8);
            }
            return Err(CapacityError);
        }
        proof {
            vstd::arithmetic::div_mod::lemma_fundamental_div_mod(N as int, 8);
            assert(8 * n_bytes <= N);
        }
        let mut states: Vec<Image> = Vec::new();
        let mut k: usize = 0;
        while k < n_bytes
            invariant
                k <= n_bytes,
                states@.len() == 8 * k,
                grids_of(states@) == frames_of_message(bytes@.take(k as int)),
            decreases n_bytes - k,
        {
            let moves = font::get_char_moves(bytes[k]);
            let code: Ghost<u8> = Ghost(bytes@[k as int]);
            let mut m: usize = 0;
            while m < 8
                invariant
                    m <= 8,
                    states@.len() == 8 * k + m,
                    grids_of(states@) == frames_of_message(bytes@.take(k as int))
                        + font::frames_of_char(code@).take(m as int),
                decreases 8 - m,
            {
                let img = font::move_to_image(moves[m]);
                proof {
                    assert(moves[m as int]@ =~= font::spec_char_moves(code@)[m as int]);
                    assert(img@ == font::frames_of_char(code@)[m as int]);
                }
                let ghost prev: Seq<Image> = states@;
                states.push(img);
                proof {
                    assert(grids_of(states@) =~= grids_of(prev).push(img@));
                    assert(font::frames_of_char(code@).take(m as int + 1) =~= font::frames_of_char(
                        code@,
                    ).take(m as int).push(font::frames_of_char(code@)[m as int]));
                    assert(grids_of(states@) =~= frames_of_message(bytes@.take(k as int))
                        + font::frames_of_char(code@).take(m as int + 1));
                }
                m = m + 1;
            }
            proof {
                lemma_frames_of_message_push(bytes@.take(k as int), code@);
                assert(bytes@.take(k as int).push(code@) =~= bytes@.take(k as int + 1));
                assert(font::frames_of_char(code@).take(8) =~= font::frames_of_char(code@));
                assert(grids_of(states@) == frames_of_message(bytes@.take(k as int + 1)));
            }
            k = k + 1;
        }
        proof {
            assert(bytes@.take(n_bytes as int) =~= bytes@);
        }
        Ok(ScrollMessage { states, tick: 0, scroll_len: n_bytes * 8 })
    }

    fn is_finished(&mut self) -> (done: bool) {
        self.tick == self.scroll_len
    }

    fn reset(&mut self) {
        self.tick = 0;
    }

    fn next(&mut self) -> (frame: &Self::Subimage) {
        let t: usize = self.tick;
        self.tick = t + 1;
        &self.states[t]
    }
}

} // verus!
