//! The capture path: every sample of an incoming audio block goes into the
//! history, in the order in which the device delivered it.
//!
//! A device delivers a block as frames, one sample per channel in each frame,
//! laid end to end. Channels are not told apart and not mixed down: a block of
//! two-channel audio contributes both samples of every frame.

use crate::ring_buffer::{latest, lemma_pushed_all_keeps_latest, pushed_all, SampleRingBuffer};
use vstd::prelude::*;

verus! {

/// The frames of a block of interleaved samples: consecutive runs of `channels`
/// samples, the last run holding whatever is left.
pub open spec fn frames_of<T>(interleaved: Seq<T>, channels: nat) -> Seq<Seq<T>>
    decreases interleaved.len(),
{
    if channels == 0 || interleaved.len() == 0 {
        Seq::empty()
    } else if interleaved.len() <= channels {
        seq![interleaved]
    } else {
        seq![interleaved.take(channels as int)] + frames_of(
            interleaved.skip(channels as int),
            channels,
        )
    }
}

/// Going through a block frame by frame, and through each frame sample by
/// sample, visits the interleaved samples in their order, however many channels
/// a frame has.
pub proof fn lemma_frames_flatten_to_block<T>(interleaved: Seq<T>, channels: nat)
    requires
        channels > 0,
    ensures
        frames_of(interleaved, channels).flatten() == interleaved,
    decreases interleaved.len(),
{
    let frames = frames_of(interleaved, channels);
    if interleaved.len() == 0 {
        assert(frames.flatten() =~= interleaved);
    } else if interleaved.len() <= channels {
        assert(frames.drop_first() =~= Seq::<Seq<T>>::empty());
        assert(frames.drop_first().flatten() =~= Seq::<T>::empty());
        assert(frames.flatten() =~= interleaved);
    } else {
        let head = interleaved.take(channels as int);
        let tail = interleaved.skip(channels as int);
        lemma_frames_flatten_to_block(tail, channels);
        assert(frames.first() == head);
        assert(frames.drop_first() =~= frames_of(tail, channels));
        assert(head + tail =~= interleaved);
    }
}

/// Pushes every sample of the block into `buffer`, oldest first, evicting from
/// the front as the buffer fills. Afterwards the buffer holds the newest
/// `capacity` samples of what it held before followed by the block.
pub fn on_audio_block<T: Copy>(buffer: &mut SampleRingBuffer<T>, interleaved: &[T])
    requires
        old(buffer).wf(),
    ensures
        final(buffer).wf(),
        final(buffer).capacity() == old(buffer).capacity(),
        final(buffer)@ == pushed_all(old(buffer)@, old(buffer).capacity() as nat, interleaved@),
        final(buffer)@ == latest(old(buffer)@ + interleaved@, old(buffer).capacity() as nat),
{
    let ghost before = buffer@;
    let ghost capacity = buffer.capacity() as nat;
    let count: usize = interleaved.len();
    let mut index: usize = 0;
    while index < count
        invariant
            buffer.wf(),
            buffer.capacity() == capacity,
            count == interleaved@.len(),
            index <= count,
            buffer@ == pushed_all(before, capacity, interleaved@.take(index as int)),
        decreases count - index,
    {
        buffer.push(interleaved[index]);
        proof {
            assert(interleaved@.take(index + 1).drop_last() =~= interleaved@.take(index as int));
        }
        index += 1;
    }
    proof {
        assert(interleaved@.take(count as int) =~= interleaved@);
        lemma_pushed_all_keeps_latest(before, capacity, interleaved@);
    }
}

} // verus!
