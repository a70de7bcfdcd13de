//! A bounded first-in, first-out history of samples.

use std::collections::VecDeque;
use vstd::prelude::*;

verus! {

/// The newest `n` elements of `s`, oldest first; all of `s` when it holds at most `n`.
pub open spec fn latest<T>(s: Seq<T>, n: nat) -> Seq<T> {
    if s.len() <= n {
        s
    } else {
        s.subrange(s.len() - n, s.len() as int)
    }
}

/// The contents of a buffer of the given capacity after one sample is pushed:
/// the sample is appended at the back, and if that makes the contents longer
/// than the capacity, the element at the front is removed.
pub open spec fn pushed<T>(contents: Seq<T>, capacity: nat, sample: T) -> Seq<T> {
    let appended = contents.push(sample);
    if appended.len() > capacity {
        appended.drop_first()
    } else {
        appended
    }
}

/// The contents of a buffer after every element of `samples` is pushed in order.
pub open spec fn pushed_all<T>(contents: Seq<T>, capacity: nat, samples: Seq<T>) -> Seq<T>
    decreases samples.len(),
{
    if samples.len() == 0 {
        contents
    } else {
        pushed(pushed_all(contents, capacity, samples.drop_last()), capacity, samples.last())
    }
}

/// A fixed-capacity history of samples in chronological order, oldest first.
///
/// The view of a buffer is the sequence of samples it holds. A well-formed
/// buffer has a positive capacity and never holds more samples than that.
pub struct SampleRingBuffer<T> {
    capacity: usize,
    samples: VecDeque<T>,
}

impl<T> View for SampleRingBuffer<T> {
    type V = Seq<T>;

    closed spec fn view(&self) -> Seq<T> {
        self.samples@
    }
}

impl<T> SampleRingBuffer<T> {
    /// The capacity the buffer was created with.
    pub closed spec fn spec_capacity(&self) -> usize {
        self.capacity
    }

    /// The invariant of the type: the capacity is positive and bounds the length.
    /// Every buffer that `new` returns satisfies it and every method keeps it.
    pub open spec fn wf(&self) -> bool {
        0 < self.capacity() && self@.len() <= self.capacity()
    }

    /// An empty buffer that will hold at most `capacity` samples.
    pub fn new(capacity: usize) -> (buffer: Self)
        requires
            capacity > 0,
        ensures
            buffer.wf(),
            buffer@ == Seq::<T>::empty(),
            buffer.capacity() == capacity,
    {
        SampleRingBuffer { capacity, samples: VecDeque::new() }
    }

    /// The fixed capacity.
    #[verifier::when_used_as_spec(spec_capacity)]
    pub fn capacity(&self) -> (capacity: usize)
        ensures
            capacity == self.spec_capacity(),
    {
        self.capacity
    }

    /// The number of samples currently held.
    pub fn len(&self) -> (len: usize)
        ensures
            len == self@.len(),
    {
        self.samples.len()
    }

    /// Appends `sample` at the back and, if the buffer was full, evicts the
    /// oldest sample from the front. The capacity does not change.
    pub fn push(&mut self, sample: T)
        requires
            old(self).wf(),
        ensures
            final(self).wf(),
            final(self)@ == pushed(old(self)@, old(self).capacity() as nat, sample),
            final(self).capacity() == old(self).capacity(),
    {
        self.samples.push_back(sample);
        if self.samples.len() > self.capacity {
            self.samples.pop_front();
        }
    }

    /// A copy of the current contents, oldest first. The buffer is not changed.
    pub fn snapshot(&self) -> (samples: Vec<T>) where T: Copy
        requires
            self.wf(),
        ensures
            samples@ == self@,
            samples@.len() <= self.capacity(),
    {
        let count: usize = self.samples.len();
        let mut samples: Vec<T> = Vec::with_capacity(count);
        let mut index: usize = 0;
        while index < count
            invariant
                count == self.samples@.len(),
                index <= count,
                samples@ == self.samples@.take(index as int),
            decreases count - index,
        {
            samples.push(self.samples[index]);
            index += 1;
        }
        samples
    }
}

/// Pushing onto contents that fit the capacity keeps exactly the newest
/// `capacity` elements of everything held or pushed so far, in order.
pub proof fn lemma_pushed_all_keeps_latest<T>(contents: Seq<T>, capacity: nat, samples: Seq<T>)
    requires
        contents.len() <= capacity,
    ensures
        pushed_all(contents, capacity, samples) == latest(contents + samples, capacity),
    decreases samples.len(),
{
    if samples.len() == 0 {
        assert(contents + samples =~= contents);
    } else {
        let earlier = samples.drop_last();
        lemma_pushed_all_keeps_latest(contents, capacity, earlier);
        let before = contents + earlier;
        assert(before.push(samples.last()) =~= contents + samples);
        assert(pushed(latest(before, capacity), capacity, samples.last()) =~= latest(
            before.push(samples.last()),
            capacity,
        ));
    }
}

/// Bounded size: once at least `capacity` samples have been pushed, the buffer
/// holds exactly `capacity` samples, and they are the last `capacity` pushed
/// values in push order, whatever it held before.
pub proof fn lemma_bounded_size<T>(contents: Seq<T>, capacity: nat, samples: Seq<T>)
    requires
        contents.len() <= capacity,
        samples.len() >= capacity,
    ensures
        pushed_all(contents, capacity, samples).len() == capacity,
        pushed_all(contents, capacity, samples) == samples.subrange(
            samples.len() - capacity,
            samples.len() as int,
        ),
{
    lemma_pushed_all_keeps_latest(contents, capacity, samples);
    assert(latest(contents + samples, capacity) =~= samples.subrange(
        samples.len() - capacity,
        samples.len() as int,
    ));
}

/// First-in, first-out eviction: pushing one sample more than the capacity
/// into an empty buffer leaves every pushed sample but the first, in order.
pub proof fn lemma_fifo_eviction<T>(capacity: nat, samples: Seq<T>)
    requires
        samples.len() == capacity + 1,
    ensures
        pushed_all(Seq::<T>::empty(), capacity, samples) == samples.drop_first(),
{
    lemma_bounded_size(Seq::<T>::empty(), capacity, samples);
}

/// No loss under capacity: pushing no more samples than the capacity into an
/// empty buffer leaves exactly those samples, in order.
pub proof fn lemma_no_loss_under_capacity<T>(capacity: nat, samples: Seq<T>)
    requires
        samples.len() <= capacity,
    ensures
        pushed_all(Seq::<T>::empty(), capacity, samples) == samples,
{
    lemma_pushed_all_keeps_latest(Seq::<T>::empty(), capacity, samples);
    assert(Seq::<T>::empty() + samples =~= samples);
}

} // verus!
