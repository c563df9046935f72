use vstd::prelude::*;

verus! {

/// Number of samples that the history keeps by default.
pub const HISTORY_CAPACITY: usize = 2048;

/// The last `cap` elements of `s`, or all of `s` where it is not longer.
pub open spec fn keep_last<T>(s: Seq<T>, cap: nat) -> Seq<T> {
    if s.len() > cap {
        s.subrange(s.len() - cap, s.len() as int)
    } else {
        s
    }
}

/// Keeping the last `cap` elements and then appending one, then keeping the
/// last `cap` again, is the same as appending first.
pub proof fn lemma_keep_last_push<T>(s: Seq<T>, x: T, cap: nat)
    ensures
        keep_last(keep_last(s, cap).push(x), cap) == keep_last(s.push(x), cap),
{
    let k = keep_last(s, cap);
    if s.len() > cap {
        assert(keep_last(k.push(x), cap) =~= keep_last(s.push(x), cap));
    }
}

/// However many samples are appended, a history never holds more than its
/// capacity.
pub proof fn lemma_length_bounded<T>(h: Seq<T>, xs: Seq<T>, cap: nat)
    ensures
        keep_last(h + xs, cap).len() <= cap,
{
}

/// Appending to a full history drops exactly its oldest sample and keeps the
/// others in their order, the new sample last.
pub proof fn lemma_full_append_drops_oldest<T>(h: Seq<T>, x: T, cap: nat)
    requires
        cap > 0,
        h.len() == cap,
    ensures
        keep_last(h.push(x), cap) == h.drop_first().push(x),
{
    assert(keep_last(h.push(x), cap) =~= h.drop_first().push(x));
}

/// Number of frames of `channels` samples each in a block of `len` samples;
/// a short last frame counts.
pub open spec fn frame_count(len: nat, channels: nat) -> nat {
    if channels == 0 {
        0
    } else {
        ((len + channels - 1) as nat / channels) as nat
    }
}

/// The first channel's sample of each frame of an interleaved block.
pub open spec fn first_channel<T>(block: Seq<T>, channels: nat) -> Seq<T> {
    Seq::new(frame_count(block.len(), channels), |k: int| block[k * channels])
}

/// Frame `k` starts inside the block exactly when `k` is below the frame count.
proof fn lemma_frame_start(len: nat, channels: nat, k: nat)
    requires
        channels > 0,
    ensures
        (k * channels < len) == (k < frame_count(len, channels)),
{
    let n = frame_count(len, channels);
    let m = (len + channels - 1) as nat;
    assert(n == m / channels);
    assert(n * channels >= len) by (nonlinear_arith)
        requires
            channels > 0,
            n == m / channels,
            m == len + channels - 1,
    ;
    if len > 0 {
        assert(n >= 1 && (n - 1) * channels < len) by (nonlinear_arith)
            requires
                channels > 0,
                len > 0,
                n == m / channels,
                m == len + channels - 1,
        ;
    } else {
        assert(n == 0) by (nonlinear_arith)
            requires
                channels > 0,
                n == m / channels,
                m == channels - 1,
        ;
    }
    if k < n {
        assert(k * channels <= (n - 1) * channels) by (nonlinear_arith)
            requires
                k <= n - 1,
        ;
    } else {
        assert(k * channels >= n * channels) by (nonlinear_arith)
            requires
                k >= n,
        ;
    }
}

/// A fixed-capacity history of samples that drops its oldest entries first.
///
/// The samples sit in a ring: while the history is not full they are `data`
/// in order; once it is full, the oldest one is at `head` and a new sample
/// overwrites it.
pub struct HistoryBuffer<T> {
    data: Vec<T>,
    head: usize,
    capacity: usize,
}

impl<T: Copy> HistoryBuffer<T> {
    pub closed spec fn wf(&self) -> bool {
        &&& self.data.len() <= self.capacity
        &&& self.head == 0 || self.head < self.data.len()
        &&& self.head != 0 ==> self.data.len() == self.capacity
    }

    /// Where the `i`-th oldest sample is stored.
    pub closed spec fn slot(&self, i: int) -> int {
        if self.head + i < self.data.len() {
            self.head + i
        } else {
            self.head + i - self.data.len()
        }
    }

    /// The samples, oldest first.
    pub closed spec fn view(&self) -> Seq<T> {
        Seq::new(self.data.len() as nat, |i: int| self.data@[self.slot(i)])
    }

    pub closed spec fn spec_capacity(&self) -> nat {
        self.capacity as nat
    }

    /// An empty history that keeps at most `capacity` samples.
    pub fn with_capacity(capacity: usize) -> (r: Self)
        ensures
            r.wf(),
            r@ == Seq::<T>::empty(),
            r.spec_capacity() == capacity,
    {
        HistoryBuffer { data: Vec::new(), head: 0, capacity }
    }

    /// An empty history of the default capacity.
    pub fn new() -> (r: Self)
        ensures
            r.wf(),
            r@ == Seq::<T>::empty(),
            r.spec_capacity() == HISTORY_CAPACITY,
    {
        Self::with_capacity(HISTORY_CAPACITY)
    }

    pub fn capacity(&self) -> (r: usize)
        ensures
            r == self.spec_capacity(),
    {
        self.capacity
    }

    pub fn len(&self) -> (r: usize)
        requires
            self.wf(),
        ensures
            r == self@.len(),
            r <= self.spec_capacity(),
    {
        self.data.len()
    }

    /// Appends one sample; where the history was full, its oldest sample is
    /// dropped.
    pub fn append(&mut self, sample: T)
        requires
            old(self).wf(),
        ensures
            final(self).wf(),
            final(self).spec_capacity() == old(self).spec_capacity(),
            final(self)@ == keep_last(old(self)@.push(sample), old(self).spec_capacity()),
    {
        let ghost before = self@;
        if self.capacity == 0 {
            assert(keep_last(before.push(sample), 0) =~= Seq::<T>::empty());
            return;
        }
        if self.data.len() < self.capacity {
            self.data.push(sample);
            assert(self@ =~= before.push(sample));
        } else {
            let h = self.head;
            self.data.set(h, sample);
            self.head = if h + 1 == self.capacity { 0 } else { h + 1 };
            assert(self@ =~= keep_last(before.push(sample), self.capacity as nat));
        }
    }

    /// Appends the first channel's sample of each frame of an interleaved
    /// block, in order; the other channels are not kept. With zero channels a
    /// block has no frames.
    pub fn append_frames(&mut self, block: &[T], channels: usize)
        requires
            old(self).wf(),
        ensures
            final(self).wf(),
            final(self).spec_capacity() == old(self).spec_capacity(),
            final(self)@ == keep_last(
                old(self)@ + first_channel(block@, channels as nat),
                old(self).spec_capacity(),
            ),
    {
        let ghost start = self@;
        let ghost cap = self.spec_capacity();
        let ghost leaders = first_channel(block@, channels as nat);
        if channels == 0 {
            assert(start + leaders =~= start);
            return;
        }
        let mut i: usize = 0;
        let ghost mut k: int = 0;
        proof {
            lemma_frame_start(block@.len(), channels as nat, 0);
        }
        while i < block.len()
            invariant
                self.wf(),
                self.spec_capacity() == cap,
                channels > 0,
                i <= block@.len(),
                i < block@.len() ==> i == k * channels,
                i == block@.len() ==> k == leaders.len(),
                0 <= k <= leaders.len(),
                leaders == first_channel(block@, channels as nat),
                self@ == keep_last(start + leaders.take(k), cap),
            decreases leaders.len() - k,
        {
            proof {
                lemma_frame_start(block@.len(), channels as nat, k as nat);
            }
            let ghost prev = self@;
            self.append(block[i]);
            proof {
                lemma_keep_last_push(start + leaders.take(k), block@[i as int], cap);
                assert(leaders.take(k + 1) =~= leaders.take(k).push(block@[i as int]));
                assert((start + leaders.take(k)).push(block@[i as int])
                    =~= start + leaders.take(k + 1));
                lemma_frame_start(block@.len(), channels as nat, (k + 1) as nat);
                assert((k + 1) * channels == k * channels + channels) by (nonlinear_arith);
            }
            proof {
                k = k + 1;
            }
            if block.len() - i <= channels {
                assert(k == leaders.len());
                i = block.len();
            } else {
                i = i + channels;
            }
        }
        proof {
            lemma_frame_start(block@.len(), channels as nat, k as nat);
            assert(leaders.take(k) =~= leaders);
        }
    }

    /// Appends each sample of `samples`, in order.
    pub fn append_all(&mut self, samples: &[T])
        requires
            old(self).wf(),
        ensures
            final(self).wf(),
            final(self).spec_capacity() == old(self).spec_capacity(),
            final(self)@ == keep_last(old(self)@ + samples@, old(self).spec_capacity()),
    {
        let ghost start = self@;
        let ghost cap = self.spec_capacity();
        let mut i: usize = 0;
        while i < samples.len()
            invariant
                self.wf(),
                self.spec_capacity() == cap,
                i <= samples@.len(),
                self@ == keep_last(start + samples@.take(i as int), cap),
            decreases samples@.len() - i,
        {
            self.append(samples[i]);
            proof {
                lemma_keep_last_push(start + samples@.take(i as int), samples@[i as int], cap);
                assert((start + samples@.take(i as int)).push(samples@[i as int])
                    =~= start + samples@.take(i + 1));
            }
            i = i + 1;
        }
        assert(samples@.take(i as int) =~= samples@);
    }

    /// A copy of the samples, oldest first.
    pub fn snapshot(&self) -> (r: Vec<T>)
        requires
            self.wf(),
        ensures
            r@ == self@,
            r@.len() <= self.spec_capacity(),
    {
        let n = self.data.len();
        let mut out: Vec<T> = Vec::with_capacity(n);
        let mut i: usize = 0;
        while i < n
            invariant
                self.wf(),
                n == self.data.len(),
                i <= n,
                out@ == self@.take(i as int),
            decreases n - i,
        {
            let j = if self.head < n - i { self.head + i } else { self.head - (n - i) };
            out.push(self.data[j]);
            assert(out@ =~= self@.take(i + 1));
            i = i + 1;
        }
        assert(self@.take(n as int) =~= self@);
        out
    }
}

} // verus!

