//! Entropy extractor: three noisy bits make one candidate in `0..8`; the
//! candidate `7` is thrown away, so the seven piece indices `0..=6` are each
//! backed by exactly one bit pattern. Accepted samples wait in a bounded
//! first-in first-out ring until the game asks for them.

use vstd::prelude::*;

verus! {

/// Number of samples the ring can hold.
pub const BUF_SIZE: usize = 18;

/// Number of raw bits that make up one candidate.
pub const BITS_PER_SAMPLE: usize = 3;

/// Number of distinct samples; a candidate equal to this value is rejected.
pub const SAMPLE_KINDS: usize = 7;

/// Value handed out by [`Randy::next`] when no sample is waiting. It is the
/// same every time, so a starved extractor favours one piece.
pub const STARVED_SAMPLE: usize = 3;

/// Mathematical state of the extractor: the samples that wait, oldest first,
/// and the candidate that is being assembled.
pub struct EntropyState {
    /// Accepted samples that were not handed out yet, oldest first.
    pub queue: Seq<usize>,
    /// Bits gathered so far for the next candidate, most significant first.
    pub candidate: nat,
    /// How many bits `candidate` holds.
    pub bits: nat,
}

impl EntropyState {
    /// The state right after construction.
    pub open spec fn empty() -> EntropyState {
        EntropyState { queue: Seq::empty(), candidate: 0, bits: 0 }
    }

    /// What holds of every reachable state.
    pub open spec fn inv(self) -> bool {
        &&& self.queue.len() <= BUF_SIZE
        &&& forall|i: int| 0 <= i < self.queue.len() ==> #[trigger] self.queue[i] < SAMPLE_KINDS
        &&& self.bits < BITS_PER_SAMPLE
        &&& (self.bits == 0 ==> self.candidate == 0)
        &&& (self.bits == 1 ==> self.candidate < 2)
        &&& (self.bits == 2 ==> self.candidate < 4)
    }

    /// No further sample fits.
    pub open spec fn is_full(self) -> bool {
        self.queue.len() == BUF_SIZE
    }

    /// The sample that `bit` completes and that is accepted, if there is one.
    pub open spec fn accepts(self, bit: nat) -> Option<usize> {
        let candidate = 2 * self.candidate + bit;
        if !self.is_full() && self.bits + 1 == BITS_PER_SAMPLE && candidate < SAMPLE_KINDS {
            Some(candidate as usize)
        } else {
            None
        }
    }

    /// The state after one raw bit was offered.
    pub open spec fn add_bit(self, bit: nat) -> EntropyState {
        if self.is_full() {
            self
        } else if self.bits + 1 < BITS_PER_SAMPLE {
            EntropyState {
                queue: self.queue,
                candidate: 2 * self.candidate + bit,
                bits: self.bits + 1,
            }
        } else {
            EntropyState {
                queue: match self.accepts(bit) {
                    Some(sample) => self.queue.push(sample),
                    None => self.queue,
                },
                candidate: 0,
                bits: 0,
            }
        }
    }

    /// The value that the next request is answered with.
    pub open spec fn next_value(self) -> usize {
        if self.queue.len() > 0 {
            self.queue[0]
        } else {
            STARVED_SAMPLE
        }
    }

    /// The state after one request was answered.
    pub open spec fn after_next(self) -> EntropyState {
        if self.queue.len() > 0 {
            EntropyState { queue: self.queue.skip(1), candidate: self.candidate, bits: self.bits }
        } else {
            self
        }
    }
}

/// One use of the extractor: a raw bit offered, or a sample requested.
pub enum Call {
    AddBit(nat),
    Next,
}

/// The state after one call.
pub open spec fn step(state: EntropyState, call: Call) -> EntropyState {
    match call {
        Call::AddBit(bit) => state.add_bit(bit),
        Call::Next => state.after_next(),
    }
}

/// The state after a series of calls, made in order from `state`.
pub open spec fn run(state: EntropyState, calls: Seq<Call>) -> EntropyState
    decreases calls.len(),
{
    if calls.len() == 0 {
        state
    } else {
        step(run(state, calls.drop_last()), calls.last())
    }
}

/// The samples that a series of calls put into the ring, in the order in
/// which their third bit arrived.
pub open spec fn accepted(state: EntropyState, calls: Seq<Call>) -> Seq<usize>
    decreases calls.len(),
{
    if calls.len() == 0 {
        Seq::empty()
    } else {
        let earlier = accepted(state, calls.drop_last());
        match calls.last() {
            Call::AddBit(bit) => match run(state, calls.drop_last()).accepts(bit) {
                Some(sample) => earlier.push(sample),
                None => earlier,
            },
            Call::Next => earlier,
        }
    }
}

/// The samples that the requests among a series of calls took out of the
/// ring, in the order of the requests. A request that found the ring empty
/// took nothing out.
pub open spec fn handed_out(state: EntropyState, calls: Seq<Call>) -> Seq<usize>
    decreases calls.len(),
{
    if calls.len() == 0 {
        Seq::empty()
    } else {
        let earlier = handed_out(state, calls.drop_last());
        let before = run(state, calls.drop_last());
        match calls.last() {
            Call::AddBit(_) => earlier,
            Call::Next => if before.queue.len() > 0 {
                earlier.push(before.next_value())
            } else {
                earlier
            },
        }
    }
}

/// Every bit among the calls is `0` or `1`.
pub open spec fn bits_are_binary(calls: Seq<Call>) -> bool {
    forall|i: int|
        0 <= i < calls.len() ==> (#[trigger] calls[i] matches Call::AddBit(bit) ==> bit <= 1)
}

/// One call keeps a reachable state reachable.
pub proof fn lemma_step_keeps_inv(state: EntropyState, call: Call)
    requires
        state.inv(),
        call matches Call::AddBit(bit) ==> bit <= 1,
    ensures
        step(state, call).inv(),
{
}

/// Whatever calls are made and in whatever order, the number of waiting
/// samples stays between zero and the capacity, every waiting sample is a
/// piece index, and the candidate never holds more than two bits.
pub proof fn lemma_run_keeps_inv(state: EntropyState, calls: Seq<Call>)
    requires
        state.inv(),
        bits_are_binary(calls),
    ensures
        run(state, calls).inv(),
        0 <= run(state, calls).queue.len() <= BUF_SIZE,
    decreases calls.len(),
{
    if calls.len() > 0 {
        lemma_run_keeps_inv(state, calls.drop_last());
        lemma_step_keeps_inv(run(state, calls.drop_last()), calls.last());
    }
}

/// A full ring ignores every bit offered to it.
pub proof fn lemma_full_ignores_bit(state: EntropyState, bit: nat)
    requires
        state.is_full(),
    ensures
        state.add_bit(bit) == state,
        state.accepts(bit) is None,
{
}

/// First in, first out: the samples that waited at the start, followed by
/// those accepted since, are the samples handed out since, followed by those
/// that still wait. So requests are answered in the order of acceptance.
pub proof fn lemma_fifo_order(state: EntropyState, calls: Seq<Call>)
    ensures
        state.queue + accepted(state, calls) == handed_out(state, calls) + run(state, calls).queue,
    decreases calls.len(),
{
    if calls.len() == 0 {
        assert(state.queue + Seq::<usize>::empty() =~= Seq::<usize>::empty() + state.queue);
    } else {
        let earlier = calls.drop_last();
        lemma_fifo_order(state, earlier);
        let before = run(state, earlier);
        assert(state.queue + accepted(state, earlier) == handed_out(state, earlier) + before.queue);
        match calls.last() {
            Call::AddBit(bit) => {
                match before.accepts(bit) {
                    Some(sample) => {
                        assert(state.queue + accepted(state, earlier).push(sample) =~= (state.queue
                            + accepted(state, earlier)).push(sample));
                        assert(handed_out(state, earlier) + before.queue.push(sample) =~= (
                        handed_out(state, earlier) + before.queue).push(sample));
                    },
                    None => {},
                }
            },
            Call::Next => {
                if before.queue.len() > 0 {
                    assert(handed_out(state, earlier).push(before.queue[0]) + before.queue.skip(1)
                        =~= handed_out(state, earlier) + before.queue);
                }
            },
        }
    }
}

/// The candidate that three bits spell, first bit most significant.
pub open spec fn candidate_of(first: nat, second: nat, third: nat) -> nat {
    4 * first + 2 * second + third
}

/// Three bits offered to an extractor that is between candidates and not
/// full queue the candidate they spell, unless all three are set: then
/// nothing changes.
pub proof fn lemma_three_bits(state: EntropyState, first: nat, second: nat, third: nat)
    requires
        state.inv(),
        state.bits == 0,
        !state.is_full(),
        first <= 1,
        second <= 1,
        third <= 1,
    ensures
        state.add_bit(first).add_bit(second).add_bit(third) == (if candidate_of(
            first,
            second,
            third,
        ) < SAMPLE_KINDS {
            EntropyState {
                queue: state.queue.push(candidate_of(first, second, third) as usize),
                candidate: 0,
                bits: 0,
            }
        } else {
            state
        }),
        candidate_of(first, second, third) >= SAMPLE_KINDS <==> first == 1 && second == 1 && third
            == 1,
{
}

/// Each piece index is spelled by exactly one pattern of three bits, and the
/// one pattern left over is the rejected one. Eight equally likely patterns
/// therefore give seven equally likely samples.
pub proof fn lemma_one_pattern_per_sample()
    ensures
        forall|sample: nat|
            sample < SAMPLE_KINDS ==> #[trigger] candidate_of(
                sample / 4,
                (sample / 2) % 2,
                sample % 2,
            ) == sample,
        forall|a: nat, b: nat, c: nat, x: nat, y: nat, z: nat|
            a <= 1 && b <= 1 && c <= 1 && x <= 1 && y <= 1 && z <= 1 && #[trigger] candidate_of(
                a,
                b,
                c,
            ) == #[trigger] candidate_of(x, y, z) ==> a == x && b == y && c == z,
        forall|a: nat, b: nat, c: nat|
            a <= 1 && b <= 1 && c <= 1 ==> (#[trigger] candidate_of(a, b, c) < SAMPLE_KINDS <==> !(a
                == 1 && b == 1 && c == 1)),
{
}

/// Ring buffer of accepted samples together with the candidate in progress.
pub struct Randy {
    buf: [usize; BUF_SIZE],
    head: usize,
    tail: usize,
    candidate: usize,
    bits_accumulated: usize,
    /// Number of available random numbers
    nums_available: usize,
}

impl View for Randy {
    type V = EntropyState;

    closed spec fn view(&self) -> EntropyState {
        EntropyState {
            queue: Seq::new(
                self.nums_available as nat,
                |i: int| self.buf[(self.head + i) % (BUF_SIZE as int)],
            ),
            candidate: self.candidate as nat,
            bits: self.bits_accumulated as nat,
        }
    }
}

impl Randy {
    /// The ring indices are in range, the write index is the read index
    /// advanced by the number of waiting samples, and the view is a
    /// reachable state.
    pub closed spec fn wf(&self) -> bool {
        &&& self.head < BUF_SIZE
        &&& self.tail < BUF_SIZE
        &&& self.nums_available <= BUF_SIZE
        &&& self.tail == (self.head + self.nums_available) % (BUF_SIZE as int)
        &&& self@.inv()
    }

    /// A well-formed extractor is in a reachable state.
    pub proof fn lemma_wf_inv(&self)
        requires
            self.wf(),
        ensures
            self@.inv(),
    {
    }

    /// An extractor with no sample and no bit.
    pub fn new() -> (randy: Randy)
        ensures
            randy.wf(),
            randy@ == EntropyState::empty(),
    {
        let randy = Randy {
            buf: [0; BUF_SIZE],
            head: 0,
            tail: 0,
            candidate: 0,
            bits_accumulated: 0,
            nums_available: 0,
        };
        assert(randy@.queue =~= Seq::empty());
        randy
    }

    /// Number of samples the ring can hold.
    pub fn capacity(&self) -> (capacity: usize)
        ensures
            capacity == BUF_SIZE,
    {
        BUF_SIZE
    }

    /// Offers one raw bit. A full ring ignores it; otherwise it becomes the
    /// lowest bit of the candidate, and the third bit of a candidate either
    /// queues the candidate or, when all three bits are set, drops it.
    pub fn add_bit(&mut self, bit: usize)
        requires
            old(self).wf(),
            bit <= 1,
        ensures
            final(self).wf(),
            final(self)@ == old(self)@.add_bit(bit as nat),
            old(self)@.is_full() ==> *final(self) == *old(self),
    {
        if self.nums_available == BUF_SIZE {
            return ;
        }
        let gathered: usize = self.candidate;
        assert((gathered << 1) | bit == 2 * gathered + bit) by (bit_vector)
            requires
                gathered < 4,
                bit <= 1,
        ;
        self.candidate <<= 1;
        self.candidate |= bit;
        self.bits_accumulated += 1;
        if self.bits_accumulated == BITS_PER_SAMPLE {
            self.bits_accumulated = 0;
            // there are seven pieces, so the samples are 0 to 6
            if self.candidate < SAMPLE_KINDS {
                self.buf[self.tail] = self.candidate;
                self.tail += 1;
                self.tail %= BUF_SIZE;
                // prepare for a new number
                self.candidate = 0;
                self.nums_available += 1;
                proof {
                    let before = old(self)@.queue;
                    let sample = (2 * gathered + bit) as usize;
                    assert forall|i: int| 0 <= i < before.len() + 1 implies self@.queue[i]
                        == before.push(sample)[i] by {
                        if i < before.len() {
                            assert((old(self).head + i) % (BUF_SIZE as int) != old(self).tail);
                        }
                    }
                    assert(self@.queue =~= before.push(sample));
                }
            } else {
                // throw out the number
                self.candidate = 0;
                assert(self@.queue =~= old(self)@.queue);
            }
        } else {
            assert(self@.queue =~= old(self)@.queue);
        }
    }

    /// Hands out the oldest waiting sample, or [`STARVED_SAMPLE`] when none
    /// waits. The constant is no random draw: a caller that needs every
    /// value to be one looks at [`Randy::nums_available`] first.
    pub fn next(&mut self) -> (value: usize)
        requires
            old(self).wf(),
        ensures
            final(self).wf(),
            value == old(self)@.next_value(),
            final(self)@ == old(self)@.after_next(),
            value < SAMPLE_KINDS,
    {
        if self.nums_available > 0 {
            let ret = self.buf[self.head];
            assert(ret == self@.queue[0]);
            self.head += 1;
            self.head %= BUF_SIZE;
            self.nums_available -= 1;
            proof {
                let before = old(self)@.queue;
                assert forall|i: int| 0 <= i < before.len() - 1 implies self@.queue[i]
                    == before.skip(1)[i] by {
                    assert((self.head + i) % (BUF_SIZE as int) == (old(self).head + (i + 1)) % (
                    BUF_SIZE as int));
                }
                assert(self@.queue =~= before.skip(1));
            }
            ret
        } else {
            STARVED_SAMPLE
        }
    }

    /// Number of samples that wait to be handed out.
    pub fn nums_available(&self) -> (count: usize)
        requires
            self.wf(),
        ensures
            count == self@.queue.len(),
            count <= BUF_SIZE,
    {
        self.nums_available
    }
}

} // verus!
