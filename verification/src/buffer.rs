//! A uniform buffer: one contiguous run of 32-bit words, cut into slots of
//! fixed length that are written and read one at a time.

use crate::error::Error;
use vstd::prelude::*;

verus! {

/// The number of words that slots of the given sizes take when they are laid
/// out one after another.
pub open spec fn total_size(sizes: Seq<u32>) -> nat
    decreases sizes.len(),
{
    if sizes.len() == 0 {
        0
    } else {
        total_size(sizes.drop_last()) + sizes.last() as nat
    }
}

/// The index of the first word of slot `i` in a buffer that holds `slots`
/// one after another.
pub open spec fn slot_offset(slots: Seq<Seq<u32>>, i: int) -> int
    decreases i,
{
    if i <= 0 {
        0
    } else {
        slot_offset(slots, i - 1) + slots[i - 1].len()
    }
}

/// A slot of `n` words that are all zero.
pub open spec fn zeroed(n: nat) -> Seq<u32> {
    Seq::new(n, |k: int| 0u32)
}

proof fn lemma_total_size_prefix(sizes: Seq<u32>, n: int)
    requires
        0 <= n <= sizes.len(),
    ensures
        total_size(sizes.take(n)) <= total_size(sizes),
    decreases sizes.len(),
{
    if n == sizes.len() {
        assert(sizes.take(n) =~= sizes);
    } else {
        lemma_total_size_prefix(sizes.drop_last(), n);
        assert(sizes.drop_last().take(n) =~= sizes.take(n));
    }
}

proof fn lemma_total_size_step(sizes: Seq<u32>, n: int)
    requires
        0 <= n < sizes.len(),
    ensures
        total_size(sizes.take(n + 1)) == total_size(sizes.take(n)) + sizes[n],
{
    assert(sizes.take(n + 1).drop_last() =~= sizes.take(n));
}

/// A buffer of words divided into slots.
pub struct UniformBuffer {
    offsets: Vec<usize>,
    data: Vec<u32>,
}

impl View for UniformBuffer {
    type V = Seq<Seq<u32>>;

    /// The slots, each with the words it holds.
    closed spec fn view(&self) -> Seq<Seq<u32>> {
        Seq::new(self.offsets@.len(), |i: int| self.data@.subrange(self.start(i), self.end(i)))
    }
}

impl UniformBuffer {
    /// The slots follow one another without gaps and fill the buffer.
    pub closed spec fn wf(&self) -> bool {
        &&& self.offsets@.len() == 0 ==> self.data@.len() == 0
        &&& self.offsets@.len() > 0 ==> self.offsets@[0] == 0
        &&& forall|i: int, j: int|
            0 <= i <= j < self.offsets@.len() ==> self.offsets@[i] <= self.offsets@[j]
        &&& forall|i: int| 0 <= i < self.offsets@.len() ==> self.offsets@[i] <= self.data@.len()
    }

    /// The whole buffer, word by word, as it is handed to the GPU.
    pub closed spec fn words(&self) -> Seq<u32> {
        self.data@
    }

    spec fn start(&self, i: int) -> int {
        self.offsets@[i] as int
    }

    spec fn end(&self, i: int) -> int {
        if i + 1 < self.offsets@.len() {
            self.offsets@[i + 1] as int
        } else {
            self.data@.len() as int
        }
    }

    proof fn lemma_offsets(&self, i: int)
        requires
            self.wf(),
            0 <= i <= self.offsets@.len(),
        ensures
            i < self.offsets@.len() ==> slot_offset(self@, i) == self.offsets@[i],
            i == self.offsets@.len() ==> slot_offset(self@, i) == self.data@.len(),
        decreases i,
    {
        if i > 0 {
            self.lemma_offsets(i - 1);
            assert(self@[i - 1].len() == self.end(i - 1) - self.start(i - 1));
        }
    }

    /// Slot `i` lies in the buffer behind all the slots before it: the
    /// layout depends on the slots' lengths and on nothing else.
    pub proof fn lemma_layout(&self, i: int, k: int)
        requires
            self.wf(),
            0 <= i < self@.len(),
            0 <= k < self@[i].len(),
        ensures
            0 <= slot_offset(self@, i) + k < self.words().len(),
            self.words()[slot_offset(self@, i) + k] == self@[i][k],
            self.words().len() == slot_offset(self@, self@.len() as int),
    {
        self.lemma_offsets(i);
        self.lemma_offsets(self.offsets@.len() as int);
    }

    /// A buffer with one slot for each of `sizes`, of that many words, all
    /// of them zero. It is refused when the words cannot be counted in a
    /// `usize`.
    pub fn new(sizes: &[u32]) -> (r: Result<UniformBuffer, Error>)
        ensures
            match r {
                Ok(b) => {
                    &&& total_size(sizes@) <= usize::MAX
                    &&& b.wf()
                    &&& b@.len() == sizes@.len()
                    &&& forall|i: int| 0 <= i < sizes@.len() ==> b@[i] == zeroed(sizes@[i] as nat)
                },
                Err(e) => e == Error::Allocation && total_size(sizes@) > usize::MAX,
            },
    {
        let mut offsets: Vec<usize> = Vec::new();
        let mut length: usize = 0;
        let mut i: usize = 0;
        while i < sizes.len()
            invariant
                i <= sizes@.len(),
                offsets@.len() == i,
                length == total_size(sizes@.take(i as int)),
                forall|j: int| 0 <= j < i ==> offsets@[j] == total_size(sizes@.take(j)),
            decreases sizes@.len() - i,
        {
            let size = sizes[i] as usize;
            proof {
                lemma_total_size_step(sizes@, i as int);
                lemma_total_size_prefix(sizes@, i as int + 1);
            }
            if size > usize::MAX - length {
                return Err(Error::Allocation);
            }
            offsets.push(length);
            length = length + size;
            i += 1;
        }
        assert(sizes@.take(i as int) =~= sizes@);
        let mut data: Vec<u32> = Vec::new();
        let mut n: usize = 0;
        while n < length
            invariant
                n <= length,
                data@.len() == n,
                forall|k: int| 0 <= k < n ==> data@[k] == 0u32,
            decreases length - n,
        {
            data.push(0u32);
            n += 1;
        }
        let b = UniformBuffer { offsets, data };
        proof {
            assert forall|p: int, q: int| 0 <= p <= q < b.offsets@.len() implies b.offsets@[p]
                <= b.offsets@[q] by {
                lemma_total_size_prefix(sizes@.take(q), p);
                assert(sizes@.take(q).take(p) =~= sizes@.take(p));
            }
            assert forall|p: int| 0 <= p < b.offsets@.len() implies b.offsets@[p]
                <= b.data@.len() by {
                lemma_total_size_prefix(sizes@, p);
            }
            if b.offsets@.len() > 0 {
                assert(sizes@.take(0) =~= Seq::<u32>::empty());
            }
            assert forall|p: int| 0 <= p < sizes@.len() implies b@[p] == zeroed(
                sizes@[p] as nat,
            ) by {
                lemma_total_size_step(sizes@, p);
                if p + 1 == sizes@.len() {
                    assert(sizes@.take(p + 1) =~= sizes@);
                }
                assert(b@[p] =~= zeroed(sizes@[p] as nat));
            }
        }
        Ok(b)
    }

    /// The number of slots.
    pub fn slot_count(&self) -> (n: usize)
        ensures
            n == self@.len(),
    {
        self.offsets.len()
    }

    /// The whole buffer, for upload.
    pub fn data(&self) -> (r: &[u32])
        ensures
            r@ == self.words(),
    {
        self.data.as_slice()
    }

    fn offset_length(&self, index: usize) -> (r: (usize, usize))
        requires
            self.wf(),
            index < self.offsets@.len(),
        ensures
            r.0 == self.start(index as int),
            r.0 + r.1 == self.end(index as int),
            r.0 + r.1 <= usize::MAX,
            r.1 == self@[index as int].len(),
    {
        let offset = self.offsets[index];
        let count = self.offsets.len();
        let next = if index < count - 1 {
            self.offsets[index + 1]
        } else {
            self.data.len()
        };
        (offset, next - offset)
    }

    /// Overwrites slot `index` with `data` and touches no other slot. The
    /// write is refused, and nothing changes, when there is no such slot or
    /// `data` has not exactly the slot's length.
    pub fn update(&mut self, index: u32, data: &[u32]) -> (r: Result<(), Error>)
        requires
            old(self).wf(),
        ensures
            final(self).wf(),
            final(self)@.len() == old(self)@.len(),
            index < old(self)@.len() && data@.len() == old(self)@[index as int].len() ==> {
                &&& r is Ok
                &&& final(self)@ == old(self)@.update(index as int, data@)
            },
            !(index < old(self)@.len() && data@.len() == old(self)@[index as int].len()) ==> {
                &&& r == Err::<(), Error>(Error::Buffer)
                &&& *final(self) == *old(self)
            },
            forall|j: int|
                0 <= j < old(self)@.len() && j != index ==> final(self)@[j] == old(self)@[j],
    {
        let slot = index as usize;
        if slot >= self.offsets.len() {
            return Err(Error::Buffer);
        }
        let (offset, length) = self.offset_length(slot);
        if data.len() != length {
            return Err(Error::Buffer);
        }
        let mut k: usize = 0;
        while k < length
            invariant
                k <= length,
                length == data@.len(),
                offset + length <= self.data@.len(),
                offset + length <= usize::MAX,
                self.offsets == old(self).offsets,
                self.data@.len() == old(self).data@.len(),
                forall|p: int| 0 <= p < k ==> self.data@[offset + p] == data@[p],
                forall|p: int|
                    0 <= p < self.data@.len() && !(offset <= p < offset + k) ==> self.data@[p]
                        == old(self).data@[p],
            decreases length - k,
        {
            self.data.set(offset + k, data[k]);
            k += 1;
        }
        proof {
            assert forall|j: int| 0 <= j < old(self)@.len() implies self@[j] == old(self)@.update(
                index as int,
                data@,
            )[j] by {
                if j == index {
                    assert(self@[j] =~= data@);
                } else {
                    assert(self@[j] =~= old(self)@[j]);
                }
            }
            assert(self@ =~= old(self)@.update(index as int, data@));
        }
        Ok(())
    }

    /// The words of slot `index`, or the refusal when there is no such slot.
    pub fn get(&self, index: u32) -> (r: Result<&[u32], Error>)
        requires
            self.wf(),
        ensures
            index < self@.len() ==> r is Ok && r->Ok_0@ == self@[index as int],
            index >= self@.len() ==> r is Err && r->Err_0 == Error::Buffer,
    {
        let slot = index as usize;
        if slot >= self.offsets.len() {
            return Err(Error::Buffer);
        }
        let (offset, length) = self.offset_length(slot);
        let all = self.data.as_slice();
        Ok(&all[offset..offset + length])
    }
}

} // verus!
